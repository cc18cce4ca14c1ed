use vstd::prelude::*;
use crate::buffer::{offer, Buffer};

verus! {

/// Switches between playing back received bytes and decoding the key, and
/// drops whatever the buffer held for the mode being left. Returns the new
/// mode: `true` for playback.
pub fn switch_mode(playback: bool, buf: &mut Buffer) -> (r: bool)
    requires
        old(buf).wf(),
    ensures
        r == !playback,
        final(buf).wf(),
        final(buf)@ == Seq::<u8>::empty(),
{
    buf.clear();
    !playback
}

/// Queues a decoded byte, and a space after it when it ended a word.
///
/// On overrun the newest bytes are dropped: a byte that does not fit leaves
/// the buffer as it was. Returns whether every byte was queued.
pub fn store_decoded(buf: &mut Buffer, c: u8, word_end: bool) -> (r: bool)
    requires
        old(buf).wf(),
    ensures
        final(buf).wf(),
        word_end ==> final(buf)@ == offer(offer(old(buf)@, c), ' ' as u8),
        !word_end ==> final(buf)@ == offer(old(buf)@, c),
        r == (old(buf)@.len() + if word_end { 2int } else { 1int } <= Buffer::capacity()),
{
    let first = buf.push(c);
    if word_end {
        let second = buf.push(' ' as u8);
        first.is_ok() && second.is_ok()
    } else {
        first.is_ok()
    }
}

/// Takes the next byte to send over the serial line, if any, and tells whether
/// the buffer is empty afterwards, so that the sender can stop.
pub fn transmit_next(buf: &mut Buffer) -> (r: (Option<u8>, bool))
    requires
        old(buf).wf(),
    ensures
        final(buf).wf(),
        old(buf)@.len() > 0 ==> r.0 == Some(old(buf)@[0]) && final(buf)@ == old(buf)@.drop_first(),
        old(buf)@.len() == 0 ==> r.0 is None && final(buf)@ == old(buf)@,
        r.1 == (final(buf)@.len() == 0),
{
    let c = buf.pop();
    let empty = buf.is_empty();
    match c {
        Ok(u) => (Some(u), empty),
        Err(_) => (None, empty),
    }
}

} // verus!
