use vstd::prelude::*;
use crate::morse::{byte_to_morse, symbols_of, Morse};

verus! {

/// Length of a dot, and of the pause after each symbol, in timer counts.
pub const SHORT_INTERVAL: u16 = 1000;

/// Length of a dash in timer counts.
pub const LONG_INTERVAL: u16 = SHORT_INTERVAL * 3;

/// How one symbol is shown: each pair is a level to set the indicator to (on
/// or off, or `None` to leave it as it is) and the timer counts to hold it. A
/// space holds the indicator off for four units, which with the pauses around
/// it makes the seven of a word gap.
pub open spec fn symbol_steps(m: Morse) -> Seq<(Option<bool>, u16)> {
    match m {
        Morse::Dot => seq![(Option::Some(true), SHORT_INTERVAL), (Option::Some(false), SHORT_INTERVAL)],
        Morse::Dash => seq![(Option::Some(true), LONG_INTERVAL), (Option::Some(false), SHORT_INTERVAL)],
        Morse::Space => seq![(Option::Some(false), (SHORT_INTERVAL * 4) as u16), (Option::Some(false), SHORT_INTERVAL)],
    }
}

/// The steps of a run of symbols, one after another.
pub open spec fn steps_of(syms: Seq<Morse>) -> Seq<(Option<bool>, u16)>
    decreases syms.len(),
{
    if syms.len() == 0 {
        Seq::empty()
    } else {
        steps_of(syms.drop_last()).add(symbol_steps(syms.last()))
    }
}

/// How byte `c` is shown: the steps of its symbols, then two more units with
/// the indicator left as it is (off after any symbol), which end the
/// three-unit gap after each byte.
pub open spec fn blink_plan(c: u8) -> Seq<(Option<bool>, u16)> {
    steps_of(symbols_of(c)).push((Option::None, (SHORT_INTERVAL * 2) as u16))
}

/// The indicator levels and hold times that show byte `c` in Morse code.
/// A level of `None` leaves the indicator as it is.
pub fn blink_schedule(c: u8) -> (r: Vec<(Option<bool>, u16)>)
    ensures
        r@ == blink_plan(c),
{
    let syms = byte_to_morse(c);
    let mut r: Vec<(Option<bool>, u16)> = Vec::new();
    let mut i: usize = 0;
    while i < syms.len()
        invariant
            i <= syms@.len(),
            syms@ == symbols_of(c),
            r@ == steps_of(syms@.subrange(0, i as int)),
        decreases syms@.len() - i,
    {
        let (level, hold) = match syms[i] {
            Morse::Dot => (Some(true), SHORT_INTERVAL),
            Morse::Dash => (Some(true), LONG_INTERVAL),
            Morse::Space => (Some(false), SHORT_INTERVAL * 4),
        };
        r.push((level, hold));
        r.push((Some(false), SHORT_INTERVAL));
        let ghost done = syms@.subrange(0, i + 1);
        assert(done.drop_last() =~= syms@.subrange(0, i as int));
        i = i + 1;
        assert(r@ =~= steps_of(done));
    }
    assert(syms@.subrange(0, i as int) =~= syms@);
    r.push((None, SHORT_INTERVAL * 2));
    r
}

} // verus!
