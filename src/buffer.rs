use vstd::prelude::*;

verus! {

/// Number of slots of a buffer; one of them always stays free.
pub const SIZE: usize = 128;

/// A fixed-size FIFO queue of bytes, kept as a ring of `SIZE` slots with a
/// write cursor and a read cursor.
///
/// The bytes held are those from the read cursor up to, not including, the
/// write cursor. Equal cursors mean empty, so at most `SIZE - 1` bytes fit.
pub struct Buffer {
    writer: usize,
    reader: usize,
    data: [u8; SIZE],
}

impl View for Buffer {
    type V = Seq<u8>;

    /// The bytes held, oldest first.
    closed spec fn view(&self) -> Seq<u8> {
        Seq::new(
            ((self.writer + SIZE - self.reader) % (SIZE as int)) as nat,
            |i: int| self.data@[(self.reader + i) % (SIZE as int)],
        )
    }
}

impl Buffer {
    /// Both cursors lie inside the ring.
    pub closed spec fn wf(&self) -> bool {
        &&& self.writer < SIZE
        &&& self.reader < SIZE
    }

    /// The most bytes a buffer holds at once.
    pub open spec fn capacity() -> nat {
        (SIZE - 1) as nat
    }

    /// An empty buffer.
    pub fn new() -> (r: Self)
        ensures
            r.wf(),
            r@ == Seq::<u8>::empty(),
    {
        let r = Self { writer: 0, reader: 0, data: [0u8; SIZE] };
        assert(r@ =~= Seq::<u8>::empty());
        r
    }

    /// Appends `u` at the back. Fails, changing nothing, when the buffer
    /// already holds `capacity()` bytes.
    pub fn push(&mut self, u: u8) -> (r: Result<(), ()>)
        requires
            old(self).wf(),
        ensures
            final(self).wf(),
            old(self)@.len() < Self::capacity() ==> r is Ok && final(self)@ == old(self)@.push(u),
            old(self)@.len() >= Self::capacity() ==> r is Err && *final(self) == *old(self),
    {
        if (self.writer + 1) % SIZE != self.reader {
            let ghost before = self@;
            let w = self.writer;
            self.data[w] = u;
            self.writer = (w + 1) % SIZE;
            assert(self@ =~= before.push(u));
            Ok(())
        } else {
            Err(())
        }
    }

    /// Removes and returns the byte at the front. Fails, changing nothing, when
    /// the buffer is empty.
    pub fn pop(&mut self) -> (r: Result<u8, ()>)
        requires
            old(self).wf(),
        ensures
            final(self).wf(),
            old(self)@.len() > 0 ==> r == Ok::<u8, ()>(old(self)@[0]) && final(self)@ == old(self)@.drop_first(),
            old(self)@.len() == 0 ==> r is Err && *final(self) == *old(self),
    {
        if self.reader != self.writer {
            let ghost before = self@;
            let u = self.data[self.reader];
            self.reader = (self.reader + 1) % SIZE;
            assert(self@ =~= before.drop_first());
            Ok(u)
        } else {
            Err(())
        }
    }

    /// Whether the buffer holds no byte.
    pub fn is_empty(&self) -> (r: bool)
        requires
            self.wf(),
        ensures
            r == (self@.len() == 0),
    {
        self.reader == self.writer
    }

    /// Drops every byte held.
    pub fn clear(&mut self)
        requires
            old(self).wf(),
        ensures
            final(self).wf(),
            final(self)@ == Seq::<u8>::empty(),
    {
        self.writer = 0;
        self.reader = 0;
        assert(self@ =~= Seq::<u8>::empty());
    }
}

/// Contents `q` after offering byte `u`: appended when there is room, dropped
/// otherwise.
pub open spec fn offer(q: Seq<u8>, u: u8) -> Seq<u8> {
    if q.len() < Buffer::capacity() {
        q.push(u)
    } else {
        q
    }
}

/// The contents and the popped bytes after a trace of operations on a buffer
/// that held `q`: `Some(u)` pushes `u`, `None` pops. A push onto a full buffer
/// and a pop from an empty one change nothing, as `push` and `pop` state.
pub open spec fn run_ops(q: Seq<u8>, ops: Seq<Option<u8>>) -> (Seq<u8>, Seq<u8>)
    decreases ops.len(),
{
    if ops.len() == 0 {
        (q, Seq::empty())
    } else {
        match ops[0] {
            Option::Some(u) => run_ops(offer(q, u), ops.drop_first()),
            Option::None => if q.len() > 0 {
                let (f, p) = run_ops(q.drop_first(), ops.drop_first());
                (f, seq![q[0]].add(p))
            } else {
                run_ops(q, ops.drop_first())
            },
        }
    }
}

/// The bytes that a trace pushes, in order.
pub open spec fn pushed(ops: Seq<Option<u8>>) -> Seq<u8>
    decreases ops.len(),
{
    if ops.len() == 0 {
        Seq::empty()
    } else {
        match ops[0] {
            Option::Some(u) => seq![u].add(pushed(ops.drop_first())),
            Option::None => pushed(ops.drop_first()),
        }
    }
}

/// Whether each push of a trace, run from contents `q`, finds a free slot.
pub open spec fn respects_capacity(q: Seq<u8>, ops: Seq<Option<u8>>) -> bool
    decreases ops.len(),
{
    if ops.len() == 0 {
        true
    } else {
        match ops[0] {
            Option::Some(u) => q.len() < Buffer::capacity() && respects_capacity(q.push(u), ops.drop_first()),
            Option::None => respects_capacity(
                if q.len() > 0 { q.drop_first() } else { q },
                ops.drop_first(),
            ),
        }
    }
}

/// Bytes leave a buffer in the order they entered: where no push meets a full
/// buffer, the bytes popped followed by those still held are the bytes held at
/// first followed by the bytes pushed.
pub proof fn lemma_fifo(q: Seq<u8>, ops: Seq<Option<u8>>)
    requires
        respects_capacity(q, ops),
    ensures
        run_ops(q, ops).1.add(run_ops(q, ops).0) == q.add(pushed(ops)),
    decreases ops.len(),
{
    if ops.len() > 0 {
        let rest = ops.drop_first();
        match ops[0] {
            Option::Some(u) => {
                lemma_fifo(q.push(u), rest);
                assert(q.push(u).add(pushed(rest)) =~= q.add(seq![u].add(pushed(rest))));
            },
            Option::None => {
                if q.len() > 0 {
                    lemma_fifo(q.drop_first(), rest);
                    let (f, p) = run_ops(q.drop_first(), rest);
                    assert(p.add(f) == q.drop_first().add(pushed(rest)));
                    assert(seq![q[0]].add(p).add(f) =~= seq![q[0]].add(p.add(f)));
                    assert(seq![q[0]].add(q.drop_first().add(pushed(rest))) =~= q.add(pushed(rest)));
                } else {
                    lemma_fifo(q, rest);
                }
            },
        }
    } else {
        assert(Seq::<u8>::empty().add(q) =~= q.add(Seq::<u8>::empty()));
    }
}

} // verus!
