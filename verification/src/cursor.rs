//! A read cursor over the bytes of one packet payload: decoders consume
//! matching bytes from the front, and the view is always the bytes that
//! remain unread.

use vstd::prelude::*;

verus! {

/// An owned byte buffer consumed from the front, one field at a time.
pub struct Cursor {
    data: Vec<u8>,
    pos: usize,
}

impl View for Cursor {
    type V = Seq<u8>;

    closed spec fn view(&self) -> Seq<u8> {
        if self.pos <= self.data.len() {
            self.data@.subrange(self.pos as int, self.data.len() as int)
        } else {
            Seq::empty()
        }
    }
}

impl Cursor {
    /// Wraps a buffer; nothing is consumed yet.
    pub fn new(data: Vec<u8>) -> (r: Cursor)
        ensures
            r@ == data@,
    {
        let r = Cursor { data, pos: 0 };
        proof {
            assert(r@ =~= r.data@);
        }
        r
    }

    /// How many bytes are still unread.
    pub fn remaining(&self) -> (n: usize)
        ensures
            n == self@.len(),
    {
        if self.pos <= self.data.len() {
            self.data.len() - self.pos
        } else {
            0
        }
    }

    /// True once every byte has been consumed.
    pub fn is_empty(&self) -> (b: bool)
        ensures
            b == (self@.len() == 0),
    {
        self.remaining() == 0
    }

    /// Consumes and returns the front byte, if one remains.
    pub fn next(&mut self) -> (r: Option<u8>)
        ensures
            old(self)@.len() == 0 ==> r is None && final(self)@ == old(self)@,
            old(self)@.len() > 0 ==> r == Some(old(self)@[0]) && final(self)@ == old(self)@.subrange(
                1,
                old(self)@.len() as int,
            ),
    {
        if self.pos < self.data.len() {
            let b = self.data[self.pos];
            self.pos = self.pos + 1;
            proof {
                assert(self@ =~= old(self)@.subrange(1, old(self)@.len() as int));
            }
            Some(b)
        } else {
            None
        }
    }

    /// Consumes the next `n` bytes and hands them back as an owned buffer;
    /// refuses without consuming anything when fewer than `n` remain.
    pub fn take(&mut self, n: usize) -> (r: Option<Vec<u8>>)
        ensures
            n <= old(self)@.len() ==> (r matches Some(v) && v@ == old(self)@.subrange(0, n as int)
                && final(self)@ == old(self)@.subrange(n as int, old(self)@.len() as int)),
            n > old(self)@.len() ==> r is None && final(self)@ == old(self)@,
    {
        let rem = self.remaining();
        if n > rem {
            return None;
        }
        let mut out: Vec<u8> = Vec::new();
        let mut i: usize = 0;
        while i < n
            invariant
                i <= n,
                n <= old(self)@.len(),
                self == old(self),
                out@ =~= old(self)@.subrange(0, i as int),
            decreases n - i,
        {
            proof {
                assert(self.pos + n <= self.data.len());
                assert(old(self)@[i as int] == self.data@[self.pos + i]);
            }
            out.push(self.data[self.pos + i]);
            i = i + 1;
            proof {
                assert(out@ =~= old(self)@.subrange(0, i as int));
            }
        }
        self.pos = self.pos + n;
        proof {
            assert(self@ =~= old(self)@.subrange(n as int, old(self)@.len() as int));
        }
        Some(out)
    }
}

} // verus!
