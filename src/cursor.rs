//! A read position over a byte buffer that only moves forward.
use vstd::prelude::*;

verus! {

/// A byte buffer and a read position in it.
pub struct ByteCursor<'a> {
    bytes: &'a [u8],
    pos: usize,
}

impl<'a> ByteCursor<'a> {
    /// The whole buffer.
    pub closed spec fn input(&self) -> Seq<u8> {
        self.bytes@
    }

    /// The read position: the number of bytes consumed.
    pub closed spec fn offset(&self) -> nat {
        self.pos as nat
    }

    /// The position never passes the end of the buffer.
    pub open spec fn wf(&self) -> bool {
        self.offset() <= self.input().len()
    }

    /// The bytes not consumed yet.
    pub open spec fn rest(&self) -> Seq<u8> {
        self.input().skip(self.offset() as int)
    }

    /// A cursor at the start of `bytes`.
    pub fn new(bytes: &'a [u8]) -> (r: ByteCursor<'a>)
        ensures
            r.wf(),
            r.input() == bytes@,
            r.offset() == 0,
    {
        ByteCursor { bytes, pos: 0 }
    }

    pub fn position(&self) -> (r: usize)
        ensures
            r == self.offset(),
    {
        self.pos
    }

    /// The number of bytes not consumed yet.
    pub fn remaining(&self) -> (r: usize)
        requires
            self.wf(),
        ensures
            r == self.input().len() - self.offset(),
    {
        self.bytes.len() - self.pos
    }

    pub fn is_exhausted(&self) -> (r: bool)
        requires
            self.wf(),
        ensures
            r == (self.offset() == self.input().len()),
    {
        self.pos == self.bytes.len()
    }

    /// The next byte, without consuming it.
    pub fn peek(&self) -> (r: Option<u8>)
        requires
            self.wf(),
        ensures
            self.offset() < self.input().len() ==> r == Some(self.input()[self.offset() as int]),
            self.offset() == self.input().len() ==> r is None,
    {
        if self.pos < self.bytes.len() {
            Some(self.bytes[self.pos])
        } else {
            None
        }
    }

    /// Consumes and returns the next byte; at the end of the buffer returns
    /// `None` and stays.
    pub fn next_byte(&mut self) -> (r: Option<u8>)
        requires
            old(self).wf(),
        ensures
            final(self).wf(),
            final(self).input() == old(self).input(),
            old(self).offset() < old(self).input().len() ==> {
                &&& r == Some(old(self).input()[old(self).offset() as int])
                &&& final(self).offset() == old(self).offset() + 1
            },
            old(self).offset() == old(self).input().len() ==> {
                &&& r is None
                &&& final(self).offset() == old(self).offset()
            },
    {
        if self.pos < self.bytes.len() {
            let b = self.bytes[self.pos];
            self.pos = self.pos + 1;
            Some(b)
        } else {
            None
        }
    }
}

} // verus!
