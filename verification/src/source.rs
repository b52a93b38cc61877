//! The byte source a decode operation consumes: the bytes that have arrived
//! so far, a read position, and a flag saying whether more bytes may still
//! arrive. Reads are all-or-nothing: a read that cannot be served in full
//! consumes nothing, so a later retry of the same logical read starts at the
//! same position. A shortfall on a source that is still open is the
//! non-fatal "would block" condition; on a closed source it is an
//! unexpected end of input.

use crate::errors::{DriverError, Error, IoError};
use crate::varint::{parse_uvarint, uvarint_from, UvarintRead, VarintOutcome};
use vstd::prelude::*;

verus! {

pub struct ByteSource {
    data: Vec<u8>,
    pos: usize,
    open: bool,
}

impl ByteSource {
    /// Every byte that has arrived on this source, read or not.
    pub closed spec fn total_bytes(self) -> Seq<u8> {
        self.data@
    }

    /// How many bytes have been consumed.
    pub closed spec fn consumed(self) -> nat {
        self.pos as nat
    }

    /// Whether more bytes may still arrive.
    pub closed spec fn is_open(self) -> bool {
        self.open
    }

    /// The bytes available to the next read.
    pub open spec fn available(self) -> Seq<u8> {
        self.total_bytes().skip(self.consumed() as int)
    }

    pub open spec fn wf(self) -> bool {
        self.consumed() <= self.total_bytes().len() <= usize::MAX
    }

    pub fn new(data: Vec<u8>, open: bool) -> (s: Self)
        ensures
            s.wf(),
            s.total_bytes() == data@,
            s.consumed() == 0,
            s.is_open() == open,
    {
        // the call to len shows that the byte count fits in usize
        let n = data.len();
        ByteSource { data, pos: 0, open }
    }

    /// More bytes arrive on a still-open source.
    pub fn feed(&mut self, more: &[u8])
        requires
            old(self).wf(),
            old(self).is_open(),
        ensures
            final(self).wf(),
            final(self).total_bytes() == old(self).total_bytes() + more@,
            final(self).consumed() == old(self).consumed(),
            final(self).is_open(),
    {
        let mut i: usize = 0;
        let n = more.len();
        while i < n
            invariant
                i <= n,
                n == more@.len(),
                self.data@ == old(self).data@ + more@.take(i as int),
                self.pos == old(self).pos,
                self.open == old(self).open,
            decreases n - i,
        {
            let b = more[i];
            self.data.push(b);
            i = i + 1;
            proof {
                assert(old(self).data@ + more@.take(i - 1) + seq![more@[i - 1]] =~= old(
                    self,
                ).data@ + more@.take(i as int));
            }
        }
        proof {
            assert(more@.take(n as int) =~= more@);
        }
        // the call to len shows that the grown byte count still fits in usize
        let total = self.data.len();
    }

    /// The source reports that no more bytes will ever arrive.
    pub fn close(&mut self)
        requires
            old(self).wf(),
        ensures
            final(self).wf(),
            final(self).total_bytes() == old(self).total_bytes(),
            final(self).consumed() == old(self).consumed(),
            !final(self).is_open(),
    {
        self.open = false;
    }

    pub fn position(&self) -> (p: usize)
        ensures
            p == self.consumed(),
    {
        self.pos
    }

    pub fn open_now(&self) -> (o: bool)
        ensures
            o == self.is_open(),
    {
        self.open
    }

    /// Move the read position back to an earlier mark, undoing reads that
    /// were part of an operation that could not complete.
    pub fn rewind(&mut self, mark: usize)
        requires
            old(self).wf(),
            mark <= old(self).consumed(),
        ensures
            final(self).wf(),
            final(self).total_bytes() == old(self).total_bytes(),
            final(self).consumed() == mark,
            final(self).is_open() == old(self).is_open(),
    {
        self.pos = mark;
    }

    /// Read exactly `n` bytes, or fail without consuming anything.
    pub fn read_bytes(&mut self, n: usize) -> (r: Result<Vec<u8>, IoError>)
        requires
            old(self).wf(),
        ensures
            final(self).wf(),
            final(self).total_bytes() == old(self).total_bytes(),
            final(self).is_open() == old(self).is_open(),
            match r {
                Ok(v) => {
                    &&& old(self).available().len() >= n
                    &&& v@ == old(self).available().take(n as int)
                    &&& final(self).consumed() == old(self).consumed() + n
                },
                Err(e) => {
                    &&& old(self).available().len() < n
                    &&& final(self).consumed() == old(self).consumed()
                    &&& e.is_shortfall(old(self).is_open())
                },
            },
    {
        if n > self.data.len() - self.pos {
            return Err(IoError::shortfall(self.open));
        }
        let mut v: Vec<u8> = Vec::new();
        let mut i: usize = 0;
        while i < n
            invariant
                i <= n,
                self.pos + n <= self.data@.len() <= usize::MAX,
                self.data@ == old(self).data@,
                self.pos == old(self).pos,
                self.open == old(self).open,
                v@ == self.data@.subrange(self.pos as int, self.pos + i),
            decreases n - i,
        {
            let b = self.data[self.pos + i];
            v.push(b);
            i = i + 1;
            proof {
                assert(self.data@.subrange(self.pos as int, self.pos + i - 1) + seq![
                    self.data@[self.pos + i - 1],
                ] =~= self.data@.subrange(self.pos as int, self.pos + i));
            }
        }
        proof {
            assert(self.data@.subrange(self.pos as int, self.pos + n) =~= self.available().take(
                n as int,
            ));
        }
        self.pos = self.pos + n;
        Ok(v)
    }

    /// Read one variable-length integer, or fail without consuming anything:
    /// a transport shortfall when the bytes end before the integer does, a
    /// driver overflow when the integer does not fit in 64 bits.
    pub fn read_uvarint(&mut self) -> (r: Result<u64, Error>)
        requires
            old(self).wf(),
        ensures
            final(self).wf(),
            final(self).total_bytes() == old(self).total_bytes(),
            final(self).is_open() == old(self).is_open(),
            match r {
                Ok(v) => {
                    &&& parse_uvarint(old(self).available()) matches VarintOutcome::Value {
                        value,
                        length,
                    }
                    &&& value == v as nat
                    &&& final(self).consumed() == old(self).consumed() + length
                },
                Err(e) => {
                    &&& final(self).consumed() == old(self).consumed()
                    &&& match parse_uvarint(old(self).available()) {
                        VarintOutcome::Short => e matches Error::Io(io) && io.is_shortfall(
                            old(self).is_open(),
                        ),
                        VarintOutcome::Overflow => e == Error::Driver(DriverError::Overflow),
                        VarintOutcome::Value { .. } => false,
                    }
                },
            },
    {
        match uvarint_from(&self.data, self.pos, 10) {
            UvarintRead::Got(v, len) => {
                self.pos = self.pos + len;
                Ok(v)
            },
            UvarintRead::NeedMore => Err(Error::Io(IoError::shortfall(self.open))),
            UvarintRead::TooBig => Err(Error::Driver(DriverError::Overflow)),
        }
    }
}

} // verus!
