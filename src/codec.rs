//! Fixed-width integers written in a chosen byte order into a byte buffer.
use vstd::prelude::*;

verus! {

/// Big-endian bytes of a 16-bit value.
pub open spec fn be16(v: u16) -> Seq<u8> {
    seq![(v / 256) as u8, (v % 256) as u8]
}

/// Little-endian bytes of a 16-bit value.
pub open spec fn le16(v: u16) -> Seq<u8> {
    seq![(v % 256) as u8, (v / 256) as u8]
}

/// Big-endian bytes of a 32-bit value.
pub open spec fn be32(v: u32) -> Seq<u8> {
    seq![
        (v / 0x100_0000) as u8,
        ((v / 0x1_0000) % 256) as u8,
        ((v / 256) % 256) as u8,
        (v % 256) as u8,
    ]
}

/// Little-endian bytes of a 32-bit value.
pub open spec fn le32(v: u32) -> Seq<u8> {
    seq![
        (v % 256) as u8,
        ((v / 256) % 256) as u8,
        ((v / 0x1_0000) % 256) as u8,
        (v / 0x100_0000) as u8,
    ]
}

/// The byte order a [`ByteWriter`] writes in.
#[derive(Clone, Copy, Debug, PartialEq, Eq, Structural)]
pub enum Endianess {
    /// Least significant byte first.
    Little,
    /// Most significant byte first; the default order.
    Big,
}

/// Failures of a bounded byte buffer.
#[derive(Clone, Copy, Debug, PartialEq, Eq, Structural)]
pub enum CodecError {
    /// The write would take the buffer past its fixed capacity.
    BufferFull,
}

pub open spec fn bytes16(value: u16, order: Endianess) -> Seq<u8> {
    match order {
        Endianess::Little => le16(value),
        Endianess::Big => be16(value),
    }
}

pub open spec fn bytes32(value: u32, order: Endianess) -> Seq<u8> {
    match order {
        Endianess::Little => le32(value),
        Endianess::Big => be32(value),
    }
}

/// A growable byte buffer, or one of fixed capacity, that integers are
/// appended to in a default byte order.
pub struct ByteWriter {
    /// The bytes written so far.
    pub data: Vec<u8>,
    /// The byte order the writer was made for. Each write names its own
    /// order, and one that names none is big endian.
    pub endianess: Endianess,
    /// The fixed capacity, if the buffer has one.
    pub limit: Option<usize>,
}

impl ByteWriter {
    /// Every buffer of fixed capacity holds at most that many bytes.
    pub open spec fn wf(&self) -> bool {
        match self.limit {
            Some(c) => self.data@.len() <= c,
            None => true,
        }
    }

    /// Whether `n` more bytes fit.
    pub open spec fn fits(&self, n: nat) -> bool {
        match self.limit {
            Some(c) => self.data@.len() + n <= c,
            None => self.data@.len() + n <= usize::MAX,
        }
    }

    /// The order a write uses when given `order`: big endian when none is
    /// given.
    pub open spec fn order_of(&self, order: Option<Endianess>) -> Endianess {
        match order {
            Some(o) => o,
            None => Endianess::Big,
        }
    }

    /// An empty growable buffer; the order defaults to big endian.
    pub fn new(endianess: Option<Endianess>) -> (r: Self)
        ensures
            r.wf(),
            r.data@ == Seq::<u8>::empty(),
            r.limit is None,
            r.endianess == (match endianess { Some(o) => o, None => Endianess::Big }),
    {
        let order = match endianess {
            Some(o) => o,
            None => Endianess::Big,
        };
        ByteWriter { data: Vec::new(), endianess: order, limit: None }
    }

    /// An empty buffer whose capacity is fixed at `size` bytes; the order
    /// defaults to big endian.
    pub fn with_size(size: usize, endianess: Option<Endianess>) -> (r: Self)
        ensures
            r.wf(),
            r.data@ == Seq::<u8>::empty(),
            r.limit == Some(size),
            r.endianess == (match endianess { Some(o) => o, None => Endianess::Big }),
    {
        let order = match endianess {
            Some(o) => o,
            None => Endianess::Big,
        };
        ByteWriter { data: Vec::with_capacity(size), endianess: order, limit: Some(size) }
    }

    /// Empties the buffer; its capacity and order stay.
    pub fn reset(&mut self)
        ensures
            final(self).data@ == Seq::<u8>::empty(),
            final(self).limit == old(self).limit,
            final(self).endianess == old(self).endianess,
            final(self).wf(),
    {
        self.data.clear();
    }

    /// Grows or truncates the buffer to exactly `new_size` bytes, adding
    /// zeros on growth. A buffer of fixed capacity refuses a size beyond it
    /// and is then left as it was.
    pub fn resize(&mut self, new_size: usize) -> (r: Result<(), CodecError>)
        requires
            old(self).wf(),
        ensures
            final(self).wf(),
            final(self).limit == old(self).limit,
            final(self).endianess == old(self).endianess,
            (match old(self).limit { Some(c) => new_size > c, None => false }) ==> (
                r == Err::<(), CodecError>(CodecError::BufferFull)
                && final(self).data@ == old(self).data@),
            !(match old(self).limit { Some(c) => new_size > c, None => false }) ==> (
                r is Ok
                && final(self).data@.len() == new_size
                && (new_size <= old(self).data@.len() ==>
                    final(self).data@ == old(self).data@.subrange(0, new_size as int))
                && (new_size > old(self).data@.len() ==>
                    final(self).data@ == old(self).data@ + Seq::new(
                        (new_size - old(self).data@.len()) as nat, |i: int| 0u8))),
    {
        match self.limit {
            Some(c) => {
                if new_size > c {
                    return Err(CodecError::BufferFull);
                }
            },
            None => {},
        }
        let old_len = self.data.len();
        self.data.resize(new_size, 0u8);
        proof {
            if new_size > old_len {
                assert(self.data@ =~= old(self).data@ + Seq::new(
                    (new_size - old_len) as nat, |i: int| 0u8));
            } else {
                assert(self.data@ =~= old(self).data@.subrange(0, new_size as int));
            }
        }
        Ok(())
    }

    /// Appends a 16-bit value in `endianess`, big endian when none is given.
    pub fn write_u16(&mut self, value: u16, endianess: Option<Endianess>) -> (r: Result<(), CodecError>)
        requires
            old(self).wf(),
        ensures
            final(self).wf(),
            final(self).limit == old(self).limit,
            final(self).endianess == old(self).endianess,
            old(self).fits(2) ==> r is Ok && final(self).data@ == old(self).data@ + bytes16(
                value, old(self).order_of(endianess)),
            !old(self).fits(2) ==> r == Err::<(), CodecError>(CodecError::BufferFull)
                && final(self).data@ == old(self).data@,
    {
        if !self.has_room(2) {
            return Err(CodecError::BufferFull);
        }
        let order = match endianess {
            Some(o) => o,
            None => Endianess::Big,
        };
        let hi = (value / 256) as u8;
        let lo = (value % 256) as u8;
        match order {
            Endianess::Little => {
                self.data.push(lo);
                self.data.push(hi);
            },
            Endianess::Big => {
                self.data.push(hi);
                self.data.push(lo);
            },
        }
        proof {
            assert(self.data@ =~= old(self).data@ + bytes16(value, order));
        }
        Ok(())
    }

    /// Appends a 32-bit value in `endianess`, big endian when none is given;
    /// all four bytes are always written.
    pub fn write_u32(&mut self, value: u32, endianess: Option<Endianess>) -> (r: Result<(), CodecError>)
        requires
            old(self).wf(),
        ensures
            final(self).wf(),
            final(self).limit == old(self).limit,
            final(self).endianess == old(self).endianess,
            old(self).fits(4) ==> r is Ok && final(self).data@ == old(self).data@ + bytes32(
                value, old(self).order_of(endianess)),
            !old(self).fits(4) ==> r == Err::<(), CodecError>(CodecError::BufferFull)
                && final(self).data@ == old(self).data@,
    {
        if !self.has_room(4) {
            return Err(CodecError::BufferFull);
        }
        let order = match endianess {
            Some(o) => o,
            None => Endianess::Big,
        };
        let b0 = (value / 0x100_0000) as u8;
        let b1 = ((value / 0x1_0000) % 256) as u8;
        let b2 = ((value / 256) % 256) as u8;
        let b3 = (value % 256) as u8;
        match order {
            Endianess::Little => {
                self.data.push(b3);
                self.data.push(b2);
                self.data.push(b1);
                self.data.push(b0);
            },
            Endianess::Big => {
                self.data.push(b0);
                self.data.push(b1);
                self.data.push(b2);
                self.data.push(b3);
            },
        }
        proof {
            assert(self.data@ =~= old(self).data@ + bytes32(value, order));
        }
        Ok(())
    }

    /// Whether `n` more bytes fit in the buffer.
    pub fn has_room(&self, n: usize) -> (r: bool)
        ensures
            r == self.fits(n as nat),
    {
        match self.limit {
            Some(c) => self.data.len() <= c && n <= c - self.data.len(),
            None => n <= usize::MAX - self.data.len(),
        }
    }

    /// `Ok` while a buffer of fixed capacity has room for one more byte;
    /// a growable buffer is never full.
    pub fn is_not_full(&self) -> (r: Result<(), CodecError>)
        requires
            self.wf(),
        ensures
            r is Ok <==> (match self.limit { Some(c) => self.data@.len() < c, None => true }),
            r is Err ==> r == Err::<(), CodecError>(CodecError::BufferFull),
    {
        match self.limit {
            Some(c) => {
                if self.data.len() == c {
                    Err(CodecError::BufferFull)
                } else {
                    Ok(())
                }
            },
            None => Ok(()),
        }
    }
}

} // verus!
