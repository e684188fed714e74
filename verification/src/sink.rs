use vstd::prelude::*;

use crate::error::PackError;

verus! {

/// A byte destination with a fixed amount of room.
///
/// A write either appends the whole block and succeeds, or appends nothing
/// and fails because the block does not fit in the room that is left.
/// Bytes once accepted are never retracted, so a failing composite encode
/// leaves the sink holding the prefix that was written before the failure.
pub struct Sink {
    /// The bytes accepted so far, in the order they were written.
    pub buf: Vec<u8>,
    /// The total number of bytes this sink will ever accept.
    pub limit: usize,
}

impl View for Sink {
    type V = Seq<u8>;

    /// The bytes accepted so far, in the order they were written.
    open spec fn view(&self) -> Seq<u8> {
        self.buf@
    }
}

impl Sink {
    /// The total number of bytes this sink will ever accept.
    pub open spec fn limit(self) -> nat {
        self.limit as nat
    }

    /// How many more bytes the sink can still accept.
    pub open spec fn room(self) -> nat {
        if self@.len() <= self.limit() {
            (self.limit() - self@.len()) as nat
        } else {
            0
        }
    }

    /// An empty sink that accepts as many bytes as a `Vec` can hold.
    pub fn unbounded() -> (r: Sink)
        ensures
            r@ == Seq::<u8>::empty(),
            r.room() == usize::MAX,
    {
        Sink { buf: Vec::new(), limit: usize::MAX }
    }

    /// An empty sink that accepts exactly `room` bytes and then fails.
    pub fn with_room(room: usize) -> (r: Sink)
        ensures
            r@ == Seq::<u8>::empty(),
            r.room() == room,
    {
        Sink { buf: Vec::new(), limit: room }
    }

    /// Appends `bytes` whole, or appends nothing when the room left is too
    /// small for the whole block.
    pub fn write_bytes(&mut self, bytes: &Vec<u8>) -> (r: Result<(), PackError>)
        ensures
            final(self).limit() == old(self).limit(),
            r is Ok <==> old(self).room() >= bytes@.len(),
            r is Ok ==> final(self)@ == old(self)@ + bytes@,
            r is Err ==> final(self)@ == old(self)@,
    {
        let have: usize = if self.buf.len() <= self.limit {
            self.limit - self.buf.len()
        } else {
            0
        };
        if bytes.len() > have {
            return Err(PackError::SinkFull);
        }
        self.buf.extend_from_slice(bytes.as_slice());
        Ok(())
    }

    /// The number of bytes written so far.
    pub fn byte_count(&self) -> (r: usize)
        ensures
            r == self@.len(),
    {
        self.buf.len()
    }

    /// How many more bytes the sink can still accept.
    pub fn room_left(&self) -> (r: usize)
        ensures
            r == self.room(),
    {
        if self.buf.len() <= self.limit {
            self.limit - self.buf.len()
        } else {
            0
        }
    }

    /// Gives the written bytes up, consuming the sink.
    pub fn into_bytes(self) -> (r: Vec<u8>)
        ensures
            r@ == self@,
    {
        self.buf
    }
}

} // verus!
