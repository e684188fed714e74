use vstd::prelude::*;

use vstd::slice::slice_subrange;
use vstd::slice::slice_to_vec;

use crate::error::UnpackError;

verus! {

/// A byte origin that yields bytes from a buffer, front to back.
///
/// A read either yields the whole block asked for and advances, or yields
/// nothing and fails because fewer bytes are left than were asked for.
/// Bytes once consumed are not restored, so a failing composite decode
/// leaves the position wherever the failing component stopped.
pub struct Source {
    /// Every byte the source was created over.
    pub buf: Vec<u8>,
    /// How many of those bytes have been consumed already.
    pub pos: usize,
}

impl Source {
    /// Every byte the source was created over.
    pub open spec fn all_bytes(self) -> Seq<u8> {
        self.buf@
    }

    /// How many bytes have been consumed so far.
    pub open spec fn pos(self) -> nat {
        self.pos as nat
    }

    /// The bytes not yet consumed, in the order they will be yielded.
    pub open spec fn rest(self) -> Seq<u8> {
        if self.pos() <= self.all_bytes().len() {
            self.all_bytes().skip(self.pos() as int)
        } else {
            Seq::<u8>::empty()
        }
    }

    /// How many bytes are left to read.
    pub open spec fn remaining(self) -> nat {
        self.rest().len()
    }

    /// A source positioned at the front of `data`.
    pub fn from_bytes(data: Vec<u8>) -> (r: Source)
        ensures
            r.all_bytes() == data@,
            r.pos() == 0,
    {
        Source { buf: data, pos: 0 }
    }

    /// Yields the next `n` bytes whole, or yields nothing when fewer than
    /// `n` bytes are left.
    pub fn read_bytes(&mut self, n: usize) -> (r: Result<Vec<u8>, UnpackError>)
        ensures
            final(self).all_bytes() == old(self).all_bytes(),
            r is Ok <==> old(self).remaining() >= n,
            r is Ok ==> r->Ok_0@ == old(self).rest().take(n as int) && final(self).pos() == old(
                self,
            ).pos() + n,
            r is Err ==> final(self).pos() == old(self).pos(),
    {
        let len = self.buf.len();
        let have: usize = if self.pos <= len {
            len - self.pos
        } else {
            0
        };
        if n > have {
            return Err(UnpackError::ShortRead);
        }
        if n == 0 {
            proof {
                assert(Seq::<u8>::empty() =~= old(self).rest().take(0));
            }
            return Ok(Vec::new());
        }
        let piece = slice_subrange(self.buf.as_slice(), self.pos, self.pos + n);
        let out = slice_to_vec(piece);
        proof {
            assert(out@ =~= old(self).rest().take(n as int));
        }
        self.pos = self.pos + n;
        Ok(out)
    }

    /// Consuming `w` bytes drops the first `w` bytes of the rest.
    pub proof fn lemma_rest_advance(a: Source, b: Source, w: nat)
        requires
            b.all_bytes() == a.all_bytes(),
            b.pos() == a.pos() + w,
            a.remaining() >= w,
        ensures
            b.rest() == a.rest().skip(w as int),
            b.remaining() == a.remaining() - w,
    {
        assert(b.rest() =~= a.rest().skip(w as int));
    }

    /// How many bytes are left to read.
    pub fn bytes_left(&self) -> (r: usize)
        ensures
            r == self.remaining(),
    {
        if self.pos <= self.buf.len() {
            self.buf.len() - self.pos
        } else {
            0
        }
    }
}

} // verus!
