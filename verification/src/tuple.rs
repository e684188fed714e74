use vstd::prelude::*;

use crate::error::PackError;
use crate::error::UnpackError;
use crate::order::ByteOrder;
use crate::pack::lemma_prefix_chain;
use crate::pack::lemma_prefix_of_append;
use crate::pack::PackTo;
use crate::sink::Sink;
use crate::source::Source;
use crate::unpack::chunk;
use crate::unpack::lemma_chunk_of_take;
use crate::unpack::UnpackFrom;

verus! {

// A tuple's wire form is the concatenation of its fields' forms in
// declared left-to-right order, with no separators; decoding reads the
// fields back in the same order and assembles the tuple only once every
// field has arrived.  Field counts one through twelve are supported, a
// closed set; the zero-field case is the unit impl beside the scalars.

impl<T1: PackTo> PackTo for (T1,) {
    open spec fn wire_width(self) -> nat {
        self.0.wire_width()
    }

    open spec fn wire_bytes(self, o: ByteOrder) -> Seq<u8> {
        self.0.wire_bytes(o)
    }

    proof fn lemma_wire_width(self, o: ByteOrder) {
        self.0.lemma_wire_width(o);
    }

    #[verifier::spinoff_prover]
    #[verifier::rlimit(100)]
    fn pack_to(&self, o: ByteOrder, dst: &mut Sink) -> (r: Result<(), PackError>) {
        let ghost start = *dst;
        let ghost d0 = *dst;
        match self.0.pack_to(o, dst) {
            Ok(_) => {},
            Err(e) => {
                proof {
                    lemma_prefix_chain(start@, d0@, dst@);
                    assert(d0@ + (*self).0.wire_bytes(o) =~= start@ + ((*self).0.wire_bytes(o)));
                }
                return Err(e);
            },
        }
        proof {
            assert(dst@ =~= start@ + ((*self).0.wire_bytes(o)));
        }
        Ok(())
    }
}

impl<T1: PackTo, T2: PackTo> PackTo for (T1, T2) {
    open spec fn wire_width(self) -> nat {
        self.0.wire_width() + self.1.wire_width()
    }

    open spec fn wire_bytes(self, o: ByteOrder) -> Seq<u8> {
        self.0.wire_bytes(o) + self.1.wire_bytes(o)
    }

    proof fn lemma_wire_width(self, o: ByteOrder) {
        self.0.lemma_wire_width(o);
        self.1.lemma_wire_width(o);
    }

    #[verifier::spinoff_prover]
    #[verifier::rlimit(100)]
    fn pack_to(&self, o: ByteOrder, dst: &mut Sink) -> (r: Result<(), PackError>) {
        let ghost start = *dst;
        let ghost d0 = *dst;
        match self.0.pack_to(o, dst) {
            Ok(_) => {},
            Err(e) => {
                proof {
                    lemma_prefix_chain(start@, d0@, dst@);
                    assert(d0@ + (*self).0.wire_bytes(o) =~= start@ + ((*self).0.wire_bytes(o)));
                    lemma_prefix_of_append(start@ + ((*self).0.wire_bytes(o)), (*self).1.wire_bytes(o));
                    assert((start@ + ((*self).0.wire_bytes(o))) + (*self).1.wire_bytes(o) =~= start@ + ((*self).0.wire_bytes(o) + (*self).1.wire_bytes(o)));
                    lemma_prefix_chain(dst@, start@ + ((*self).0.wire_bytes(o)), start@ + ((*self).0.wire_bytes(o) + (*self).1.wire_bytes(o)));
                }
                return Err(e);
            },
        }
        proof {
            assert(dst@ =~= start@ + ((*self).0.wire_bytes(o)));
        }
        let ghost d1 = *dst;
        match self.1.pack_to(o, dst) {
            Ok(_) => {},
            Err(e) => {
                proof {
                    lemma_prefix_of_append(start@, (*self).0.wire_bytes(o));
                    lemma_prefix_chain(start@, d1@, dst@);
                    assert(d1@ + (*self).1.wire_bytes(o) =~= start@ + ((*self).0.wire_bytes(o) + (*self).1.wire_bytes(o)));
                }
                return Err(e);
            },
        }
        proof {
            assert(dst@ =~= start@ + ((*self).0.wire_bytes(o) + (*self).1.wire_bytes(o)));
        }
        Ok(())
    }
}

impl<T1: PackTo, T2: PackTo, T3: PackTo> PackTo for (T1, T2, T3) {
    open spec fn wire_width(self) -> nat {
        self.0.wire_width() + self.1.wire_width() + self.2.wire_width()
    }

    open spec fn wire_bytes(self, o: ByteOrder) -> Seq<u8> {
        self.0.wire_bytes(o) + self.1.wire_bytes(o) + self.2.wire_bytes(o)
    }

    proof fn lemma_wire_width(self, o: ByteOrder) {
        self.0.lemma_wire_width(o);
        self.1.lemma_wire_width(o);
        self.2.lemma_wire_width(o);
    }

    #[verifier::spinoff_prover]
    #[verifier::rlimit(100)]
    fn pack_to(&self, o: ByteOrder, dst: &mut Sink) -> (r: Result<(), PackError>) {
        let ghost start = *dst;
        let ghost d0 = *dst;
        match self.0.pack_to(o, dst) {
            Ok(_) => {},
            Err(e) => {
                proof {
                    lemma_prefix_chain(start@, d0@, dst@);
                    assert(d0@ + (*self).0.wire_bytes(o) =~= start@ + ((*self).0.wire_bytes(o)));
                    lemma_prefix_of_append(start@ + ((*self).0.wire_bytes(o)), (*self).1.wire_bytes(o));
                    assert((start@ + ((*self).0.wire_bytes(o))) + (*self).1.wire_bytes(o) =~= start@ + ((*self).0.wire_bytes(o) + (*self).1.wire_bytes(o)));
                    lemma_prefix_chain(dst@, start@ + ((*self).0.wire_bytes(o)), start@ + ((*self).0.wire_bytes(o) + (*self).1.wire_bytes(o)));
                    lemma_prefix_of_append(start@ + ((*self).0.wire_bytes(o) + (*self).1.wire_bytes(o)), (*self).2.wire_bytes(o));
                    assert((start@ + ((*self).0.wire_bytes(o) + (*self).1.wire_bytes(o))) + (*self).2.wire_bytes(o) =~= start@ + ((*self).0.wire_bytes(o) + (*self).1.wire_bytes(o) + (*self).2.wire_bytes(o)));
                    lemma_prefix_chain(dst@, start@ + ((*self).0.wire_bytes(o) + (*self).1.wire_bytes(o)), start@ + ((*self).0.wire_bytes(o) + (*self).1.wire_bytes(o) + (*self).2.wire_bytes(o)));
                }
                return Err(e);
            },
        }
        proof {
            assert(dst@ =~= start@ + ((*self).0.wire_bytes(o)));
        }
        let ghost d1 = *dst;
        match self.1.pack_to(o, dst) {
            Ok(_) => {},
            Err(e) => {
                proof {
                    lemma_prefix_of_append(start@, (*self).0.wire_bytes(o));
                    lemma_prefix_chain(start@, d1@, dst@);
                    assert(d1@ + (*self).1.wire_bytes(o) =~= start@ + ((*self).0.wire_bytes(o) + (*self).1.wire_bytes(o)));
                    lemma_prefix_of_append(start@ + ((*self).0.wire_bytes(o) + (*self).1.wire_bytes(o)), (*self).2.wire_bytes(o));
                    assert((start@ + ((*self).0.wire_bytes(o) + (*self).1.wire_bytes(o))) + (*self).2.wire_bytes(o) =~= start@ + ((*self).0.wire_bytes(o) + (*self).1.wire_bytes(o) + (*self).2.wire_bytes(o)));
                    lemma_prefix_chain(dst@, start@ + ((*self).0.wire_bytes(o) + (*self).1.wire_bytes(o)), start@ + ((*self).0.wire_bytes(o) + (*self).1.wire_bytes(o) + (*self).2.wire_bytes(o)));
                }
                return Err(e);
            },
        }
        proof {
            assert(dst@ =~= start@ + ((*self).0.wire_bytes(o) + (*self).1.wire_bytes(o)));
        }
        let ghost d2 = *dst;
        match self.2.pack_to(o, dst) {
            Ok(_) => {},
            Err(e) => {
                proof {
                    lemma_prefix_of_append(start@, (*self).0.wire_bytes(o) + (*self).1.wire_bytes(o));
                    lemma_prefix_chain(start@, d2@, dst@);
                    assert(d2@ + (*self).2.wire_bytes(o) =~= start@ + ((*self).0.wire_bytes(o) + (*self).1.wire_bytes(o) + (*self).2.wire_bytes(o)));
                }
                return Err(e);
            },
        }
        proof {
            assert(dst@ =~= start@ + ((*self).0.wire_bytes(o) + (*self).1.wire_bytes(o) + (*self).2.wire_bytes(o)));
        }
        Ok(())
    }
}

impl<T1: PackTo, T2: PackTo, T3: PackTo, T4: PackTo> PackTo for (T1, T2, T3, T4) {
    open spec fn wire_width(self) -> nat {
        self.0.wire_width() + self.1.wire_width() + self.2.wire_width() + self.3.wire_width()
    }

    open spec fn wire_bytes(self, o: ByteOrder) -> Seq<u8> {
        self.0.wire_bytes(o) + self.1.wire_bytes(o) + self.2.wire_bytes(o) + self.3.wire_bytes(o)
    }

    proof fn lemma_wire_width(self, o: ByteOrder) {
        self.0.lemma_wire_width(o);
        self.1.lemma_wire_width(o);
        self.2.lemma_wire_width(o);
        self.3.lemma_wire_width(o);
    }

    #[verifier::spinoff_prover]
    #[verifier::rlimit(100)]
    fn pack_to(&self, o: ByteOrder, dst: &mut Sink) -> (r: Result<(), PackError>) {
        let ghost start = *dst;
        let ghost d0 = *dst;
        match self.0.pack_to(o, dst) {
            Ok(_) => {},
            Err(e) => {
                proof {
                    lemma_prefix_chain(start@, d0@, dst@);
                    assert(d0@ + (*self).0.wire_bytes(o) =~= start@ + ((*self).0.wire_bytes(o)));
                    lemma_prefix_of_append(start@ + ((*self).0.wire_bytes(o)), (*self).1.wire_bytes(o));
                    assert((start@ + ((*self).0.wire_bytes(o))) + (*self).1.wire_bytes(o) =~= start@ + ((*self).0.wire_bytes(o) + (*self).1.wire_bytes(o)));
                    lemma_prefix_chain(dst@, start@ + ((*self).0.wire_bytes(o)), start@ + ((*self).0.wire_bytes(o) + (*self).1.wire_bytes(o)));
                    lemma_prefix_of_append(start@ + ((*self).0.wire_bytes(o) + (*self).1.wire_bytes(o)), (*self).2.wire_bytes(o));
                    assert((start@ + ((*self).0.wire_bytes(o) + (*self).1.wire_bytes(o))) + (*self).2.wire_bytes(o) =~= start@ + ((*self).0.wire_bytes(o) + (*self).1.wire_bytes(o) + (*self).2.wire_bytes(o)));
                    lemma_prefix_chain(dst@, start@ + ((*self).0.wire_bytes(o) + (*self).1.wire_bytes(o)), start@ + ((*self).0.wire_bytes(o) + (*self).1.wire_bytes(o) + (*self).2.wire_bytes(o)));
                    lemma_prefix_of_append(start@ + ((*self).0.wire_bytes(o) + (*self).1.wire_bytes(o) + (*self).2.wire_bytes(o)), (*self).3.wire_bytes(o));
                    assert((start@ + ((*self).0.wire_bytes(o) + (*self).1.wire_bytes(o) + (*self).2.wire_bytes(o))) + (*self).3.wire_bytes(o) =~= start@ + ((*self).0.wire_bytes(o) + (*self).1.wire_bytes(o) + (*self).2.wire_bytes(o) + (*self).3.wire_bytes(o)));
                    lemma_prefix_chain(dst@, start@ + ((*self).0.wire_bytes(o) + (*self).1.wire_bytes(o) + (*self).2.wire_bytes(o)), start@ + ((*self).0.wire_bytes(o) + (*self).1.wire_bytes(o) + (*self).2.wire_bytes(o) + (*self).3.wire_bytes(o)));
                }
                return Err(e);
            },
        }
        proof {
            assert(dst@ =~= start@ + ((*self).0.wire_bytes(o)));
        }
        let ghost d1 = *dst;
        match self.1.pack_to(o, dst) {
            Ok(_) => {},
            Err(e) => {
                proof {
                    lemma_prefix_of_append(start@, (*self).0.wire_bytes(o));
                    lemma_prefix_chain(start@, d1@, dst@);
                    assert(d1@ + (*self).1.wire_bytes(o) =~= start@ + ((*self).0.wire_bytes(o) + (*self).1.wire_bytes(o)));
                    lemma_prefix_of_append(start@ + ((*self).0.wire_bytes(o) + (*self).1.wire_bytes(o)), (*self).2.wire_bytes(o));
                    assert((start@ + ((*self).0.wire_bytes(o) + (*self).1.wire_bytes(o))) + (*self).2.wire_bytes(o) =~= start@ + ((*self).0.wire_bytes(o) + (*self).1.wire_bytes(o) + (*self).2.wire_bytes(o)));
                    lemma_prefix_chain(dst@, start@ + ((*self).0.wire_bytes(o) + (*self).1.wire_bytes(o)), start@ + ((*self).0.wire_bytes(o) + (*self).1.wire_bytes(o) + (*self).2.wire_bytes(o)));
                    lemma_prefix_of_append(start@ + ((*self).0.wire_bytes(o) + (*self).1.wire_bytes(o) + (*self).2.wire_bytes(o)), (*self).3.wire_bytes(o));
                    assert((start@ + ((*self).0.wire_bytes(o) + (*self).1.wire_bytes(o) + (*self).2.wire_bytes(o))) + (*self).3.wire_bytes(o) =~= start@ + ((*self).0.wire_bytes(o) + (*self).1.wire_bytes(o) + (*self).2.wire_bytes(o) + (*self).3.wire_bytes(o)));
                    lemma_prefix_chain(dst@, start@ + ((*self).0.wire_bytes(o) + (*self).1.wire_bytes(o) + (*self).2.wire_bytes(o)), start@ + ((*self).0.wire_bytes(o) + (*self).1.wire_bytes(o) + (*self).2.wire_bytes(o) + (*self).3.wire_bytes(o)));
                }
                return Err(e);
            },
        }
        proof {
            assert(dst@ =~= start@ + ((*self).0.wire_bytes(o) + (*self).1.wire_bytes(o)));
        }
        let ghost d2 = *dst;
        match self.2.pack_to(o, dst) {
            Ok(_) => {},
            Err(e) => {
                proof {
                    lemma_prefix_of_append(start@, (*self).0.wire_bytes(o) + (*self).1.wire_bytes(o));
                    lemma_prefix_chain(start@, d2@, dst@);
                    assert(d2@ + (*self).2.wire_bytes(o) =~= start@ + ((*self).0.wire_bytes(o) + (*self).1.wire_bytes(o) + (*self).2.wire_bytes(o)));
                    lemma_prefix_of_append(start@ + ((*self).0.wire_bytes(o) + (*self).1.wire_bytes(o) + (*self).2.wire_bytes(o)), (*self).3.wire_bytes(o));
                    assert((start@ + ((*self).0.wire_bytes(o) + (*self).1.wire_bytes(o) + (*self).2.wire_bytes(o))) + (*self).3.wire_bytes(o) =~= start@ + ((*self).0.wire_bytes(o) + (*self).1.wire_bytes(o) + (*self).2.wire_bytes(o) + (*self).3.wire_bytes(o)));
                    lemma_prefix_chain(dst@, start@ + ((*self).0.wire_bytes(o) + (*self).1.wire_bytes(o) + (*self).2.wire_bytes(o)), start@ + ((*self).0.wire_bytes(o) + (*self).1.wire_bytes(o) + (*self).2.wire_bytes(o) + (*self).3.wire_bytes(o)));
                }
                return Err(e);
            },
        }
        proof {
            assert(dst@ =~= start@ + ((*self).0.wire_bytes(o) + (*self).1.wire_bytes(o) + (*self).2.wire_bytes(o)));
        }
        let ghost d3 = *dst;
        match self.3.pack_to(o, dst) {
            Ok(_) => {},
            Err(e) => {
                proof {
                    lemma_prefix_of_append(start@, (*self).0.wire_bytes(o) + (*self).1.wire_bytes(o) + (*self).2.wire_bytes(o));
                    lemma_prefix_chain(start@, d3@, dst@);
                    assert(d3@ + (*self).3.wire_bytes(o) =~= start@ + ((*self).0.wire_bytes(o) + (*self).1.wire_bytes(o) + (*self).2.wire_bytes(o) + (*self).3.wire_bytes(o)));
                }
                return Err(e);
            },
        }
        proof {
            assert(dst@ =~= start@ + ((*self).0.wire_bytes(o) + (*self).1.wire_bytes(o) + (*self).2.wire_bytes(o) + (*self).3.wire_bytes(o)));
        }
        Ok(())
    }
}

impl<T1: PackTo, T2: PackTo, T3: PackTo, T4: PackTo, T5: PackTo> PackTo for (T1, T2, T3, T4, T5) {
    open spec fn wire_width(self) -> nat {
        self.0.wire_width() + self.1.wire_width() + self.2.wire_width() + self.3.wire_width() + self.4.wire_width()
    }

    open spec fn wire_bytes(self, o: ByteOrder) -> Seq<u8> {
        self.0.wire_bytes(o) + self.1.wire_bytes(o) + self.2.wire_bytes(o) + self.3.wire_bytes(o) + self.4.wire_bytes(o)
    }

    proof fn lemma_wire_width(self, o: ByteOrder) {
        self.0.lemma_wire_width(o);
        self.1.lemma_wire_width(o);
        self.2.lemma_wire_width(o);
        self.3.lemma_wire_width(o);
        self.4.lemma_wire_width(o);
    }

    #[verifier::spinoff_prover]
    #[verifier::rlimit(100)]
    fn pack_to(&self, o: ByteOrder, dst: &mut Sink) -> (r: Result<(), PackError>) {
        let ghost start = *dst;
        let ghost d0 = *dst;
        match self.0.pack_to(o, dst) {
            Ok(_) => {},
            Err(e) => {
                proof {
                    lemma_prefix_chain(start@, d0@, dst@);
                    assert(d0@ + (*self).0.wire_bytes(o) =~= start@ + ((*self).0.wire_bytes(o)));
                    lemma_prefix_of_append(start@ + ((*self).0.wire_bytes(o)), (*self).1.wire_bytes(o));
                    assert((start@ + ((*self).0.wire_bytes(o))) + (*self).1.wire_bytes(o) =~= start@ + ((*self).0.wire_bytes(o) + (*self).1.wire_bytes(o)));
                    lemma_prefix_chain(dst@, start@ + ((*self).0.wire_bytes(o)), start@ + ((*self).0.wire_bytes(o) + (*self).1.wire_bytes(o)));
                    lemma_prefix_of_append(start@ + ((*self).0.wire_bytes(o) + (*self).1.wire_bytes(o)), (*self).2.wire_bytes(o));
                    assert((start@ + ((*self).0.wire_bytes(o) + (*self).1.wire_bytes(o))) + (*self).2.wire_bytes(o) =~= start@ + ((*self).0.wire_bytes(o) + (*self).1.wire_bytes(o) + (*self).2.wire_bytes(o)));
                    lemma_prefix_chain(dst@, start@ + ((*self).0.wire_bytes(o) + (*self).1.wire_bytes(o)), start@ + ((*self).0.wire_bytes(o) + (*self).1.wire_bytes(o) + (*self).2.wire_bytes(o)));
                    lemma_prefix_of_append(start@ + ((*self).0.wire_bytes(o) + (*self).1.wire_bytes(o) + (*self).2.wire_bytes(o)), (*self).3.wire_bytes(o));
                    assert((start@ + ((*self).0.wire_bytes(o) + (*self).1.wire_bytes(o) + (*self).2.wire_bytes(o))) + (*self).3.wire_bytes(o) =~= start@ + ((*self).0.wire_bytes(o) + (*self).1.wire_bytes(o) + (*self).2.wire_bytes(o) + (*self).3.wire_bytes(o)));
                    lemma_prefix_chain(dst@, start@ + ((*self).0.wire_bytes(o) + (*self).1.wire_bytes(o) + (*self).2.wire_bytes(o)), start@ + ((*self).0.wire_bytes(o) + (*self).1.wire_bytes(o) + (*self).2.wire_bytes(o) + (*self).3.wire_bytes(o)));
                    lemma_prefix_of_append(start@ + ((*self).0.wire_bytes(o) + (*self).1.wire_bytes(o) + (*self).2.wire_bytes(o) + (*self).3.wire_bytes(o)), (*self).4.wire_bytes(o));
                    assert((start@ + ((*self).0.wire_bytes(o) + (*self).1.wire_bytes(o) + (*self).2.wire_bytes(o) + (*self).3.wire_bytes(o))) + (*self).4.wire_bytes(o) =~= start@ + ((*self).0.wire_bytes(o) + (*self).1.wire_bytes(o) + (*self).2.wire_bytes(o) + (*self).3.wire_bytes(o) + (*self).4.wire_bytes(o)));
                    lemma_prefix_chain(dst@, start@ + ((*self).0.wire_bytes(o) + (*self).1.wire_bytes(o) + (*self).2.wire_bytes(o) + (*self).3.wire_bytes(o)), start@ + ((*self).0.wire_bytes(o) + (*self).1.wire_bytes(o) + (*self).2.wire_bytes(o) + (*self).3.wire_bytes(o) + (*self).4.wire_bytes(o)));
                }
                return Err(e);
            },
        }
        proof {
            assert(dst@ =~= start@ + ((*self).0.wire_bytes(o)));
        }
        let ghost d1 = *dst;
        match self.1.pack_to(o, dst) {
            Ok(_) => {},
            Err(e) => {
                proof {
                    lemma_prefix_of_append(start@, (*self).0.wire_bytes(o));
                    lemma_prefix_chain(start@, d1@, dst@);
                    assert(d1@ + (*self).1.wire_bytes(o) =~= start@ + ((*self).0.wire_bytes(o) + (*self).1.wire_bytes(o)));
                    lemma_prefix_of_append(start@ + ((*self).0.wire_bytes(o) + (*self).1.wire_bytes(o)), (*self).2.wire_bytes(o));
                    assert((start@ + ((*self).0.wire_bytes(o) + (*self).1.wire_bytes(o))) + (*self).2.wire_bytes(o) =~= start@ + ((*self).0.wire_bytes(o) + (*self).1.wire_bytes(o) + (*self).2.wire_bytes(o)));
                    lemma_prefix_chain(dst@, start@ + ((*self).0.wire_bytes(o) + (*self).1.wire_bytes(o)), start@ + ((*self).0.wire_bytes(o) + (*self).1.wire_bytes(o) + (*self).2.wire_bytes(o)));
                    lemma_prefix_of_append(start@ + ((*self).0.wire_bytes(o) + (*self).1.wire_bytes(o) + (*self).2.wire_bytes(o)), (*self).3.wire_bytes(o));
                    assert((start@ + ((*self).0.wire_bytes(o) + (*self).1.wire_bytes(o) + (*self).2.wire_bytes(o))) + (*self).3.wire_bytes(o) =~= start@ + ((*self).0.wire_bytes(o) + (*self).1.wire_bytes(o) + (*self).2.wire_bytes(o) + (*self).3.wire_bytes(o)));
                    lemma_prefix_chain(dst@, start@ + ((*self).0.wire_bytes(o) + (*self).1.wire_bytes(o) + (*self).2.wire_bytes(o)), start@ + ((*self).0.wire_bytes(o) + (*self).1.wire_bytes(o) + (*self).2.wire_bytes(o) + (*self).3.wire_bytes(o)));
                    lemma_prefix_of_append(start@ + ((*self).0.wire_bytes(o) + (*self).1.wire_bytes(o) + (*self).2.wire_bytes(o) + (*self).3.wire_bytes(o)), (*self).4.wire_bytes(o));
                    assert((start@ + ((*self).0.wire_bytes(o) + (*self).1.wire_bytes(o) + (*self).2.wire_bytes(o) + (*self).3.wire_bytes(o))) + (*self).4.wire_bytes(o) =~= start@ + ((*self).0.wire_bytes(o) + (*self).1.wire_bytes(o) + (*self).2.wire_bytes(o) + (*self).3.wire_bytes(o) + (*self).4.wire_bytes(o)));
                    lemma_prefix_chain(dst@, start@ + ((*self).0.wire_bytes(o) + (*self).1.wire_bytes(o) + (*self).2.wire_bytes(o) + (*self).3.wire_bytes(o)), start@ + ((*self).0.wire_bytes(o) + (*self).1.wire_bytes(o) + (*self).2.wire_bytes(o) + (*self).3.wire_bytes(o) + (*self).4.wire_bytes(o)));
                }
                return Err(e);
            },
        }
        proof {
            assert(dst@ =~= start@ + ((*self).0.wire_bytes(o) + (*self).1.wire_bytes(o)));
        }
        let ghost d2 = *dst;
        match self.2.pack_to(o, dst) {
            Ok(_) => {},
            Err(e) => {
                proof {
                    lemma_prefix_of_append(start@, (*self).0.wire_bytes(o) + (*self).1.wire_bytes(o));
                    lemma_prefix_chain(start@, d2@, dst@);
                    assert(d2@ + (*self).2.wire_bytes(o) =~= start@ + ((*self).0.wire_bytes(o) + (*self).1.wire_bytes(o) + (*self).2.wire_bytes(o)));
                    lemma_prefix_of_append(start@ + ((*self).0.wire_bytes(o) + (*self).1.wire_bytes(o) + (*self).2.wire_bytes(o)), (*self).3.wire_bytes(o));
                    assert((start@ + ((*self).0.wire_bytes(o) + (*self).1.wire_bytes(o) + (*self).2.wire_bytes(o))) + (*self).3.wire_bytes(o) =~= start@ + ((*self).0.wire_bytes(o) + (*self).1.wire_bytes(o) + (*self).2.wire_bytes(o) + (*self).3.wire_bytes(o)));
                    lemma_prefix_chain(dst@, start@ + ((*self).0.wire_bytes(o) + (*self).1.wire_bytes(o) + (*self).2.wire_bytes(o)), start@ + ((*self).0.wire_bytes(o) + (*self).1.wire_bytes(o) + (*self).2.wire_bytes(o) + (*self).3.wire_bytes(o)));
                    lemma_prefix_of_append(start@ + ((*self).0.wire_bytes(o) + (*self).1.wire_bytes(o) + (*self).2.wire_bytes(o) + (*self).3.wire_bytes(o)), (*self).4.wire_bytes(o));
                    assert((start@ + ((*self).0.wire_bytes(o) + (*self).1.wire_bytes(o) + (*self).2.wire_bytes(o) + (*self).3.wire_bytes(o))) + (*self).4.wire_bytes(o) =~= start@ + ((*self).0.wire_bytes(o) + (*self).1.wire_bytes(o) + (*self).2.wire_bytes(o) + (*self).3.wire_bytes(o) + (*self).4.wire_bytes(o)));
                    lemma_prefix_chain(dst@, start@ + ((*self).0.wire_bytes(o) + (*self).1.wire_bytes(o) + (*self).2.wire_bytes(o) + (*self).3.wire_bytes(o)), start@ + ((*self).0.wire_bytes(o) + (*self).1.wire_bytes(o) + (*self).2.wire_bytes(o) + (*self).3.wire_bytes(o) + (*self).4.wire_bytes(o)));
                }
                return Err(e);
            },
        }
        proof {
            assert(dst@ =~= start@ + ((*self).0.wire_bytes(o) + (*self).1.wire_bytes(o) + (*self).2.wire_bytes(o)));
        }
        let ghost d3 = *dst;
        match self.3.pack_to(o, dst) {
            Ok(_) => {},
            Err(e) => {
                proof {
                    lemma_prefix_of_append(start@, (*self).0.wire_bytes(o) + (*self).1.wire_bytes(o) + (*self).2.wire_bytes(o));
                    lemma_prefix_chain(start@, d3@, dst@);
                    assert(d3@ + (*self).3.wire_bytes(o) =~= start@ + ((*self).0.wire_bytes(o) + (*self).1.wire_bytes(o) + (*self).2.wire_bytes(o) + (*self).3.wire_bytes(o)));
                    lemma_prefix_of_append(start@ + ((*self).0.wire_bytes(o) + (*self).1.wire_bytes(o) + (*self).2.wire_bytes(o) + (*self).3.wire_bytes(o)), (*self).4.wire_bytes(o));
                    assert((start@ + ((*self).0.wire_bytes(o) + (*self).1.wire_bytes(o) + (*self).2.wire_bytes(o) + (*self).3.wire_bytes(o))) + (*self).4.wire_bytes(o) =~= start@ + ((*self).0.wire_bytes(o) + (*self).1.wire_bytes(o) + (*self).2.wire_bytes(o) + (*self).3.wire_bytes(o) + (*self).4.wire_bytes(o)));
                    lemma_prefix_chain(dst@, start@ + ((*self).0.wire_bytes(o) + (*self).1.wire_bytes(o) + (*self).2.wire_bytes(o) + (*self).3.wire_bytes(o)), start@ + ((*self).0.wire_bytes(o) + (*self).1.wire_bytes(o) + (*self).2.wire_bytes(o) + (*self).3.wire_bytes(o) + (*self).4.wire_bytes(o)));
                }
                return Err(e);
            },
        }
        proof {
            assert(dst@ =~= start@ + ((*self).0.wire_bytes(o) + (*self).1.wire_bytes(o) + (*self).2.wire_bytes(o) + (*self).3.wire_bytes(o)));
        }
        let ghost d4 = *dst;
        match self.4.pack_to(o, dst) {
            Ok(_) => {},
            Err(e) => {
                proof {
                    lemma_prefix_of_append(start@, (*self).0.wire_bytes(o) + (*self).1.wire_bytes(o) + (*self).2.wire_bytes(o) + (*self).3.wire_bytes(o));
                    lemma_prefix_chain(start@, d4@, dst@);
                    assert(d4@ + (*self).4.wire_bytes(o) =~= start@ + ((*self).0.wire_bytes(o) + (*self).1.wire_bytes(o) + (*self).2.wire_bytes(o) + (*self).3.wire_bytes(o) + (*self).4.wire_bytes(o)));
                }
                return Err(e);
            },
        }
        proof {
            assert(dst@ =~= start@ + ((*self).0.wire_bytes(o) + (*self).1.wire_bytes(o) + (*self).2.wire_bytes(o) + (*self).3.wire_bytes(o) + (*self).4.wire_bytes(o)));
        }
        Ok(())
    }
}

impl<T1: PackTo, T2: PackTo, T3: PackTo, T4: PackTo, T5: PackTo, T6: PackTo> PackTo for (T1, T2, T3, T4, T5, T6) {
    open spec fn wire_width(self) -> nat {
        self.0.wire_width() + self.1.wire_width() + self.2.wire_width() + self.3.wire_width() + self.4.wire_width() + self.5.wire_width()
    }

    open spec fn wire_bytes(self, o: ByteOrder) -> Seq<u8> {
        self.0.wire_bytes(o) + self.1.wire_bytes(o) + self.2.wire_bytes(o) + self.3.wire_bytes(o) + self.4.wire_bytes(o) + self.5.wire_bytes(o)
    }

    proof fn lemma_wire_width(self, o: ByteOrder) {
        self.0.lemma_wire_width(o);
        self.1.lemma_wire_width(o);
        self.2.lemma_wire_width(o);
        self.3.lemma_wire_width(o);
        self.4.lemma_wire_width(o);
        self.5.lemma_wire_width(o);
    }

    #[verifier::spinoff_prover]
    #[verifier::rlimit(100)]
    fn pack_to(&self, o: ByteOrder, dst: &mut Sink) -> (r: Result<(), PackError>) {
        let ghost start = *dst;
        let ghost d0 = *dst;
        match self.0.pack_to(o, dst) {
            Ok(_) => {},
            Err(e) => {
                proof {
                    lemma_prefix_chain(start@, d0@, dst@);
                    assert(d0@ + (*self).0.wire_bytes(o) =~= start@ + ((*self).0.wire_bytes(o)));
                    lemma_prefix_of_append(start@ + ((*self).0.wire_bytes(o)), (*self).1.wire_bytes(o));
                    assert((start@ + ((*self).0.wire_bytes(o))) + (*self).1.wire_bytes(o) =~= start@ + ((*self).0.wire_bytes(o) + (*self).1.wire_bytes(o)));
                    lemma_prefix_chain(dst@, start@ + ((*self).0.wire_bytes(o)), start@ + ((*self).0.wire_bytes(o) + (*self).1.wire_bytes(o)));
                    lemma_prefix_of_append(start@ + ((*self).0.wire_bytes(o) + (*self).1.wire_bytes(o)), (*self).2.wire_bytes(o));
                    assert((start@ + ((*self).0.wire_bytes(o) + (*self).1.wire_bytes(o))) + (*self).2.wire_bytes(o) =~= start@ + ((*self).0.wire_bytes(o) + (*self).1.wire_bytes(o) + (*self).2.wire_bytes(o)));
                    lemma_prefix_chain(dst@, start@ + ((*self).0.wire_bytes(o) + (*self).1.wire_bytes(o)), start@ + ((*self).0.wire_bytes(o) + (*self).1.wire_bytes(o) + (*self).2.wire_bytes(o)));
                    lemma_prefix_of_append(start@ + ((*self).0.wire_bytes(o) + (*self).1.wire_bytes(o) + (*self).2.wire_bytes(o)), (*self).3.wire_bytes(o));
                    assert((start@ + ((*self).0.wire_bytes(o) + (*self).1.wire_bytes(o) + (*self).2.wire_bytes(o))) + (*self).3.wire_bytes(o) =~= start@ + ((*self).0.wire_bytes(o) + (*self).1.wire_bytes(o) + (*self).2.wire_bytes(o) + (*self).3.wire_bytes(o)));
                    lemma_prefix_chain(dst@, start@ + ((*self).0.wire_bytes(o) + (*self).1.wire_bytes(o) + (*self).2.wire_bytes(o)), start@ + ((*self).0.wire_bytes(o) + (*self).1.wire_bytes(o) + (*self).2.wire_bytes(o) + (*self).3.wire_bytes(o)));
                    lemma_prefix_of_append(start@ + ((*self).0.wire_bytes(o) + (*self).1.wire_bytes(o) + (*self).2.wire_bytes(o) + (*self).3.wire_bytes(o)), (*self).4.wire_bytes(o));
                    assert((start@ + ((*self).0.wire_bytes(o) + (*self).1.wire_bytes(o) + (*self).2.wire_bytes(o) + (*self).3.wire_bytes(o))) + (*self).4.wire_bytes(o) =~= start@ + ((*self).0.wire_bytes(o) + (*self).1.wire_bytes(o) + (*self).2.wire_bytes(o) + (*self).3.wire_bytes(o) + (*self).4.wire_bytes(o)));
                    lemma_prefix_chain(dst@, start@ + ((*self).0.wire_bytes(o) + (*self).1.wire_bytes(o) + (*self).2.wire_bytes(o) + (*self).3.wire_bytes(o)), start@ + ((*self).0.wire_bytes(o) + (*self).1.wire_bytes(o) + (*self).2.wire_bytes(o) + (*self).3.wire_bytes(o) + (*self).4.wire_bytes(o)));
                    lemma_prefix_of_append(start@ + ((*self).0.wire_bytes(o) + (*self).1.wire_bytes(o) + (*self).2.wire_bytes(o) + (*self).3.wire_bytes(o) + (*self).4.wire_bytes(o)), (*self).5.wire_bytes(o));
                    assert((start@ + ((*self).0.wire_bytes(o) + (*self).1.wire_bytes(o) + (*self).2.wire_bytes(o) + (*self).3.wire_bytes(o) + (*self).4.wire_bytes(o))) + (*self).5.wire_bytes(o) =~= start@ + ((*self).0.wire_bytes(o) + (*self).1.wire_bytes(o) + (*self).2.wire_bytes(o) + (*self).3.wire_bytes(o) + (*self).4.wire_bytes(o) + (*self).5.wire_bytes(o)));
                    lemma_prefix_chain(dst@, start@ + ((*self).0.wire_bytes(o) + (*self).1.wire_bytes(o) + (*self).2.wire_bytes(o) + (*self).3.wire_bytes(o) + (*self).4.wire_bytes(o)), start@ + ((*self).0.wire_bytes(o) + (*self).1.wire_bytes(o) + (*self).2.wire_bytes(o) + (*self).3.wire_bytes(o) + (*self).4.wire_bytes(o) + (*self).5.wire_bytes(o)));
                }
                return Err(e);
            },
        }
        proof {
            assert(dst@ =~= start@ + ((*self).0.wire_bytes(o)));
        }
        let ghost d1 = *dst;
        match self.1.pack_to(o, dst) {
            Ok(_) => {},
            Err(e) => {
                proof {
                    lemma_prefix_of_append(start@, (*self).0.wire_bytes(o));
                    lemma_prefix_chain(start@, d1@, dst@);
                    assert(d1@ + (*self).1.wire_bytes(o) =~= start@ + ((*self).0.wire_bytes(o) + (*self).1.wire_bytes(o)));
                    lemma_prefix_of_append(start@ + ((*self).0.wire_bytes(o) + (*self).1.wire_bytes(o)), (*self).2.wire_bytes(o));
                    assert((start@ + ((*self).0.wire_bytes(o) + (*self).1.wire_bytes(o))) + (*self).2.wire_bytes(o) =~= start@ + ((*self).0.wire_bytes(o) + (*self).1.wire_bytes(o) + (*self).2.wire_bytes(o)));
                    lemma_prefix_chain(dst@, start@ + ((*self).0.wire_bytes(o) + (*self).1.wire_bytes(o)), start@ + ((*self).0.wire_bytes(o) + (*self).1.wire_bytes(o) + (*self).2.wire_bytes(o)));
                    lemma_prefix_of_append(start@ + ((*self).0.wire_bytes(o) + (*self).1.wire_bytes(o) + (*self).2.wire_bytes(o)), (*self).3.wire_bytes(o));
                    assert((start@ + ((*self).0.wire_bytes(o) + (*self).1.wire_bytes(o) + (*self).2.wire_bytes(o))) + (*self).3.wire_bytes(o) =~= start@ + ((*self).0.wire_bytes(o) + (*self).1.wire_bytes(o) + (*self).2.wire_bytes(o) + (*self).3.wire_bytes(o)));
                    lemma_prefix_chain(dst@, start@ + ((*self).0.wire_bytes(o) + (*self).1.wire_bytes(o) + (*self).2.wire_bytes(o)), start@ + ((*self).0.wire_bytes(o) + (*self).1.wire_bytes(o) + (*self).2.wire_bytes(o) + (*self).3.wire_bytes(o)));
                    lemma_prefix_of_append(start@ + ((*self).0.wire_bytes(o) + (*self).1.wire_bytes(o) + (*self).2.wire_bytes(o) + (*self).3.wire_bytes(o)), (*self).4.wire_bytes(o));
                    assert((start@ + ((*self).0.wire_bytes(o) + (*self).1.wire_bytes(o) + (*self).2.wire_bytes(o) + (*self).3.wire_bytes(o))) + (*self).4.wire_bytes(o) =~= start@ + ((*self).0.wire_bytes(o) + (*self).1.wire_bytes(o) + (*self).2.wire_bytes(o) + (*self).3.wire_bytes(o) + (*self).4.wire_bytes(o)));
                    lemma_prefix_chain(dst@, start@ + ((*self).0.wire_bytes(o) + (*self).1.wire_bytes(o) + (*self).2.wire_bytes(o) + (*self).3.wire_bytes(o)), start@ + ((*self).0.wire_bytes(o) + (*self).1.wire_bytes(o) + (*self).2.wire_bytes(o) + (*self).3.wire_bytes(o) + (*self).4.wire_bytes(o)));
                    lemma_prefix_of_append(start@ + ((*self).0.wire_bytes(o) + (*self).1.wire_bytes(o) + (*self).2.wire_bytes(o) + (*self).3.wire_bytes(o) + (*self).4.wire_bytes(o)), (*self).5.wire_bytes(o));
                    assert((start@ + ((*self).0.wire_bytes(o) + (*self).1.wire_bytes(o) + (*self).2.wire_bytes(o) + (*self).3.wire_bytes(o) + (*self).4.wire_bytes(o))) + (*self).5.wire_bytes(o) =~= start@ + ((*self).0.wire_bytes(o) + (*self).1.wire_bytes(o) + (*self).2.wire_bytes(o) + (*self).3.wire_bytes(o) + (*self).4.wire_bytes(o) + (*self).5.wire_bytes(o)));
                    lemma_prefix_chain(dst@, start@ + ((*self).0.wire_bytes(o) + (*self).1.wire_bytes(o) + (*self).2.wire_bytes(o) + (*self).3.wire_bytes(o) + (*self).4.wire_bytes(o)), start@ + ((*self).0.wire_bytes(o) + (*self).1.wire_bytes(o) + (*self).2.wire_bytes(o) + (*self).3.wire_bytes(o) + (*self).4.wire_bytes(o) + (*self).5.wire_bytes(o)));
                }
                return Err(e);
            },
        }
        proof {
            assert(dst@ =~= start@ + ((*self).0.wire_bytes(o) + (*self).1.wire_bytes(o)));
        }
        let ghost d2 = *dst;
        match self.2.pack_to(o, dst) {
            Ok(_) => {},
            Err(e) => {
                proof {
                    lemma_prefix_of_append(start@, (*self).0.wire_bytes(o) + (*self).1.wire_bytes(o));
                    lemma_prefix_chain(start@, d2@, dst@);
                    assert(d2@ + (*self).2.wire_bytes(o) =~= start@ + ((*self).0.wire_bytes(o) + (*self).1.wire_bytes(o) + (*self).2.wire_bytes(o)));
                    lemma_prefix_of_append(start@ + ((*self).0.wire_bytes(o) + (*self).1.wire_bytes(o) + (*self).2.wire_bytes(o)), (*self).3.wire_bytes(o));
                    assert((start@ + ((*self).0.wire_bytes(o) + (*self).1.wire_bytes(o) + (*self).2.wire_bytes(o))) + (*self).3.wire_bytes(o) =~= start@ + ((*self).0.wire_bytes(o) + (*self).1.wire_bytes(o) + (*self).2.wire_bytes(o) + (*self).3.wire_bytes(o)));
                    lemma_prefix_chain(dst@, start@ + ((*self).0.wire_bytes(o) + (*self).1.wire_bytes(o) + (*self).2.wire_bytes(o)), start@ + ((*self).0.wire_bytes(o) + (*self).1.wire_bytes(o) + (*self).2.wire_bytes(o) + (*self).3.wire_bytes(o)));
                    lemma_prefix_of_append(start@ + ((*self).0.wire_bytes(o) + (*self).1.wire_bytes(o) + (*self).2.wire_bytes(o) + (*self).3.wire_bytes(o)), (*self).4.wire_bytes(o));
                    assert((start@ + ((*self).0.wire_bytes(o) + (*self).1.wire_bytes(o) + (*self).2.wire_bytes(o) + (*self).3.wire_bytes(o))) + (*self).4.wire_bytes(o) =~= start@ + ((*self).0.wire_bytes(o) + (*self).1.wire_bytes(o) + (*self).2.wire_bytes(o) + (*self).3.wire_bytes(o) + (*self).4.wire_bytes(o)));
                    lemma_prefix_chain(dst@, start@ + ((*self).0.wire_bytes(o) + (*self).1.wire_bytes(o) + (*self).2.wire_bytes(o) + (*self).3.wire_bytes(o)), start@ + ((*self).0.wire_bytes(o) + (*self).1.wire_bytes(o) + (*self).2.wire_bytes(o) + (*self).3.wire_bytes(o) + (*self).4.wire_bytes(o)));
                    lemma_prefix_of_append(start@ + ((*self).0.wire_bytes(o) + (*self).1.wire_bytes(o) + (*self).2.wire_bytes(o) + (*self).3.wire_bytes(o) + (*self).4.wire_bytes(o)), (*self).5.wire_bytes(o));
                    assert((start@ + ((*self).0.wire_bytes(o) + (*self).1.wire_bytes(o) + (*self).2.wire_bytes(o) + (*self).3.wire_bytes(o) + (*self).4.wire_bytes(o))) + (*self).5.wire_bytes(o) =~= start@ + ((*self).0.wire_bytes(o) + (*self).1.wire_bytes(o) + (*self).2.wire_bytes(o) + (*self).3.wire_bytes(o) + (*self).4.wire_bytes(o) + (*self).5.wire_bytes(o)));
                    lemma_prefix_chain(dst@, start@ + ((*self).0.wire_bytes(o) + (*self).1.wire_bytes(o) + (*self).2.wire_bytes(o) + (*self).3.wire_bytes(o) + (*self).4.wire_bytes(o)), start@ + ((*self).0.wire_bytes(o) + (*self).1.wire_bytes(o) + (*self).2.wire_bytes(o) + (*self).3.wire_bytes(o) + (*self).4.wire_bytes(o) + (*self).5.wire_bytes(o)));
                }
                return Err(e);
            },
        }
        proof {
            assert(dst@ =~= start@ + ((*self).0.wire_bytes(o) + (*self).1.wire_bytes(o) + (*self).2.wire_bytes(o)));
        }
        let ghost d3 = *dst;
        match self.3.pack_to(o, dst) {
            Ok(_) => {},
            Err(e) => {
                proof {
                    lemma_prefix_of_append(start@, (*self).0.wire_bytes(o) + (*self).1.wire_bytes(o) + (*self).2.wire_bytes(o));
                    lemma_prefix_chain(start@, d3@, dst@);
                    assert(d3@ + (*self).3.wire_bytes(o) =~= start@ + ((*self).0.wire_bytes(o) + (*self).1.wire_bytes(o) + (*self).2.wire_bytes(o) + (*self).3.wire_bytes(o)));
                    lemma_prefix_of_append(start@ + ((*self).0.wire_bytes(o) + (*self).1.wire_bytes(o) + (*self).2.wire_bytes(o) + (*self).3.wire_bytes(o)), (*self).4.wire_bytes(o));
                    assert((start@ + ((*self).0.wire_bytes(o) + (*self).1.wire_bytes(o) + (*self).2.wire_bytes(o) + (*self).3.wire_bytes(o))) + (*self).4.wire_bytes(o) =~= start@ + ((*self).0.wire_bytes(o) + (*self).1.wire_bytes(o) + (*self).2.wire_bytes(o) + (*self).3.wire_bytes(o) + (*self).4.wire_bytes(o)));
                    lemma_prefix_chain(dst@, start@ + ((*self).0.wire_bytes(o) + (*self).1.wire_bytes(o) + (*self).2.wire_bytes(o) + (*self).3.wire_bytes(o)), start@ + ((*self).0.wire_bytes(o) + (*self).1.wire_bytes(o) + (*self).2.wire_bytes(o) + (*self).3.wire_bytes(o) + (*self).4.wire_bytes(o)));
                    lemma_prefix_of_append(start@ + ((*self).0.wire_bytes(o) + (*self).1.wire_bytes(o) + (*self).2.wire_bytes(o) + (*self).3.wire_bytes(o) + (*self).4.wire_bytes(o)), (*self).5.wire_bytes(o));
                    assert((start@ + ((*self).0.wire_bytes(o) + (*self).1.wire_bytes(o) + (*self).2.wire_bytes(o) + (*self).3.wire_bytes(o) + (*self).4.wire_bytes(o))) + (*self).5.wire_bytes(o) =~= start@ + ((*self).0.wire_bytes(o) + (*self).1.wire_bytes(o) + (*self).2.wire_bytes(o) + (*self).3.wire_bytes(o) + (*self).4.wire_bytes(o) + (*self).5.wire_bytes(o)));
                    lemma_prefix_chain(dst@, start@ + ((*self).0.wire_bytes(o) + (*self).1.wire_bytes(o) + (*self).2.wire_bytes(o) + (*self).3.wire_bytes(o) + (*self).4.wire_bytes(o)), start@ + ((*self).0.wire_bytes(o) + (*self).1.wire_bytes(o) + (*self).2.wire_bytes(o) + (*self).3.wire_bytes(o) + (*self).4.wire_bytes(o) + (*self).5.wire_bytes(o)));
                }
                return Err(e);
            },
        }
        proof {
            assert(dst@ =~= start@ + ((*self).0.wire_bytes(o) + (*self).1.wire_bytes(o) + (*self).2.wire_bytes(o) + (*self).3.wire_bytes(o)));
        }
        let ghost d4 = *dst;
        match self.4.pack_to(o, dst) {
            Ok(_) => {},
            Err(e) => {
                proof {
                    lemma_prefix_of_append(start@, (*self).0.wire_bytes(o) + (*self).1.wire_bytes(o) + (*self).2.wire_bytes(o) + (*self).3.wire_bytes(o));
                    lemma_prefix_chain(start@, d4@, dst@);
                    assert(d4@ + (*self).4.wire_bytes(o) =~= start@ + ((*self).0.wire_bytes(o) + (*self).1.wire_bytes(o) + (*self).2.wire_bytes(o) + (*self).3.wire_bytes(o) + (*self).4.wire_bytes(o)));
                    lemma_prefix_of_append(start@ + ((*self).0.wire_bytes(o) + (*self).1.wire_bytes(o) + (*self).2.wire_bytes(o) + (*self).3.wire_bytes(o) + (*self).4.wire_bytes(o)), (*self).5.wire_bytes(o));
                    assert((start@ + ((*self).0.wire_bytes(o) + (*self).1.wire_bytes(o) + (*self).2.wire_bytes(o) + (*self).3.wire_bytes(o) + (*self).4.wire_bytes(o))) + (*self).5.wire_bytes(o) =~= start@ + ((*self).0.wire_bytes(o) + (*self).1.wire_bytes(o) + (*self).2.wire_bytes(o) + (*self).3.wire_bytes(o) + (*self).4.wire_bytes(o) + (*self).5.wire_bytes(o)));
                    lemma_prefix_chain(dst@, start@ + ((*self).0.wire_bytes(o) + (*self).1.wire_bytes(o) + (*self).2.wire_bytes(o) + (*self).3.wire_bytes(o) + (*self).4.wire_bytes(o)), start@ + ((*self).0.wire_bytes(o) + (*self).1.wire_bytes(o) + (*self).2.wire_bytes(o) + (*self).3.wire_bytes(o) + (*self).4.wire_bytes(o) + (*self).5.wire_bytes(o)));
                }
                return Err(e);
            },
        }
        proof {
            assert(dst@ =~= start@ + ((*self).0.wire_bytes(o) + (*self).1.wire_bytes(o) + (*self).2.wire_bytes(o) + (*self).3.wire_bytes(o) + (*self).4.wire_bytes(o)));
        }
        let ghost d5 = *dst;
        match self.5.pack_to(o, dst) {
            Ok(_) => {},
            Err(e) => {
                proof {
                    lemma_prefix_of_append(start@, (*self).0.wire_bytes(o) + (*self).1.wire_bytes(o) + (*self).2.wire_bytes(o) + (*self).3.wire_bytes(o) + (*self).4.wire_bytes(o));
                    lemma_prefix_chain(start@, d5@, dst@);
                    assert(d5@ + (*self).5.wire_bytes(o) =~= start@ + ((*self).0.wire_bytes(o) + (*self).1.wire_bytes(o) + (*self).2.wire_bytes(o) + (*self).3.wire_bytes(o) + (*self).4.wire_bytes(o) + (*self).5.wire_bytes(o)));
                }
                return Err(e);
            },
        }
        proof {
            assert(dst@ =~= start@ + ((*self).0.wire_bytes(o) + (*self).1.wire_bytes(o) + (*self).2.wire_bytes(o) + (*self).3.wire_bytes(o) + (*self).4.wire_bytes(o) + (*self).5.wire_bytes(o)));
        }
        Ok(())
    }
}

impl<T1: PackTo, T2: PackTo, T3: PackTo, T4: PackTo, T5: PackTo, T6: PackTo, T7: PackTo> PackTo for (T1, T2, T3, T4, T5, T6, T7) {
    open spec fn wire_width(self) -> nat {
        self.0.wire_width() + self.1.wire_width() + self.2.wire_width() + self.3.wire_width() + self.4.wire_width() + self.5.wire_width() + self.6.wire_width()
    }

    open spec fn wire_bytes(self, o: ByteOrder) -> Seq<u8> {
        self.0.wire_bytes(o) + self.1.wire_bytes(o) + self.2.wire_bytes(o) + self.3.wire_bytes(o) + self.4.wire_bytes(o) + self.5.wire_bytes(o) + self.6.wire_bytes(o)
    }

    proof fn lemma_wire_width(self, o: ByteOrder) {
        self.0.lemma_wire_width(o);
        self.1.lemma_wire_width(o);
        self.2.lemma_wire_width(o);
        self.3.lemma_wire_width(o);
        self.4.lemma_wire_width(o);
        self.5.lemma_wire_width(o);
        self.6.lemma_wire_width(o);
    }

    #[verifier::spinoff_prover]
    #[verifier::rlimit(100)]
    fn pack_to(&self, o: ByteOrder, dst: &mut Sink) -> (r: Result<(), PackError>) {
        let ghost start = *dst;
        let ghost d0 = *dst;
        match self.0.pack_to(o, dst) {
            Ok(_) => {},
            Err(e) => {
                proof {
                    lemma_prefix_chain(start@, d0@, dst@);
                    assert(d0@ + (*self).0.wire_bytes(o) =~= start@ + ((*self).0.wire_bytes(o)));
                    lemma_prefix_of_append(start@ + ((*self).0.wire_bytes(o)), (*self).1.wire_bytes(o));
                    assert((start@ + ((*self).0.wire_bytes(o))) + (*self).1.wire_bytes(o) =~= start@ + ((*self).0.wire_bytes(o) + (*self).1.wire_bytes(o)));
                    lemma_prefix_chain(dst@, start@ + ((*self).0.wire_bytes(o)), start@ + ((*self).0.wire_bytes(o) + (*self).1.wire_bytes(o)));
                    lemma_prefix_of_append(start@ + ((*self).0.wire_bytes(o) + (*self).1.wire_bytes(o)), (*self).2.wire_bytes(o));
                    assert((start@ + ((*self).0.wire_bytes(o) + (*self).1.wire_bytes(o))) + (*self).2.wire_bytes(o) =~= start@ + ((*self).0.wire_bytes(o) + (*self).1.wire_bytes(o) + (*self).2.wire_bytes(o)));
                    lemma_prefix_chain(dst@, start@ + ((*self).0.wire_bytes(o) + (*self).1.wire_bytes(o)), start@ + ((*self).0.wire_bytes(o) + (*self).1.wire_bytes(o) + (*self).2.wire_bytes(o)));
                    lemma_prefix_of_append(start@ + ((*self).0.wire_bytes(o) + (*self).1.wire_bytes(o) + (*self).2.wire_bytes(o)), (*self).3.wire_bytes(o));
                    assert((start@ + ((*self).0.wire_bytes(o) + (*self).1.wire_bytes(o) + (*self).2.wire_bytes(o))) + (*self).3.wire_bytes(o) =~= start@ + ((*self).0.wire_bytes(o) + (*self).1.wire_bytes(o) + (*self).2.wire_bytes(o) + (*self).3.wire_bytes(o)));
                    lemma_prefix_chain(dst@, start@ + ((*self).0.wire_bytes(o) + (*self).1.wire_bytes(o) + (*self).2.wire_bytes(o)), start@ + ((*self).0.wire_bytes(o) + (*self).1.wire_bytes(o) + (*self).2.wire_bytes(o) + (*self).3.wire_bytes(o)));
                    lemma_prefix_of_append(start@ + ((*self).0.wire_bytes(o) + (*self).1.wire_bytes(o) + (*self).2.wire_bytes(o) + (*self).3.wire_bytes(o)), (*self).4.wire_bytes(o));
                    assert((start@ + ((*self).0.wire_bytes(o) + (*self).1.wire_bytes(o) + (*self).2.wire_bytes(o) + (*self).3.wire_bytes(o))) + (*self).4.wire_bytes(o) =~= start@ + ((*self).0.wire_bytes(o) + (*self).1.wire_bytes(o) + (*self).2.wire_bytes(o) + (*self).3.wire_bytes(o) + (*self).4.wire_bytes(o)));
                    lemma_prefix_chain(dst@, start@ + ((*self).0.wire_bytes(o) + (*self).1.wire_bytes(o) + (*self).2.wire_bytes(o) + (*self).3.wire_bytes(o)), start@ + ((*self).0.wire_bytes(o) + (*self).1.wire_bytes(o) + (*self).2.wire_bytes(o) + (*self).3.wire_bytes(o) + (*self).4.wire_bytes(o)));
                    lemma_prefix_of_append(start@ + ((*self).0.wire_bytes(o) + (*self).1.wire_bytes(o) + (*self).2.wire_bytes(o) + (*self).3.wire_bytes(o) + (*self).4.wire_bytes(o)), (*self).5.wire_bytes(o));
                    assert((start@ + ((*self).0.wire_bytes(o) + (*self).1.wire_bytes(o) + (*self).2.wire_bytes(o) + (*self).3.wire_bytes(o) + (*self).4.wire_bytes(o))) + (*self).5.wire_bytes(o) =~= start@ + ((*self).0.wire_bytes(o) + (*self).1.wire_bytes(o) + (*self).2.wire_bytes(o) + (*self).3.wire_bytes(o) + (*self).4.wire_bytes(o) + (*self).5.wire_bytes(o)));
                    lemma_prefix_chain(dst@, start@ + ((*self).0.wire_bytes(o) + (*self).1.wire_bytes(o) + (*self).2.wire_bytes(o) + (*self).3.wire_bytes(o) + (*self).4.wire_bytes(o)), start@ + ((*self).0.wire_bytes(o) + (*self).1.wire_bytes(o) + (*self).2.wire_bytes(o) + (*self).3.wire_bytes(o) + (*self).4.wire_bytes(o) + (*self).5.wire_bytes(o)));
                    lemma_prefix_of_append(start@ + ((*self).0.wire_bytes(o) + (*self).1.wire_bytes(o) + (*self).2.wire_bytes(o) + (*self).3.wire_bytes(o) + (*self).4.wire_bytes(o) + (*self).5.wire_bytes(o)), (*self).6.wire_bytes(o));
                    assert((start@ + ((*self).0.wire_bytes(o) + (*self).1.wire_bytes(o) + (*self).2.wire_bytes(o) + (*self).3.wire_bytes(o) + (*self).4.wire_bytes(o) + (*self).5.wire_bytes(o))) + (*self).6.wire_bytes(o) =~= start@ + ((*self).0.wire_bytes(o) + (*self).1.wire_bytes(o) + (*self).2.wire_bytes(o) + (*self).3.wire_bytes(o) + (*self).4.wire_bytes(o) + (*self).5.wire_bytes(o) + (*self).6.wire_bytes(o)));
                    lemma_prefix_chain(dst@, start@ + ((*self).0.wire_bytes(o) + (*self).1.wire_bytes(o) + (*self).2.wire_bytes(o) + (*self).3.wire_bytes(o) + (*self).4.wire_bytes(o) + (*self).5.wire_bytes(o)), start@ + ((*self).0.wire_bytes(o) + (*self).1.wire_bytes(o) + (*self).2.wire_bytes(o) + (*self).3.wire_bytes(o) + (*self).4.wire_bytes(o) + (*self).5.wire_bytes(o) + (*self).6.wire_bytes(o)));
                }
                return Err(e);
            },
        }
        proof {
            assert(dst@ =~= start@ + ((*self).0.wire_bytes(o)));
        }
        let ghost d1 = *dst;
        match self.1.pack_to(o, dst) {
            Ok(_) => {},
            Err(e) => {
                proof {
                    lemma_prefix_of_append(start@, (*self).0.wire_bytes(o));
                    lemma_prefix_chain(start@, d1@, dst@);
                    assert(d1@ + (*self).1.wire_bytes(o) =~= start@ + ((*self).0.wire_bytes(o) + (*self).1.wire_bytes(o)));
                    lemma_prefix_of_append(start@ + ((*self).0.wire_bytes(o) + (*self).1.wire_bytes(o)), (*self).2.wire_bytes(o));
                    assert((start@ + ((*self).0.wire_bytes(o) + (*self).1.wire_bytes(o))) + (*self).2.wire_bytes(o) =~= start@ + ((*self).0.wire_bytes(o) + (*self).1.wire_bytes(o) + (*self).2.wire_bytes(o)));
                    lemma_prefix_chain(dst@, start@ + ((*self).0.wire_bytes(o) + (*self).1.wire_bytes(o)), start@ + ((*self).0.wire_bytes(o) + (*self).1.wire_bytes(o) + (*self).2.wire_bytes(o)));
                    lemma_prefix_of_append(start@ + ((*self).0.wire_bytes(o) + (*self).1.wire_bytes(o) + (*self).2.wire_bytes(o)), (*self).3.wire_bytes(o));
                    assert((start@ + ((*self).0.wire_bytes(o) + (*self).1.wire_bytes(o) + (*self).2.wire_bytes(o))) + (*self).3.wire_bytes(o) =~= start@ + ((*self).0.wire_bytes(o) + (*self).1.wire_bytes(o) + (*self).2.wire_bytes(o) + (*self).3.wire_bytes(o)));
                    lemma_prefix_chain(dst@, start@ + ((*self).0.wire_bytes(o) + (*self).1.wire_bytes(o) + (*self).2.wire_bytes(o)), start@ + ((*self).0.wire_bytes(o) + (*self).1.wire_bytes(o) + (*self).2.wire_bytes(o) + (*self).3.wire_bytes(o)));
                    lemma_prefix_of_append(start@ + ((*self).0.wire_bytes(o) + (*self).1.wire_bytes(o) + (*self).2.wire_bytes(o) + (*self).3.wire_bytes(o)), (*self).4.wire_bytes(o));
                    assert((start@ + ((*self).0.wire_bytes(o) + (*self).1.wire_bytes(o) + (*self).2.wire_bytes(o) + (*self).3.wire_bytes(o))) + (*self).4.wire_bytes(o) =~= start@ + ((*self).0.wire_bytes(o) + (*self).1.wire_bytes(o) + (*self).2.wire_bytes(o) + (*self).3.wire_bytes(o) + (*self).4.wire_bytes(o)));
                    lemma_prefix_chain(dst@, start@ + ((*self).0.wire_bytes(o) + (*self).1.wire_bytes(o) + (*self).2.wire_bytes(o) + (*self).3.wire_bytes(o)), start@ + ((*self).0.wire_bytes(o) + (*self).1.wire_bytes(o) + (*self).2.wire_bytes(o) + (*self).3.wire_bytes(o) + (*self).4.wire_bytes(o)));
                    lemma_prefix_of_append(start@ + ((*self).0.wire_bytes(o) + (*self).1.wire_bytes(o) + (*self).2.wire_bytes(o) + (*self).3.wire_bytes(o) + (*self).4.wire_bytes(o)), (*self).5.wire_bytes(o));
                    assert((start@ + ((*self).0.wire_bytes(o) + (*self).1.wire_bytes(o) + (*self).2.wire_bytes(o) + (*self).3.wire_bytes(o) + (*self).4.wire_bytes(o))) + (*self).5.wire_bytes(o) =~= start@ + ((*self).0.wire_bytes(o) + (*self).1.wire_bytes(o) + (*self).2.wire_bytes(o) + (*self).3.wire_bytes(o) + (*self).4.wire_bytes(o) + (*self).5.wire_bytes(o)));
                    lemma_prefix_chain(dst@, start@ + ((*self).0.wire_bytes(o) + (*self).1.wire_bytes(o) + (*self).2.wire_bytes(o) + (*self).3.wire_bytes(o) + (*self).4.wire_bytes(o)), start@ + ((*self).0.wire_bytes(o) + (*self).1.wire_bytes(o) + (*self).2.wire_bytes(o) + (*self).3.wire_bytes(o) + (*self).4.wire_bytes(o) + (*self).5.wire_bytes(o)));
                    lemma_prefix_of_append(start@ + ((*self).0.wire_bytes(o) + (*self).1.wire_bytes(o) + (*self).2.wire_bytes(o) + (*self).3.wire_bytes(o) + (*self).4.wire_bytes(o) + (*self).5.wire_bytes(o)), (*self).6.wire_bytes(o));
                    assert((start@ + ((*self).0.wire_bytes(o) + (*self).1.wire_bytes(o) + (*self).2.wire_bytes(o) + (*self).3.wire_bytes(o) + (*self).4.wire_bytes(o) + (*self).5.wire_bytes(o))) + (*self).6.wire_bytes(o) =~= start@ + ((*self).0.wire_bytes(o) + (*self).1.wire_bytes(o) + (*self).2.wire_bytes(o) + (*self).3.wire_bytes(o) + (*self).4.wire_bytes(o) + (*self).5.wire_bytes(o) + (*self).6.wire_bytes(o)));
                    lemma_prefix_chain(dst@, start@ + ((*self).0.wire_bytes(o) + (*self).1.wire_bytes(o) + (*self).2.wire_bytes(o) + (*self).3.wire_bytes(o) + (*self).4.wire_bytes(o) + (*self).5.wire_bytes(o)), start@ + ((*self).0.wire_bytes(o) + (*self).1.wire_bytes(o) + (*self).2.wire_bytes(o) + (*self).3.wire_bytes(o) + (*self).4.wire_bytes(o) + (*self).5.wire_bytes(o) + (*self).6.wire_bytes(o)));
                }
                return Err(e);
            },
        }
        proof {
            assert(dst@ =~= start@ + ((*self).0.wire_bytes(o) + (*self).1.wire_bytes(o)));
        }
        let ghost d2 = *dst;
        match self.2.pack_to(o, dst) {
            Ok(_) => {},
            Err(e) => {
                proof {
                    lemma_prefix_of_append(start@, (*self).0.wire_bytes(o) + (*self).1.wire_bytes(o));
                    lemma_prefix_chain(start@, d2@, dst@);
                    assert(d2@ + (*self).2.wire_bytes(o) =~= start@ + ((*self).0.wire_bytes(o) + (*self).1.wire_bytes(o) + (*self).2.wire_bytes(o)));
                    lemma_prefix_of_append(start@ + ((*self).0.wire_bytes(o) + (*self).1.wire_bytes(o) + (*self).2.wire_bytes(o)), (*self).3.wire_bytes(o));
                    assert((start@ + ((*self).0.wire_bytes(o) + (*self).1.wire_bytes(o) + (*self).2.wire_bytes(o))) + (*self).3.wire_bytes(o) =~= start@ + ((*self).0.wire_bytes(o) + (*self).1.wire_bytes(o) + (*self).2.wire_bytes(o) + (*self).3.wire_bytes(o)));
                    lemma_prefix_chain(dst@, start@ + ((*self).0.wire_bytes(o) + (*self).1.wire_bytes(o) + (*self).2.wire_bytes(o)), start@ + ((*self).0.wire_bytes(o) + (*self).1.wire_bytes(o) + (*self).2.wire_bytes(o) + (*self).3.wire_bytes(o)));
                    lemma_prefix_of_append(start@ + ((*self).0.wire_bytes(o) + (*self).1.wire_bytes(o) + (*self).2.wire_bytes(o) + (*self).3.wire_bytes(o)), (*self).4.wire_bytes(o));
                    assert((start@ + ((*self).0.wire_bytes(o) + (*self).1.wire_bytes(o) + (*self).2.wire_bytes(o) + (*self).3.wire_bytes(o))) + (*self).4.wire_bytes(o) =~= start@ + ((*self).0.wire_bytes(o) + (*self).1.wire_bytes(o) + (*self).2.wire_bytes(o) + (*self).3.wire_bytes(o) + (*self).4.wire_bytes(o)));
                    lemma_prefix_chain(dst@, start@ + ((*self).0.wire_bytes(o) + (*self).1.wire_bytes(o) + (*self).2.wire_bytes(o) + (*self).3.wire_bytes(o)), start@ + ((*self).0.wire_bytes(o) + (*self).1.wire_bytes(o) + (*self).2.wire_bytes(o) + (*self).3.wire_bytes(o) + (*self).4.wire_bytes(o)));
                    lemma_prefix_of_append(start@ + ((*self).0.wire_bytes(o) + (*self).1.wire_bytes(o) + (*self).2.wire_bytes(o) + (*self).3.wire_bytes(o) + (*self).4.wire_bytes(o)), (*self).5.wire_bytes(o));
                    assert((start@ + ((*self).0.wire_bytes(o) + (*self).1.wire_bytes(o) + (*self).2.wire_bytes(o) + (*self).3.wire_bytes(o) + (*self).4.wire_bytes(o))) + (*self).5.wire_bytes(o) =~= start@ + ((*self).0.wire_bytes(o) + (*self).1.wire_bytes(o) + (*self).2.wire_bytes(o) + (*self).3.wire_bytes(o) + (*self).4.wire_bytes(o) + (*self).5.wire_bytes(o)));
                    lemma_prefix_chain(dst@, start@ + ((*self).0.wire_bytes(o) + (*self).1.wire_bytes(o) + (*self).2.wire_bytes(o) + (*self).3.wire_bytes(o) + (*self).4.wire_bytes(o)), start@ + ((*self).0.wire_bytes(o) + (*self).1.wire_bytes(o) + (*self).2.wire_bytes(o) + (*self).3.wire_bytes(o) + (*self).4.wire_bytes(o) + (*self).5.wire_bytes(o)));
                    lemma_prefix_of_append(start@ + ((*self).0.wire_bytes(o) + (*self).1.wire_bytes(o) + (*self).2.wire_bytes(o) + (*self).3.wire_bytes(o) + (*self).4.wire_bytes(o) + (*self).5.wire_bytes(o)), (*self).6.wire_bytes(o));
                    assert((start@ + ((*self).0.wire_bytes(o) + (*self).1.wire_bytes(o) + (*self).2.wire_bytes(o) + (*self).3.wire_bytes(o) + (*self).4.wire_bytes(o) + (*self).5.wire_bytes(o))) + (*self).6.wire_bytes(o) =~= start@ + ((*self).0.wire_bytes(o) + (*self).1.wire_bytes(o) + (*self).2.wire_bytes(o) + (*self).3.wire_bytes(o) + (*self).4.wire_bytes(o) + (*self).5.wire_bytes(o) + (*self).6.wire_bytes(o)));
                    lemma_prefix_chain(dst@, start@ + ((*self).0.wire_bytes(o) + (*self).1.wire_bytes(o) + (*self).2.wire_bytes(o) + (*self).3.wire_bytes(o) + (*self).4.wire_bytes(o) + (*self).5.wire_bytes(o)), start@ + ((*self).0.wire_bytes(o) + (*self).1.wire_bytes(o) + (*self).2.wire_bytes(o) + (*self).3.wire_bytes(o) + (*self).4.wire_bytes(o) + (*self).5.wire_bytes(o) + (*self).6.wire_bytes(o)));
                }
                return Err(e);
            },
        }
        proof {
            assert(dst@ =~= start@ + ((*self).0.wire_bytes(o) + (*self).1.wire_bytes(o) + (*self).2.wire_bytes(o)));
        }
        let ghost d3 = *dst;
        match self.3.pack_to(o, dst) {
            Ok(_) => {},
            Err(e) => {
                proof {
                    lemma_prefix_of_append(start@, (*self).0.wire_bytes(o) + (*self).1.wire_bytes(o) + (*self).2.wire_bytes(o));
                    lemma_prefix_chain(start@, d3@, dst@);
                    assert(d3@ + (*self).3.wire_bytes(o) =~= start@ + ((*self).0.wire_bytes(o) + (*self).1.wire_bytes(o) + (*self).2.wire_bytes(o) + (*self).3.wire_bytes(o)));
                    lemma_prefix_of_append(start@ + ((*self).0.wire_bytes(o) + (*self).1.wire_bytes(o) + (*self).2.wire_bytes(o) + (*self).3.wire_bytes(o)), (*self).4.wire_bytes(o));
                    assert((start@ + ((*self).0.wire_bytes(o) + (*self).1.wire_bytes(o) + (*self).2.wire_bytes(o) + (*self).3.wire_bytes(o))) + (*self).4.wire_bytes(o) =~= start@ + ((*self).0.wire_bytes(o) + (*self).1.wire_bytes(o) + (*self).2.wire_bytes(o) + (*self).3.wire_bytes(o) + (*self).4.wire_bytes(o)));
                    lemma_prefix_chain(dst@, start@ + ((*self).0.wire_bytes(o) + (*self).1.wire_bytes(o) + (*self).2.wire_bytes(o) + (*self).3.wire_bytes(o)), start@ + ((*self).0.wire_bytes(o) + (*self).1.wire_bytes(o) + (*self).2.wire_bytes(o) + (*self).3.wire_bytes(o) + (*self).4.wire_bytes(o)));
                    lemma_prefix_of_append(start@ + ((*self).0.wire_bytes(o) + (*self).1.wire_bytes(o) + (*self).2.wire_bytes(o) + (*self).3.wire_bytes(o) + (*self).4.wire_bytes(o)), (*self).5.wire_bytes(o));
                    assert((start@ + ((*self).0.wire_bytes(o) + (*self).1.wire_bytes(o) + (*self).2.wire_bytes(o) + (*self).3.wire_bytes(o) + (*self).4.wire_bytes(o))) + (*self).5.wire_bytes(o) =~= start@ + ((*self).0.wire_bytes(o) + (*self).1.wire_bytes(o) + (*self).2.wire_bytes(o) + (*self).3.wire_bytes(o) + (*self).4.wire_bytes(o) + (*self).5.wire_bytes(o)));
                    lemma_prefix_chain(dst@, start@ + ((*self).0.wire_bytes(o) + (*self).1.wire_bytes(o) + (*self).2.wire_bytes(o) + (*self).3.wire_bytes(o) + (*self).4.wire_bytes(o)), start@ + ((*self).0.wire_bytes(o) + (*self).1.wire_bytes(o) + (*self).2.wire_bytes(o) + (*self).3.wire_bytes(o) + (*self).4.wire_bytes(o) + (*self).5.wire_bytes(o)));
                    lemma_prefix_of_append(start@ + ((*self).0.wire_bytes(o) + (*self).1.wire_bytes(o) + (*self).2.wire_bytes(o) + (*self).3.wire_bytes(o) + (*self).4.wire_bytes(o) + (*self).5.wire_bytes(o)), (*self).6.wire_bytes(o));
                    assert((start@ + ((*self).0.wire_bytes(o) + (*self).1.wire_bytes(o) + (*self).2.wire_bytes(o) + (*self).3.wire_bytes(o) + (*self).4.wire_bytes(o) + (*self).5.wire_bytes(o))) + (*self).6.wire_bytes(o) =~= start@ + ((*self).0.wire_bytes(o) + (*self).1.wire_bytes(o) + (*self).2.wire_bytes(o) + (*self).3.wire_bytes(o) + (*self).4.wire_bytes(o) + (*self).5.wire_bytes(o) + (*self).6.wire_bytes(o)));
                    lemma_prefix_chain(dst@, start@ + ((*self).0.wire_bytes(o) + (*self).1.wire_bytes(o) + (*self).2.wire_bytes(o) + (*self).3.wire_bytes(o) + (*self).4.wire_bytes(o) + (*self).5.wire_bytes(o)), start@ + ((*self).0.wire_bytes(o) + (*self).1.wire_bytes(o) + (*self).2.wire_bytes(o) + (*self).3.wire_bytes(o) + (*self).4.wire_bytes(o) + (*self).5.wire_bytes(o) + (*self).6.wire_bytes(o)));
                }
                return Err(e);
            },
        }
        proof {
            assert(dst@ =~= start@ + ((*self).0.wire_bytes(o) + (*self).1.wire_bytes(o) + (*self).2.wire_bytes(o) + (*self).3.wire_bytes(o)));
        }
        let ghost d4 = *dst;
        match self.4.pack_to(o, dst) {
            Ok(_) => {},
            Err(e) => {
                proof {
                    lemma_prefix_of_append(start@, (*self).0.wire_bytes(o) + (*self).1.wire_bytes(o) + (*self).2.wire_bytes(o) + (*self).3.wire_bytes(o));
                    lemma_prefix_chain(start@, d4@, dst@);
                    assert(d4@ + (*self).4.wire_bytes(o) =~= start@ + ((*self).0.wire_bytes(o) + (*self).1.wire_bytes(o) + (*self).2.wire_bytes(o) + (*self).3.wire_bytes(o) + (*self).4.wire_bytes(o)));
                    lemma_prefix_of_append(start@ + ((*self).0.wire_bytes(o) + (*self).1.wire_bytes(o) + (*self).2.wire_bytes(o) + (*self).3.wire_bytes(o) + (*self).4.wire_bytes(o)), (*self).5.wire_bytes(o));
                    assert((start@ + ((*self).0.wire_bytes(o) + (*self).1.wire_bytes(o) + (*self).2.wire_bytes(o) + (*self).3.wire_bytes(o) + (*self).4.wire_bytes(o))) + (*self).5.wire_bytes(o) =~= start@ + ((*self).0.wire_bytes(o) + (*self).1.wire_bytes(o) + (*self).2.wire_bytes(o) + (*self).3.wire_bytes(o) + (*self).4.wire_bytes(o) + (*self).5.wire_bytes(o)));
                    lemma_prefix_chain(dst@, start@ + ((*self).0.wire_bytes(o) + (*self).1.wire_bytes(o) + (*self).2.wire_bytes(o) + (*self).3.wire_bytes(o) + (*self).4.wire_bytes(o)), start@ + ((*self).0.wire_bytes(o) + (*self).1.wire_bytes(o) + (*self).2.wire_bytes(o) + (*self).3.wire_bytes(o) + (*self).4.wire_bytes(o) + (*self).5.wire_bytes(o)));
                    lemma_prefix_of_append(start@ + ((*self).0.wire_bytes(o) + (*self).1.wire_bytes(o) + (*self).2.wire_bytes(o) + (*self).3.wire_bytes(o) + (*self).4.wire_bytes(o) + (*self).5.wire_bytes(o)), (*self).6.wire_bytes(o));
                    assert((start@ + ((*self).0.wire_bytes(o) + (*self).1.wire_bytes(o) + (*self).2.wire_bytes(o) + (*self).3.wire_bytes(o) + (*self).4.wire_bytes(o) + (*self).5.wire_bytes(o))) + (*self).6.wire_bytes(o) =~= start@ + ((*self).0.wire_bytes(o) + (*self).1.wire_bytes(o) + (*self).2.wire_bytes(o) + (*self).3.wire_bytes(o) + (*self).4.wire_bytes(o) + (*self).5.wire_bytes(o) + (*self).6.wire_bytes(o)));
                    lemma_prefix_chain(dst@, start@ + ((*self).0.wire_bytes(o) + (*self).1.wire_bytes(o) + (*self).2.wire_bytes(o) + (*self).3.wire_bytes(o) + (*self).4.wire_bytes(o) + (*self).5.wire_bytes(o)), start@ + ((*self).0.wire_bytes(o) + (*self).1.wire_bytes(o) + (*self).2.wire_bytes(o) + (*self).3.wire_bytes(o) + (*self).4.wire_bytes(o) + (*self).5.wire_bytes(o) + (*self).6.wire_bytes(o)));
                }
                return Err(e);
            },
        }
        proof {
            assert(dst@ =~= start@ + ((*self).0.wire_bytes(o) + (*self).1.wire_bytes(o) + (*self).2.wire_bytes(o) + (*self).3.wire_bytes(o) + (*self).4.wire_bytes(o)));
        }
        let ghost d5 = *dst;
        match self.5.pack_to(o, dst) {
            Ok(_) => {},
            Err(e) => {
                proof {
                    lemma_prefix_of_append(start@, (*self).0.wire_bytes(o) + (*self).1.wire_bytes(o) + (*self).2.wire_bytes(o) + (*self).3.wire_bytes(o) + (*self).4.wire_bytes(o));
                    lemma_prefix_chain(start@, d5@, dst@);
                    assert(d5@ + (*self).5.wire_bytes(o) =~= start@ + ((*self).0.wire_bytes(o) + (*self).1.wire_bytes(o) + (*self).2.wire_bytes(o) + (*self).3.wire_bytes(o) + (*self).4.wire_bytes(o) + (*self).5.wire_bytes(o)));
                    lemma_prefix_of_append(start@ + ((*self).0.wire_bytes(o) + (*self).1.wire_bytes(o) + (*self).2.wire_bytes(o) + (*self).3.wire_bytes(o) + (*self).4.wire_bytes(o) + (*self).5.wire_bytes(o)), (*self).6.wire_bytes(o));
                    assert((start@ + ((*self).0.wire_bytes(o) + (*self).1.wire_bytes(o) + (*self).2.wire_bytes(o) + (*self).3.wire_bytes(o) + (*self).4.wire_bytes(o) + (*self).5.wire_bytes(o))) + (*self).6.wire_bytes(o) =~= start@ + ((*self).0.wire_bytes(o) + (*self).1.wire_bytes(o) + (*self).2.wire_bytes(o) + (*self).3.wire_bytes(o) + (*self).4.wire_bytes(o) + (*self).5.wire_bytes(o) + (*self).6.wire_bytes(o)));
                    lemma_prefix_chain(dst@, start@ + ((*self).0.wire_bytes(o) + (*self).1.wire_bytes(o) + (*self).2.wire_bytes(o) + (*self).3.wire_bytes(o) + (*self).4.wire_bytes(o) + (*self).5.wire_bytes(o)), start@ + ((*self).0.wire_bytes(o) + (*self).1.wire_bytes(o) + (*self).2.wire_bytes(o) + (*self).3.wire_bytes(o) + (*self).4.wire_bytes(o) + (*self).5.wire_bytes(o) + (*self).6.wire_bytes(o)));
                }
                return Err(e);
            },
        }
        proof {
            assert(dst@ =~= start@ + ((*self).0.wire_bytes(o) + (*self).1.wire_bytes(o) + (*self).2.wire_bytes(o) + (*self).3.wire_bytes(o) + (*self).4.wire_bytes(o) + (*self).5.wire_bytes(o)));
        }
        let ghost d6 = *dst;
        match self.6.pack_to(o, dst) {
            Ok(_) => {},
            Err(e) => {
                proof {
                    lemma_prefix_of_append(start@, (*self).0.wire_bytes(o) + (*self).1.wire_bytes(o) + (*self).2.wire_bytes(o) + (*self).3.wire_bytes(o) + (*self).4.wire_bytes(o) + (*self).5.wire_bytes(o));
                    lemma_prefix_chain(start@, d6@, dst@);
                    assert(d6@ + (*self).6.wire_bytes(o) =~= start@ + ((*self).0.wire_bytes(o) + (*self).1.wire_bytes(o) + (*self).2.wire_bytes(o) + (*self).3.wire_bytes(o) + (*self).4.wire_bytes(o) + (*self).5.wire_bytes(o) + (*self).6.wire_bytes(o)));
                }
                return Err(e);
            },
        }
        proof {
            assert(dst@ =~= start@ + ((*self).0.wire_bytes(o) + (*self).1.wire_bytes(o) + (*self).2.wire_bytes(o) + (*self).3.wire_bytes(o) + (*self).4.wire_bytes(o) + (*self).5.wire_bytes(o) + (*self).6.wire_bytes(o)));
        }
        Ok(())
    }
}

impl<T1: PackTo, T2: PackTo, T3: PackTo, T4: PackTo, T5: PackTo, T6: PackTo, T7: PackTo, T8: PackTo> PackTo for (T1, T2, T3, T4, T5, T6, T7, T8) {
    open spec fn wire_width(self) -> nat {
        self.0.wire_width() + self.1.wire_width() + self.2.wire_width() + self.3.wire_width() + self.4.wire_width() + self.5.wire_width() + self.6.wire_width() + self.7.wire_width()
    }

    open spec fn wire_bytes(self, o: ByteOrder) -> Seq<u8> {
        self.0.wire_bytes(o) + self.1.wire_bytes(o) + self.2.wire_bytes(o) + self.3.wire_bytes(o) + self.4.wire_bytes(o) + self.5.wire_bytes(o) + self.6.wire_bytes(o) + self.7.wire_bytes(o)
    }

    proof fn lemma_wire_width(self, o: ByteOrder) {
        self.0.lemma_wire_width(o);
        self.1.lemma_wire_width(o);
        self.2.lemma_wire_width(o);
        self.3.lemma_wire_width(o);
        self.4.lemma_wire_width(o);
        self.5.lemma_wire_width(o);
        self.6.lemma_wire_width(o);
        self.7.lemma_wire_width(o);
    }

    #[verifier::spinoff_prover]
    #[verifier::rlimit(100)]
    fn pack_to(&self, o: ByteOrder, dst: &mut Sink) -> (r: Result<(), PackError>) {
        let ghost start = *dst;
        let ghost d0 = *dst;
        match self.0.pack_to(o, dst) {
            Ok(_) => {},
            Err(e) => {
                proof {
                    lemma_prefix_chain(start@, d0@, dst@);
                    assert(d0@ + (*self).0.wire_bytes(o) =~= start@ + ((*self).0.wire_bytes(o)));
                    lemma_prefix_of_append(start@ + ((*self).0.wire_bytes(o)), (*self).1.wire_bytes(o));
                    assert((start@ + ((*self).0.wire_bytes(o))) + (*self).1.wire_bytes(o) =~= start@ + ((*self).0.wire_bytes(o) + (*self).1.wire_bytes(o)));
                    lemma_prefix_chain(dst@, start@ + ((*self).0.wire_bytes(o)), start@ + ((*self).0.wire_bytes(o) + (*self).1.wire_bytes(o)));
                    lemma_prefix_of_append(start@ + ((*self).0.wire_bytes(o) + (*self).1.wire_bytes(o)), (*self).2.wire_bytes(o));
                    assert((start@ + ((*self).0.wire_bytes(o) + (*self).1.wire_bytes(o))) + (*self).2.wire_bytes(o) =~= start@ + ((*self).0.wire_bytes(o) + (*self).1.wire_bytes(o) + (*self).2.wire_bytes(o)));
                    lemma_prefix_chain(dst@, start@ + ((*self).0.wire_bytes(o) + (*self).1.wire_bytes(o)), start@ + ((*self).0.wire_bytes(o) + (*self).1.wire_bytes(o) + (*self).2.wire_bytes(o)));
                    lemma_prefix_of_append(start@ + ((*self).0.wire_bytes(o) + (*self).1.wire_bytes(o) + (*self).2.wire_bytes(o)), (*self).3.wire_bytes(o));
                    assert((start@ + ((*self).0.wire_bytes(o) + (*self).1.wire_bytes(o) + (*self).2.wire_bytes(o))) + (*self).3.wire_bytes(o) =~= start@ + ((*self).0.wire_bytes(o) + (*self).1.wire_bytes(o) + (*self).2.wire_bytes(o) + (*self).3.wire_bytes(o)));
                    lemma_prefix_chain(dst@, start@ + ((*self).0.wire_bytes(o) + (*self).1.wire_bytes(o) + (*self).2.wire_bytes(o)), start@ + ((*self).0.wire_bytes(o) + (*self).1.wire_bytes(o) + (*self).2.wire_bytes(o) + (*self).3.wire_bytes(o)));
                    lemma_prefix_of_append(start@ + ((*self).0.wire_bytes(o) + (*self).1.wire_bytes(o) + (*self).2.wire_bytes(o) + (*self).3.wire_bytes(o)), (*self).4.wire_bytes(o));
                    assert((start@ + ((*self).0.wire_bytes(o) + (*self).1.wire_bytes(o) + (*self).2.wire_bytes(o) + (*self).3.wire_bytes(o))) + (*self).4.wire_bytes(o) =~= start@ + ((*self).0.wire_bytes(o) + (*self).1.wire_bytes(o) + (*self).2.wire_bytes(o) + (*self).3.wire_bytes(o) + (*self).4.wire_bytes(o)));
                    lemma_prefix_chain(dst@, start@ + ((*self).0.wire_bytes(o) + (*self).1.wire_bytes(o) + (*self).2.wire_bytes(o) + (*self).3.wire_bytes(o)), start@ + ((*self).0.wire_bytes(o) + (*self).1.wire_bytes(o) + (*self).2.wire_bytes(o) + (*self).3.wire_bytes(o) + (*self).4.wire_bytes(o)));
                    lemma_prefix_of_append(start@ + ((*self).0.wire_bytes(o) + (*self).1.wire_bytes(o) + (*self).2.wire_bytes(o) + (*self).3.wire_bytes(o) + (*self).4.wire_bytes(o)), (*self).5.wire_bytes(o));
                    assert((start@ + ((*self).0.wire_bytes(o) + (*self).1.wire_bytes(o) + (*self).2.wire_bytes(o) + (*self).3.wire_bytes(o) + (*self).4.wire_bytes(o))) + (*self).5.wire_bytes(o) =~= start@ + ((*self).0.wire_bytes(o) + (*self).1.wire_bytes(o) + (*self).2.wire_bytes(o) + (*self).3.wire_bytes(o) + (*self).4.wire_bytes(o) + (*self).5.wire_bytes(o)));
                    lemma_prefix_chain(dst@, start@ + ((*self).0.wire_bytes(o) + (*self).1.wire_bytes(o) + (*self).2.wire_bytes(o) + (*self).3.wire_bytes(o) + (*self).4.wire_bytes(o)), start@ + ((*self).0.wire_bytes(o) + (*self).1.wire_bytes(o) + (*self).2.wire_bytes(o) + (*self).3.wire_bytes(o) + (*self).4.wire_bytes(o) + (*self).5.wire_bytes(o)));
                    lemma_prefix_of_append(start@ + ((*self).0.wire_bytes(o) + (*self).1.wire_bytes(o) + (*self).2.wire_bytes(o) + (*self).3.wire_bytes(o) + (*self).4.wire_bytes(o) + (*self).5.wire_bytes(o)), (*self).6.wire_bytes(o));
                    assert((start@ + ((*self).0.wire_bytes(o) + (*self).1.wire_bytes(o) + (*self).2.wire_bytes(o) + (*self).3.wire_bytes(o) + (*self).4.wire_bytes(o) + (*self).5.wire_bytes(o))) + (*self).6.wire_bytes(o) =~= start@ + ((*self).0.wire_bytes(o) + (*self).1.wire_bytes(o) + (*self).2.wire_bytes(o) + (*self).3.wire_bytes(o) + (*self).4.wire_bytes(o) + (*self).5.wire_bytes(o) + (*self).6.wire_bytes(o)));
                    lemma_prefix_chain(dst@, start@ + ((*self).0.wire_bytes(o) + (*self).1.wire_bytes(o) + (*self).2.wire_bytes(o) + (*self).3.wire_bytes(o) + (*self).4.wire_bytes(o) + (*self).5.wire_bytes(o)), start@ + ((*self).0.wire_bytes(o) + (*self).1.wire_bytes(o) + (*self).2.wire_bytes(o) + (*self).3.wire_bytes(o) + (*self).4.wire_bytes(o) + (*self).5.wire_bytes(o) + (*self).6.wire_bytes(o)));
                    lemma_prefix_of_append(start@ + ((*self).0.wire_bytes(o) + (*self).1.wire_bytes(o) + (*self).2.wire_bytes(o) + (*self).3.wire_bytes(o) + (*self).4.wire_bytes(o) + (*self).5.wire_bytes(o) + (*self).6.wire_bytes(o)), (*self).7.wire_bytes(o));
                    assert((start@ + ((*self).0.wire_bytes(o) + (*self).1.wire_bytes(o) + (*self).2.wire_bytes(o) + (*self).3.wire_bytes(o) + (*self).4.wire_bytes(o) + (*self).5.wire_bytes(o) + (*self).6.wire_bytes(o))) + (*self).7.wire_bytes(o) =~= start@ + ((*self).0.wire_bytes(o) + (*self).1.wire_bytes(o) + (*self).2.wire_bytes(o) + (*self).3.wire_bytes(o) + (*self).4.wire_bytes(o) + (*self).5.wire_bytes(o) + (*self).6.wire_bytes(o) + (*self).7.wire_bytes(o)));
                    lemma_prefix_chain(dst@, start@ + ((*self).0.wire_bytes(o) + (*self).1.wire_bytes(o) + (*self).2.wire_bytes(o) + (*self).3.wire_bytes(o) + (*self).4.wire_bytes(o) + (*self).5.wire_bytes(o) + (*self).6.wire_bytes(o)), start@ + ((*self).0.wire_bytes(o) + (*self).1.wire_bytes(o) + (*self).2.wire_bytes(o) + (*self).3.wire_bytes(o) + (*self).4.wire_bytes(o) + (*self).5.wire_bytes(o) + (*self).6.wire_bytes(o) + (*self).7.wire_bytes(o)));
                }
                return Err(e);
            },
        }
        proof {
            assert(dst@ =~= start@ + ((*self).0.wire_bytes(o)));
        }
        let ghost d1 = *dst;
        match self.1.pack_to(o, dst) {
            Ok(_) => {},
            Err(e) => {
                proof {
                    lemma_prefix_of_append(start@, (*self).0.wire_bytes(o));
                    lemma_prefix_chain(start@, d1@, dst@);
                    assert(d1@ + (*self).1.wire_bytes(o) =~= start@ + ((*self).0.wire_bytes(o) + (*self).1.wire_bytes(o)));
                    lemma_prefix_of_append(start@ + ((*self).0.wire_bytes(o) + (*self).1.wire_bytes(o)), (*self).2.wire_bytes(o));
                    assert((start@ + ((*self).0.wire_bytes(o) + (*self).1.wire_bytes(o))) + (*self).2.wire_bytes(o) =~= start@ + ((*self).0.wire_bytes(o) + (*self).1.wire_bytes(o) + (*self).2.wire_bytes(o)));
                    lemma_prefix_chain(dst@, start@ + ((*self).0.wire_bytes(o) + (*self).1.wire_bytes(o)), start@ + ((*self).0.wire_bytes(o) + (*self).1.wire_bytes(o) + (*self).2.wire_bytes(o)));
                    lemma_prefix_of_append(start@ + ((*self).0.wire_bytes(o) + (*self).1.wire_bytes(o) + (*self).2.wire_bytes(o)), (*self).3.wire_bytes(o));
                    assert((start@ + ((*self).0.wire_bytes(o) + (*self).1.wire_bytes(o) + (*self).2.wire_bytes(o))) + (*self).3.wire_bytes(o) =~= start@ + ((*self).0.wire_bytes(o) + (*self).1.wire_bytes(o) + (*self).2.wire_bytes(o) + (*self).3.wire_bytes(o)));
                    lemma_prefix_chain(dst@, start@ + ((*self).0.wire_bytes(o) + (*self).1.wire_bytes(o) + (*self).2.wire_bytes(o)), start@ + ((*self).0.wire_bytes(o) + (*self).1.wire_bytes(o) + (*self).2.wire_bytes(o) + (*self).3.wire_bytes(o)));
                    lemma_prefix_of_append(start@ + ((*self).0.wire_bytes(o) + (*self).1.wire_bytes(o) + (*self).2.wire_bytes(o) + (*self).3.wire_bytes(o)), (*self).4.wire_bytes(o));
                    assert((start@ + ((*self).0.wire_bytes(o) + (*self).1.wire_bytes(o) + (*self).2.wire_bytes(o) + (*self).3.wire_bytes(o))) + (*self).4.wire_bytes(o) =~= start@ + ((*self).0.wire_bytes(o) + (*self).1.wire_bytes(o) + (*self).2.wire_bytes(o) + (*self).3.wire_bytes(o) + (*self).4.wire_bytes(o)));
                    lemma_prefix_chain(dst@, start@ + ((*self).0.wire_bytes(o) + (*self).1.wire_bytes(o) + (*self).2.wire_bytes(o) + (*self).3.wire_bytes(o)), start@ + ((*self).0.wire_bytes(o) + (*self).1.wire_bytes(o) + (*self).2.wire_bytes(o) + (*self).3.wire_bytes(o) + (*self).4.wire_bytes(o)));
                    lemma_prefix_of_append(start@ + ((*self).0.wire_bytes(o) + (*self).1.wire_bytes(o) + (*self).2.wire_bytes(o) + (*self).3.wire_bytes(o) + (*self).4.wire_bytes(o)), (*self).5.wire_bytes(o));
                    assert((start@ + ((*self).0.wire_bytes(o) + (*self).1.wire_bytes(o) + (*self).2.wire_bytes(o) + (*self).3.wire_bytes(o) + (*self).4.wire_bytes(o))) + (*self).5.wire_bytes(o) =~= start@ + ((*self).0.wire_bytes(o) + (*self).1.wire_bytes(o) + (*self).2.wire_bytes(o) + (*self).3.wire_bytes(o) + (*self).4.wire_bytes(o) + (*self).5.wire_bytes(o)));
                    lemma_prefix_chain(dst@, start@ + ((*self).0.wire_bytes(o) + (*self).1.wire_bytes(o) + (*self).2.wire_bytes(o) + (*self).3.wire_bytes(o) + (*self).4.wire_bytes(o)), start@ + ((*self).0.wire_bytes(o) + (*self).1.wire_bytes(o) + (*self).2.wire_bytes(o) + (*self).3.wire_bytes(o) + (*self).4.wire_bytes(o) + (*self).5.wire_bytes(o)));
                    lemma_prefix_of_append(start@ + ((*self).0.wire_bytes(o) + (*self).1.wire_bytes(o) + (*self).2.wire_bytes(o) + (*self).3.wire_bytes(o) + (*self).4.wire_bytes(o) + (*self).5.wire_bytes(o)), (*self).6.wire_bytes(o));
                    assert((start@ + ((*self).0.wire_bytes(o) + (*self).1.wire_bytes(o) + (*self).2.wire_bytes(o) + (*self).3.wire_bytes(o) + (*self).4.wire_bytes(o) + (*self).5.wire_bytes(o))) + (*self).6.wire_bytes(o) =~= start@ + ((*self).0.wire_bytes(o) + (*self).1.wire_bytes(o) + (*self).2.wire_bytes(o) + (*self).3.wire_bytes(o) + (*self).4.wire_bytes(o) + (*self).5.wire_bytes(o) + (*self).6.wire_bytes(o)));
                    lemma_prefix_chain(dst@, start@ + ((*self).0.wire_bytes(o) + (*self).1.wire_bytes(o) + (*self).2.wire_bytes(o) + (*self).3.wire_bytes(o) + (*self).4.wire_bytes(o) + (*self).5.wire_bytes(o)), start@ + ((*self).0.wire_bytes(o) + (*self).1.wire_bytes(o) + (*self).2.wire_bytes(o) + (*self).3.wire_bytes(o) + (*self).4.wire_bytes(o) + (*self).5.wire_bytes(o) + (*self).6.wire_bytes(o)));
                    lemma_prefix_of_append(start@ + ((*self).0.wire_bytes(o) + (*self).1.wire_bytes(o) + (*self).2.wire_bytes(o) + (*self).3.wire_bytes(o) + (*self).4.wire_bytes(o) + (*self).5.wire_bytes(o) + (*self).6.wire_bytes(o)), (*self).7.wire_bytes(o));
                    assert((start@ + ((*self).0.wire_bytes(o) + (*self).1.wire_bytes(o) + (*self).2.wire_bytes(o) + (*self).3.wire_bytes(o) + (*self).4.wire_bytes(o) + (*self).5.wire_bytes(o) + (*self).6.wire_bytes(o))) + (*self).7.wire_bytes(o) =~= start@ + ((*self).0.wire_bytes(o) + (*self).1.wire_bytes(o) + (*self).2.wire_bytes(o) + (*self).3.wire_bytes(o) + (*self).4.wire_bytes(o) + (*self).5.wire_bytes(o) + (*self).6.wire_bytes(o) + (*self).7.wire_bytes(o)));
                    lemma_prefix_chain(dst@, start@ + ((*self).0.wire_bytes(o) + (*self).1.wire_bytes(o) + (*self).2.wire_bytes(o) + (*self).3.wire_bytes(o) + (*self).4.wire_bytes(o) + (*self).5.wire_bytes(o) + (*self).6.wire_bytes(o)), start@ + ((*self).0.wire_bytes(o) + (*self).1.wire_bytes(o) + (*self).2.wire_bytes(o) + (*self).3.wire_bytes(o) + (*self).4.wire_bytes(o) + (*self).5.wire_bytes(o) + (*self).6.wire_bytes(o) + (*self).7.wire_bytes(o)));
                }
                return Err(e);
            },
        }
        proof {
            assert(dst@ =~= start@ + ((*self).0.wire_bytes(o) + (*self).1.wire_bytes(o)));
        }
        let ghost d2 = *dst;
        match self.2.pack_to(o, dst) {
            Ok(_) => {},
            Err(e) => {
                proof {
                    lemma_prefix_of_append(start@, (*self).0.wire_bytes(o) + (*self).1.wire_bytes(o));
                    lemma_prefix_chain(start@, d2@, dst@);
                    assert(d2@ + (*self).2.wire_bytes(o) =~= start@ + ((*self).0.wire_bytes(o) + (*self).1.wire_bytes(o) + (*self).2.wire_bytes(o)));
                    lemma_prefix_of_append(start@ + ((*self).0.wire_bytes(o) + (*self).1.wire_bytes(o) + (*self).2.wire_bytes(o)), (*self).3.wire_bytes(o));
                    assert((start@ + ((*self).0.wire_bytes(o) + (*self).1.wire_bytes(o) + (*self).2.wire_bytes(o))) + (*self).3.wire_bytes(o) =~= start@ + ((*self).0.wire_bytes(o) + (*self).1.wire_bytes(o) + (*self).2.wire_bytes(o) + (*self).3.wire_bytes(o)));
                    lemma_prefix_chain(dst@, start@ + ((*self).0.wire_bytes(o) + (*self).1.wire_bytes(o) + (*self).2.wire_bytes(o)), start@ + ((*self).0.wire_bytes(o) + (*self).1.wire_bytes(o) + (*self).2.wire_bytes(o) + (*self).3.wire_bytes(o)));
                    lemma_prefix_of_append(start@ + ((*self).0.wire_bytes(o) + (*self).1.wire_bytes(o) + (*self).2.wire_bytes(o) + (*self).3.wire_bytes(o)), (*self).4.wire_bytes(o));
                    assert((start@ + ((*self).0.wire_bytes(o) + (*self).1.wire_bytes(o) + (*self).2.wire_bytes(o) + (*self).3.wire_bytes(o))) + (*self).4.wire_bytes(o) =~= start@ + ((*self).0.wire_bytes(o) + (*self).1.wire_bytes(o) + (*self).2.wire_bytes(o) + (*self).3.wire_bytes(o) + (*self).4.wire_bytes(o)));
                    lemma_prefix_chain(dst@, start@ + ((*self).0.wire_bytes(o) + (*self).1.wire_bytes(o) + (*self).2.wire_bytes(o) + (*self).3.wire_bytes(o)), start@ + ((*self).0.wire_bytes(o) + (*self).1.wire_bytes(o) + (*self).2.wire_bytes(o) + (*self).3.wire_bytes(o) + (*self).4.wire_bytes(o)));
                    lemma_prefix_of_append(start@ + ((*self).0.wire_bytes(o) + (*self).1.wire_bytes(o) + (*self).2.wire_bytes(o) + (*self).3.wire_bytes(o) + (*self).4.wire_bytes(o)), (*self).5.wire_bytes(o));
                    assert((start@ + ((*self).0.wire_bytes(o) + (*self).1.wire_bytes(o) + (*self).2.wire_bytes(o) + (*self).3.wire_bytes(o) + (*self).4.wire_bytes(o))) + (*self).5.wire_bytes(o) =~= start@ + ((*self).0.wire_bytes(o) + (*self).1.wire_bytes(o) + (*self).2.wire_bytes(o) + (*self).3.wire_bytes(o) + (*self).4.wire_bytes(o) + (*self).5.wire_bytes(o)));
                    lemma_prefix_chain(dst@, start@ + ((*self).0.wire_bytes(o) + (*self).1.wire_bytes(o) + (*self).2.wire_bytes(o) + (*self).3.wire_bytes(o) + (*self).4.wire_bytes(o)), start@ + ((*self).0.wire_bytes(o) + (*self).1.wire_bytes(o) + (*self).2.wire_bytes(o) + (*self).3.wire_bytes(o) + (*self).4.wire_bytes(o) + (*self).5.wire_bytes(o)));
                    lemma_prefix_of_append(start@ + ((*self).0.wire_bytes(o) + (*self).1.wire_bytes(o) + (*self).2.wire_bytes(o) + (*self).3.wire_bytes(o) + (*self).4.wire_bytes(o) + (*self).5.wire_bytes(o)), (*self).6.wire_bytes(o));
                    assert((start@ + ((*self).0.wire_bytes(o) + (*self).1.wire_bytes(o) + (*self).2.wire_bytes(o) + (*self).3.wire_bytes(o) + (*self).4.wire_bytes(o) + (*self).5.wire_bytes(o))) + (*self).6.wire_bytes(o) =~= start@ + ((*self).0.wire_bytes(o) + (*self).1.wire_bytes(o) + (*self).2.wire_bytes(o) + (*self).3.wire_bytes(o) + (*self).4.wire_bytes(o) + (*self).5.wire_bytes(o) + (*self).6.wire_bytes(o)));
                    lemma_prefix_chain(dst@, start@ + ((*self).0.wire_bytes(o) + (*self).1.wire_bytes(o) + (*self).2.wire_bytes(o) + (*self).3.wire_bytes(o) + (*self).4.wire_bytes(o) + (*self).5.wire_bytes(o)), start@ + ((*self).0.wire_bytes(o) + (*self).1.wire_bytes(o) + (*self).2.wire_bytes(o) + (*self).3.wire_bytes(o) + (*self).4.wire_bytes(o) + (*self).5.wire_bytes(o) + (*self).6.wire_bytes(o)));
                    lemma_prefix_of_append(start@ + ((*self).0.wire_bytes(o) + (*self).1.wire_bytes(o) + (*self).2.wire_bytes(o) + (*self).3.wire_bytes(o) + (*self).4.wire_bytes(o) + (*self).5.wire_bytes(o) + (*self).6.wire_bytes(o)), (*self).7.wire_bytes(o));
                    assert((start@ + ((*self).0.wire_bytes(o) + (*self).1.wire_bytes(o) + (*self).2.wire_bytes(o) + (*self).3.wire_bytes(o) + (*self).4.wire_bytes(o) + (*self).5.wire_bytes(o) + (*self).6.wire_bytes(o))) + (*self).7.wire_bytes(o) =~= start@ + ((*self).0.wire_bytes(o) + (*self).1.wire_bytes(o) + (*self).2.wire_bytes(o) + (*self).3.wire_bytes(o) + (*self).4.wire_bytes(o) + (*self).5.wire_bytes(o) + (*self).6.wire_bytes(o) + (*self).7.wire_bytes(o)));
                    lemma_prefix_chain(dst@, start@ + ((*self).0.wire_bytes(o) + (*self).1.wire_bytes(o) + (*self).2.wire_bytes(o) + (*self).3.wire_bytes(o) + (*self).4.wire_bytes(o) + (*self).5.wire_bytes(o) + (*self).6.wire_bytes(o)), start@ + ((*self).0.wire_bytes(o) + (*self).1.wire_bytes(o) + (*self).2.wire_bytes(o) + (*self).3.wire_bytes(o) + (*self).4.wire_bytes(o) + (*self).5.wire_bytes(o) + (*self).6.wire_bytes(o) + (*self).7.wire_bytes(o)));
                }
                return Err(e);
            },
        }
        proof {
            assert(dst@ =~= start@ + ((*self).0.wire_bytes(o) + (*self).1.wire_bytes(o) + (*self).2.wire_bytes(o)));
        }
        let ghost d3 = *dst;
        match self.3.pack_to(o, dst) {
            Ok(_) => {},
            Err(e) => {
                proof {
                    lemma_prefix_of_append(start@, (*self).0.wire_bytes(o) + (*self).1.wire_bytes(o) + (*self).2.wire_bytes(o));
                    lemma_prefix_chain(start@, d3@, dst@);
                    assert(d3@ + (*self).3.wire_bytes(o) =~= start@ + ((*self).0.wire_bytes(o) + (*self).1.wire_bytes(o) + (*self).2.wire_bytes(o) + (*self).3.wire_bytes(o)));
                    lemma_prefix_of_append(start@ + ((*self).0.wire_bytes(o) + (*self).1.wire_bytes(o) + (*self).2.wire_bytes(o) + (*self).3.wire_bytes(o)), (*self).4.wire_bytes(o));
                    assert((start@ + ((*self).0.wire_bytes(o) + (*self).1.wire_bytes(o) + (*self).2.wire_bytes(o) + (*self).3.wire_bytes(o))) + (*self).4.wire_bytes(o) =~= start@ + ((*self).0.wire_bytes(o) + (*self).1.wire_bytes(o) + (*self).2.wire_bytes(o) + (*self).3.wire_bytes(o) + (*self).4.wire_bytes(o)));
                    lemma_prefix_chain(dst@, start@ + ((*self).0.wire_bytes(o) + (*self).1.wire_bytes(o) + (*self).2.wire_bytes(o) + (*self).3.wire_bytes(o)), start@ + ((*self).0.wire_bytes(o) + (*self).1.wire_bytes(o) + (*self).2.wire_bytes(o) + (*self).3.wire_bytes(o) + (*self).4.wire_bytes(o)));
                    lemma_prefix_of_append(start@ + ((*self).0.wire_bytes(o) + (*self).1.wire_bytes(o) + (*self).2.wire_bytes(o) + (*self).3.wire_bytes(o) + (*self).4.wire_bytes(o)), (*self).5.wire_bytes(o));
                    assert((start@ + ((*self).0.wire_bytes(o) + (*self).1.wire_bytes(o) + (*self).2.wire_bytes(o) + (*self).3.wire_bytes(o) + (*self).4.wire_bytes(o))) + (*self).5.wire_bytes(o) =~= start@ + ((*self).0.wire_bytes(o) + (*self).1.wire_bytes(o) + (*self).2.wire_bytes(o) + (*self).3.wire_bytes(o) + (*self).4.wire_bytes(o) + (*self).5.wire_bytes(o)));
                    lemma_prefix_chain(dst@, start@ + ((*self).0.wire_bytes(o) + (*self).1.wire_bytes(o) + (*self).2.wire_bytes(o) + (*self).3.wire_bytes(o) + (*self).4.wire_bytes(o)), start@ + ((*self).0.wire_bytes(o) + (*self).1.wire_bytes(o) + (*self).2.wire_bytes(o) + (*self).3.wire_bytes(o) + (*self).4.wire_bytes(o) + (*self).5.wire_bytes(o)));
                    lemma_prefix_of_append(start@ + ((*self).0.wire_bytes(o) + (*self).1.wire_bytes(o) + (*self).2.wire_bytes(o) + (*self).3.wire_bytes(o) + (*self).4.wire_bytes(o) + (*self).5.wire_bytes(o)), (*self).6.wire_bytes(o));
                    assert((start@ + ((*self).0.wire_bytes(o) + (*self).1.wire_bytes(o) + (*self).2.wire_bytes(o) + (*self).3.wire_bytes(o) + (*self).4.wire_bytes(o) + (*self).5.wire_bytes(o))) + (*self).6.wire_bytes(o) =~= start@ + ((*self).0.wire_bytes(o) + (*self).1.wire_bytes(o) + (*self).2.wire_bytes(o) + (*self).3.wire_bytes(o) + (*self).4.wire_bytes(o) + (*self).5.wire_bytes(o) + (*self).6.wire_bytes(o)));
                    lemma_prefix_chain(dst@, start@ + ((*self).0.wire_bytes(o) + (*self).1.wire_bytes(o) + (*self).2.wire_bytes(o) + (*self).3.wire_bytes(o) + (*self).4.wire_bytes(o) + (*self).5.wire_bytes(o)), start@ + ((*self).0.wire_bytes(o) + (*self).1.wire_bytes(o) + (*self).2.wire_bytes(o) + (*self).3.wire_bytes(o) + (*self).4.wire_bytes(o) + (*self).5.wire_bytes(o) + (*self).6.wire_bytes(o)));
                    lemma_prefix_of_append(start@ + ((*self).0.wire_bytes(o) + (*self).1.wire_bytes(o) + (*self).2.wire_bytes(o) + (*self).3.wire_bytes(o) + (*self).4.wire_bytes(o) + (*self).5.wire_bytes(o) + (*self).6.wire_bytes(o)), (*self).7.wire_bytes(o));
                    assert((start@ + ((*self).0.wire_bytes(o) + (*self).1.wire_bytes(o) + (*self).2.wire_bytes(o) + (*self).3.wire_bytes(o) + (*self).4.wire_bytes(o) + (*self).5.wire_bytes(o) + (*self).6.wire_bytes(o))) + (*self).7.wire_bytes(o) =~= start@ + ((*self).0.wire_bytes(o) + (*self).1.wire_bytes(o) + (*self).2.wire_bytes(o) + (*self).3.wire_bytes(o) + (*self).4.wire_bytes(o) + (*self).5.wire_bytes(o) + (*self).6.wire_bytes(o) + (*self).7.wire_bytes(o)));
                    lemma_prefix_chain(dst@, start@ + ((*self).0.wire_bytes(o) + (*self).1.wire_bytes(o) + (*self).2.wire_bytes(o) + (*self).3.wire_bytes(o) + (*self).4.wire_bytes(o) + (*self).5.wire_bytes(o) + (*self).6.wire_bytes(o)), start@ + ((*self).0.wire_bytes(o) + (*self).1.wire_bytes(o) + (*self).2.wire_bytes(o) + (*self).3.wire_bytes(o) + (*self).4.wire_bytes(o) + (*self).5.wire_bytes(o) + (*self).6.wire_bytes(o) + (*self).7.wire_bytes(o)));
                }
                return Err(e);
            },
        }
        proof {
            assert(dst@ =~= start@ + ((*self).0.wire_bytes(o) + (*self).1.wire_bytes(o) + (*self).2.wire_bytes(o) + (*self).3.wire_bytes(o)));
        }
        let ghost d4 = *dst;
        match self.4.pack_to(o, dst) {
            Ok(_) => {},
            Err(e) => {
                proof {
                    lemma_prefix_of_append(start@, (*self).0.wire_bytes(o) + (*self).1.wire_bytes(o) + (*self).2.wire_bytes(o) + (*self).3.wire_bytes(o));
                    lemma_prefix_chain(start@, d4@, dst@);
                    assert(d4@ + (*self).4.wire_bytes(o) =~= start@ + ((*self).0.wire_bytes(o) + (*self).1.wire_bytes(o) + (*self).2.wire_bytes(o) + (*self).3.wire_bytes(o) + (*self).4.wire_bytes(o)));
                    lemma_prefix_of_append(start@ + ((*self).0.wire_bytes(o) + (*self).1.wire_bytes(o) + (*self).2.wire_bytes(o) + (*self).3.wire_bytes(o) + (*self).4.wire_bytes(o)), (*self).5.wire_bytes(o));
                    assert((start@ + ((*self).0.wire_bytes(o) + (*self).1.wire_bytes(o) + (*self).2.wire_bytes(o) + (*self).3.wire_bytes(o) + (*self).4.wire_bytes(o))) + (*self).5.wire_bytes(o) =~= start@ + ((*self).0.wire_bytes(o) + (*self).1.wire_bytes(o) + (*self).2.wire_bytes(o) + (*self).3.wire_bytes(o) + (*self).4.wire_bytes(o) + (*self).5.wire_bytes(o)));
                    lemma_prefix_chain(dst@, start@ + ((*self).0.wire_bytes(o) + (*self).1.wire_bytes(o) + (*self).2.wire_bytes(o) + (*self).3.wire_bytes(o) + (*self).4.wire_bytes(o)), start@ + ((*self).0.wire_bytes(o) + (*self).1.wire_bytes(o) + (*self).2.wire_bytes(o) + (*self).3.wire_bytes(o) + (*self).4.wire_bytes(o) + (*self).5.wire_bytes(o)));
                    lemma_prefix_of_append(start@ + ((*self).0.wire_bytes(o) + (*self).1.wire_bytes(o) + (*self).2.wire_bytes(o) + (*self).3.wire_bytes(o) + (*self).4.wire_bytes(o) + (*self).5.wire_bytes(o)), (*self).6.wire_bytes(o));
                    assert((start@ + ((*self).0.wire_bytes(o) + (*self).1.wire_bytes(o) + (*self).2.wire_bytes(o) + (*self).3.wire_bytes(o) + (*self).4.wire_bytes(o) + (*self).5.wire_bytes(o))) + (*self).6.wire_bytes(o) =~= start@ + ((*self).0.wire_bytes(o) + (*self).1.wire_bytes(o) + (*self).2.wire_bytes(o) + (*self).3.wire_bytes(o) + (*self).4.wire_bytes(o) + (*self).5.wire_bytes(o) + (*self).6.wire_bytes(o)));
                    lemma_prefix_chain(dst@, start@ + ((*self).0.wire_bytes(o) + (*self).1.wire_bytes(o) + (*self).2.wire_bytes(o) + (*self).3.wire_bytes(o) + (*self).4.wire_bytes(o) + (*self).5.wire_bytes(o)), start@ + ((*self).0.wire_bytes(o) + (*self).1.wire_bytes(o) + (*self).2.wire_bytes(o) + (*self).3.wire_bytes(o) + (*self).4.wire_bytes(o) + (*self).5.wire_bytes(o) + (*self).6.wire_bytes(o)));
                    lemma_prefix_of_append(start@ + ((*self).0.wire_bytes(o) + (*self).1.wire_bytes(o) + (*self).2.wire_bytes(o) + (*self).3.wire_bytes(o) + (*self).4.wire_bytes(o) + (*self).5.wire_bytes(o) + (*self).6.wire_bytes(o)), (*self).7.wire_bytes(o));
                    assert((start@ + ((*self).0.wire_bytes(o) + (*self).1.wire_bytes(o) + (*self).2.wire_bytes(o) + (*self).3.wire_bytes(o) + (*self).4.wire_bytes(o) + (*self).5.wire_bytes(o) + (*self).6.wire_bytes(o))) + (*self).7.wire_bytes(o) =~= start@ + ((*self).0.wire_bytes(o) + (*self).1.wire_bytes(o) + (*self).2.wire_bytes(o) + (*self).3.wire_bytes(o) + (*self).4.wire_bytes(o) + (*self).5.wire_bytes(o) + (*self).6.wire_bytes(o) + (*self).7.wire_bytes(o)));
                    lemma_prefix_chain(dst@, start@ + ((*self).0.wire_bytes(o) + (*self).1.wire_bytes(o) + (*self).2.wire_bytes(o) + (*self).3.wire_bytes(o) + (*self).4.wire_bytes(o) + (*self).5.wire_bytes(o) + (*self).6.wire_bytes(o)), start@ + ((*self).0.wire_bytes(o) + (*self).1.wire_bytes(o) + (*self).2.wire_bytes(o) + (*self).3.wire_bytes(o) + (*self).4.wire_bytes(o) + (*self).5.wire_bytes(o) + (*self).6.wire_bytes(o) + (*self).7.wire_bytes(o)));
                }
                return Err(e);
            },
        }
        proof {
            assert(dst@ =~= start@ + ((*self).0.wire_bytes(o) + (*self).1.wire_bytes(o) + (*self).2.wire_bytes(o) + (*self).3.wire_bytes(o) + (*self).4.wire_bytes(o)));
        }
        let ghost d5 = *dst;
        match self.5.pack_to(o, dst) {
            Ok(_) => {},
            Err(e) => {
                proof {
                    lemma_prefix_of_append(start@, (*self).0.wire_bytes(o) + (*self).1.wire_bytes(o) + (*self).2.wire_bytes(o) + (*self).3.wire_bytes(o) + (*self).4.wire_bytes(o));
                    lemma_prefix_chain(start@, d5@, dst@);
                    assert(d5@ + (*self).5.wire_bytes(o) =~= start@ + ((*self).0.wire_bytes(o) + (*self).1.wire_bytes(o) + (*self).2.wire_bytes(o) + (*self).3.wire_bytes(o) + (*self).4.wire_bytes(o) + (*self).5.wire_bytes(o)));
                    lemma_prefix_of_append(start@ + ((*self).0.wire_bytes(o) + (*self).1.wire_bytes(o) + (*self).2.wire_bytes(o) + (*self).3.wire_bytes(o) + (*self).4.wire_bytes(o) + (*self).5.wire_bytes(o)), (*self).6.wire_bytes(o));
                    assert((start@ + ((*self).0.wire_bytes(o) + (*self).1.wire_bytes(o) + (*self).2.wire_bytes(o) + (*self).3.wire_bytes(o) + (*self).4.wire_bytes(o) + (*self).5.wire_bytes(o))) + (*self).6.wire_bytes(o) =~= start@ + ((*self).0.wire_bytes(o) + (*self).1.wire_bytes(o) + (*self).2.wire_bytes(o) + (*self).3.wire_bytes(o) + (*self).4.wire_bytes(o) + (*self).5.wire_bytes(o) + (*self).6.wire_bytes(o)));
                    lemma_prefix_chain(dst@, start@ + ((*self).0.wire_bytes(o) + (*self).1.wire_bytes(o) + (*self).2.wire_bytes(o) + (*self).3.wire_bytes(o) + (*self).4.wire_bytes(o) + (*self).5.wire_bytes(o)), start@ + ((*self).0.wire_bytes(o) + (*self).1.wire_bytes(o) + (*self).2.wire_bytes(o) + (*self).3.wire_bytes(o) + (*self).4.wire_bytes(o) + (*self).5.wire_bytes(o) + (*self).6.wire_bytes(o)));
                    lemma_prefix_of_append(start@ + ((*self).0.wire_bytes(o) + (*self).1.wire_bytes(o) + (*self).2.wire_bytes(o) + (*self).3.wire_bytes(o) + (*self).4.wire_bytes(o) + (*self).5.wire_bytes(o) + (*self).6.wire_bytes(o)), (*self).7.wire_bytes(o));
                    assert((start@ + ((*self).0.wire_bytes(o) + (*self).1.wire_bytes(o) + (*self).2.wire_bytes(o) + (*self).3.wire_bytes(o) + (*self).4.wire_bytes(o) + (*self).5.wire_bytes(o) + (*self).6.wire_bytes(o))) + (*self).7.wire_bytes(o) =~= start@ + ((*self).0.wire_bytes(o) + (*self).1.wire_bytes(o) + (*self).2.wire_bytes(o) + (*self).3.wire_bytes(o) + (*self).4.wire_bytes(o) + (*self).5.wire_bytes(o) + (*self).6.wire_bytes(o) + (*self).7.wire_bytes(o)));
                    lemma_prefix_chain(dst@, start@ + ((*self).0.wire_bytes(o) + (*self).1.wire_bytes(o) + (*self).2.wire_bytes(o) + (*self).3.wire_bytes(o) + (*self).4.wire_bytes(o) + (*self).5.wire_bytes(o) + (*self).6.wire_bytes(o)), start@ + ((*self).0.wire_bytes(o) + (*self).1.wire_bytes(o) + (*self).2.wire_bytes(o) + (*self).3.wire_bytes(o) + (*self).4.wire_bytes(o) + (*self).5.wire_bytes(o) + (*self).6.wire_bytes(o) + (*self).7.wire_bytes(o)));
                }
                return Err(e);
            },
        }
        proof {
            assert(dst@ =~= start@ + ((*self).0.wire_bytes(o) + (*self).1.wire_bytes(o) + (*self).2.wire_bytes(o) + (*self).3.wire_bytes(o) + (*self).4.wire_bytes(o) + (*self).5.wire_bytes(o)));
        }
        let ghost d6 = *dst;
        match self.6.pack_to(o, dst) {
            Ok(_) => {},
            Err(e) => {
                proof {
                    lemma_prefix_of_append(start@, (*self).0.wire_bytes(o) + (*self).1.wire_bytes(o) + (*self).2.wire_bytes(o) + (*self).3.wire_bytes(o) + (*self).4.wire_bytes(o) + (*self).5.wire_bytes(o));
                    lemma_prefix_chain(start@, d6@, dst@);
                    assert(d6@ + (*self).6.wire_bytes(o) =~= start@ + ((*self).0.wire_bytes(o) + (*self).1.wire_bytes(o) + (*self).2.wire_bytes(o) + (*self).3.wire_bytes(o) + (*self).4.wire_bytes(o) + (*self).5.wire_bytes(o) + (*self).6.wire_bytes(o)));
                    lemma_prefix_of_append(start@ + ((*self).0.wire_bytes(o) + (*self).1.wire_bytes(o) + (*self).2.wire_bytes(o) + (*self).3.wire_bytes(o) + (*self).4.wire_bytes(o) + (*self).5.wire_bytes(o) + (*self).6.wire_bytes(o)), (*self).7.wire_bytes(o));
                    assert((start@ + ((*self).0.wire_bytes(o) + (*self).1.wire_bytes(o) + (*self).2.wire_bytes(o) + (*self).3.wire_bytes(o) + (*self).4.wire_bytes(o) + (*self).5.wire_bytes(o) + (*self).6.wire_bytes(o))) + (*self).7.wire_bytes(o) =~= start@ + ((*self).0.wire_bytes(o) + (*self).1.wire_bytes(o) + (*self).2.wire_bytes(o) + (*self).3.wire_bytes(o) + (*self).4.wire_bytes(o) + (*self).5.wire_bytes(o) + (*self).6.wire_bytes(o) + (*self).7.wire_bytes(o)));
                    lemma_prefix_chain(dst@, start@ + ((*self).0.wire_bytes(o) + (*self).1.wire_bytes(o) + (*self).2.wire_bytes(o) + (*self).3.wire_bytes(o) + (*self).4.wire_bytes(o) + (*self).5.wire_bytes(o) + (*self).6.wire_bytes(o)), start@ + ((*self).0.wire_bytes(o) + (*self).1.wire_bytes(o) + (*self).2.wire_bytes(o) + (*self).3.wire_bytes(o) + (*self).4.wire_bytes(o) + (*self).5.wire_bytes(o) + (*self).6.wire_bytes(o) + (*self).7.wire_bytes(o)));
                }
                return Err(e);
            },
        }
        proof {
            assert(dst@ =~= start@ + ((*self).0.wire_bytes(o) + (*self).1.wire_bytes(o) + (*self).2.wire_bytes(o) + (*self).3.wire_bytes(o) + (*self).4.wire_bytes(o) + (*self).5.wire_bytes(o) + (*self).6.wire_bytes(o)));
        }
        let ghost d7 = *dst;
        match self.7.pack_to(o, dst) {
            Ok(_) => {},
            Err(e) => {
                proof {
                    lemma_prefix_of_append(start@, (*self).0.wire_bytes(o) + (*self).1.wire_bytes(o) + (*self).2.wire_bytes(o) + (*self).3.wire_bytes(o) + (*self).4.wire_bytes(o) + (*self).5.wire_bytes(o) + (*self).6.wire_bytes(o));
                    lemma_prefix_chain(start@, d7@, dst@);
                    assert(d7@ + (*self).7.wire_bytes(o) =~= start@ + ((*self).0.wire_bytes(o) + (*self).1.wire_bytes(o) + (*self).2.wire_bytes(o) + (*self).3.wire_bytes(o) + (*self).4.wire_bytes(o) + (*self).5.wire_bytes(o) + (*self).6.wire_bytes(o) + (*self).7.wire_bytes(o)));
                }
                return Err(e);
            },
        }
        proof {
            assert(dst@ =~= start@ + ((*self).0.wire_bytes(o) + (*self).1.wire_bytes(o) + (*self).2.wire_bytes(o) + (*self).3.wire_bytes(o) + (*self).4.wire_bytes(o) + (*self).5.wire_bytes(o) + (*self).6.wire_bytes(o) + (*self).7.wire_bytes(o)));
        }
        Ok(())
    }
}

impl<T1: PackTo, T2: PackTo, T3: PackTo, T4: PackTo, T5: PackTo, T6: PackTo, T7: PackTo, T8: PackTo, T9: PackTo> PackTo for (T1, T2, T3, T4, T5, T6, T7, T8, T9) {
    open spec fn wire_width(self) -> nat {
        self.0.wire_width() + self.1.wire_width() + self.2.wire_width() + self.3.wire_width() + self.4.wire_width() + self.5.wire_width() + self.6.wire_width() + self.7.wire_width() + self.8.wire_width()
    }

    open spec fn wire_bytes(self, o: ByteOrder) -> Seq<u8> {
        self.0.wire_bytes(o) + self.1.wire_bytes(o) + self.2.wire_bytes(o) + self.3.wire_bytes(o) + self.4.wire_bytes(o) + self.5.wire_bytes(o) + self.6.wire_bytes(o) + self.7.wire_bytes(o) + self.8.wire_bytes(o)
    }

    proof fn lemma_wire_width(self, o: ByteOrder) {
        self.0.lemma_wire_width(o);
        self.1.lemma_wire_width(o);
        self.2.lemma_wire_width(o);
        self.3.lemma_wire_width(o);
        self.4.lemma_wire_width(o);
        self.5.lemma_wire_width(o);
        self.6.lemma_wire_width(o);
        self.7.lemma_wire_width(o);
        self.8.lemma_wire_width(o);
    }

    #[verifier::spinoff_prover]
    #[verifier::rlimit(100)]
    fn pack_to(&self, o: ByteOrder, dst: &mut Sink) -> (r: Result<(), PackError>) {
        let ghost start = *dst;
        let ghost d0 = *dst;
        match self.0.pack_to(o, dst) {
            Ok(_) => {},
            Err(e) => {
                proof {
                    lemma_prefix_chain(start@, d0@, dst@);
                    assert(d0@ + (*self).0.wire_bytes(o) =~= start@ + ((*self).0.wire_bytes(o)));
                    lemma_prefix_of_append(start@ + ((*self).0.wire_bytes(o)), (*self).1.wire_bytes(o));
                    assert((start@ + ((*self).0.wire_bytes(o))) + (*self).1.wire_bytes(o) =~= start@ + ((*self).0.wire_bytes(o) + (*self).1.wire_bytes(o)));
                    lemma_prefix_chain(dst@, start@ + ((*self).0.wire_bytes(o)), start@ + ((*self).0.wire_bytes(o) + (*self).1.wire_bytes(o)));
                    lemma_prefix_of_append(start@ + ((*self).0.wire_bytes(o) + (*self).1.wire_bytes(o)), (*self).2.wire_bytes(o));
                    assert((start@ + ((*self).0.wire_bytes(o) + (*self).1.wire_bytes(o))) + (*self).2.wire_bytes(o) =~= start@ + ((*self).0.wire_bytes(o) + (*self).1.wire_bytes(o) + (*self).2.wire_bytes(o)));
                    lemma_prefix_chain(dst@, start@ + ((*self).0.wire_bytes(o) + (*self).1.wire_bytes(o)), start@ + ((*self).0.wire_bytes(o) + (*self).1.wire_bytes(o) + (*self).2.wire_bytes(o)));
                    lemma_prefix_of_append(start@ + ((*self).0.wire_bytes(o) + (*self).1.wire_bytes(o) + (*self).2.wire_bytes(o)), (*self).3.wire_bytes(o));
                    assert((start@ + ((*self).0.wire_bytes(o) + (*self).1.wire_bytes(o) + (*self).2.wire_bytes(o))) + (*self).3.wire_bytes(o) =~= start@ + ((*self).0.wire_bytes(o) + (*self).1.wire_bytes(o) + (*self).2.wire_bytes(o) + (*self).3.wire_bytes(o)));
                    lemma_prefix_chain(dst@, start@ + ((*self).0.wire_bytes(o) + (*self).1.wire_bytes(o) + (*self).2.wire_bytes(o)), start@ + ((*self).0.wire_bytes(o) + (*self).1.wire_bytes(o) + (*self).2.wire_bytes(o) + (*self).3.wire_bytes(o)));
                    lemma_prefix_of_append(start@ + ((*self).0.wire_bytes(o) + (*self).1.wire_bytes(o) + (*self).2.wire_bytes(o) + (*self).3.wire_bytes(o)), (*self).4.wire_bytes(o));
                    assert((start@ + ((*self).0.wire_bytes(o) + (*self).1.wire_bytes(o) + (*self).2.wire_bytes(o) + (*self).3.wire_bytes(o))) + (*self).4.wire_bytes(o) =~= start@ + ((*self).0.wire_bytes(o) + (*self).1.wire_bytes(o) + (*self).2.wire_bytes(o) + (*self).3.wire_bytes(o) + (*self).4.wire_bytes(o)));
                    lemma_prefix_chain(dst@, start@ + ((*self).0.wire_bytes(o) + (*self).1.wire_bytes(o) + (*self).2.wire_bytes(o) + (*self).3.wire_bytes(o)), start@ + ((*self).0.wire_bytes(o) + (*self).1.wire_bytes(o) + (*self).2.wire_bytes(o) + (*self).3.wire_bytes(o) + (*self).4.wire_bytes(o)));
                    lemma_prefix_of_append(start@ + ((*self).0.wire_bytes(o) + (*self).1.wire_bytes(o) + (*self).2.wire_bytes(o) + (*self).3.wire_bytes(o) + (*self).4.wire_bytes(o)), (*self).5.wire_bytes(o));
                    assert((start@ + ((*self).0.wire_bytes(o) + (*self).1.wire_bytes(o) + (*self).2.wire_bytes(o) + (*self).3.wire_bytes(o) + (*self).4.wire_bytes(o))) + (*self).5.wire_bytes(o) =~= start@ + ((*self).0.wire_bytes(o) + (*self).1.wire_bytes(o) + (*self).2.wire_bytes(o) + (*self).3.wire_bytes(o) + (*self).4.wire_bytes(o) + (*self).5.wire_bytes(o)));
                    lemma_prefix_chain(dst@, start@ + ((*self).0.wire_bytes(o) + (*self).1.wire_bytes(o) + (*self).2.wire_bytes(o) + (*self).3.wire_bytes(o) + (*self).4.wire_bytes(o)), start@ + ((*self).0.wire_bytes(o) + (*self).1.wire_bytes(o) + (*self).2.wire_bytes(o) + (*self).3.wire_bytes(o) + (*self).4.wire_bytes(o) + (*self).5.wire_bytes(o)));
                    lemma_prefix_of_append(start@ + ((*self).0.wire_bytes(o) + (*self).1.wire_bytes(o) + (*self).2.wire_bytes(o) + (*self).3.wire_bytes(o) + (*self).4.wire_bytes(o) + (*self).5.wire_bytes(o)), (*self).6.wire_bytes(o));
                    assert((start@ + ((*self).0.wire_bytes(o) + (*self).1.wire_bytes(o) + (*self).2.wire_bytes(o) + (*self).3.wire_bytes(o) + (*self).4.wire_bytes(o) + (*self).5.wire_bytes(o))) + (*self).6.wire_bytes(o) =~= start@ + ((*self).0.wire_bytes(o) + (*self).1.wire_bytes(o) + (*self).2.wire_bytes(o) + (*self).3.wire_bytes(o) + (*self).4.wire_bytes(o) + (*self).5.wire_bytes(o) + (*self).6.wire_bytes(o)));
                    lemma_prefix_chain(dst@, start@ + ((*self).0.wire_bytes(o) + (*self).1.wire_bytes(o) + (*self).2.wire_bytes(o) + (*self).3.wire_bytes(o) + (*self).4.wire_bytes(o) + (*self).5.wire_bytes(o)), start@ + ((*self).0.wire_bytes(o) + (*self).1.wire_bytes(o) + (*self).2.wire_bytes(o) + (*self).3.wire_bytes(o) + (*self).4.wire_bytes(o) + (*self).5.wire_bytes(o) + (*self).6.wire_bytes(o)));
                    lemma_prefix_of_append(start@ + ((*self).0.wire_bytes(o) + (*self).1.wire_bytes(o) + (*self).2.wire_bytes(o) + (*self).3.wire_bytes(o) + (*self).4.wire_bytes(o) + (*self).5.wire_bytes(o) + (*self).6.wire_bytes(o)), (*self).7.wire_bytes(o));
                    assert((start@ + ((*self).0.wire_bytes(o) + (*self).1.wire_bytes(o) + (*self).2.wire_bytes(o) + (*self).3.wire_bytes(o) + (*self).4.wire_bytes(o) + (*self).5.wire_bytes(o) + (*self).6.wire_bytes(o))) + (*self).7.wire_bytes(o) =~= start@ + ((*self).0.wire_bytes(o) + (*self).1.wire_bytes(o) + (*self).2.wire_bytes(o) + (*self).3.wire_bytes(o) + (*self).4.wire_bytes(o) + (*self).5.wire_bytes(o) + (*self).6.wire_bytes(o) + (*self).7.wire_bytes(o)));
                    lemma_prefix_chain(dst@, start@ + ((*self).0.wire_bytes(o) + (*self).1.wire_bytes(o) + (*self).2.wire_bytes(o) + (*self).3.wire_bytes(o) + (*self).4.wire_bytes(o) + (*self).5.wire_bytes(o) + (*self).6.wire_bytes(o)), start@ + ((*self).0.wire_bytes(o) + (*self).1.wire_bytes(o) + (*self).2.wire_bytes(o) + (*self).3.wire_bytes(o) + (*self).4.wire_bytes(o) + (*self).5.wire_bytes(o) + (*self).6.wire_bytes(o) + (*self).7.wire_bytes(o)));
                    lemma_prefix_of_append(start@ + ((*self).0.wire_bytes(o) + (*self).1.wire_bytes(o) + (*self).2.wire_bytes(o) + (*self).3.wire_bytes(o) + (*self).4.wire_bytes(o) + (*self).5.wire_bytes(o) + (*self).6.wire_bytes(o) + (*self).7.wire_bytes(o)), (*self).8.wire_bytes(o));
                    assert((start@ + ((*self).0.wire_bytes(o) + (*self).1.wire_bytes(o) + (*self).2.wire_bytes(o) + (*self).3.wire_bytes(o) + (*self).4.wire_bytes(o) + (*self).5.wire_bytes(o) + (*self).6.wire_bytes(o) + (*self).7.wire_bytes(o))) + (*self).8.wire_bytes(o) =~= start@ + ((*self).0.wire_bytes(o) + (*self).1.wire_bytes(o) + (*self).2.wire_bytes(o) + (*self).3.wire_bytes(o) + (*self).4.wire_bytes(o) + (*self).5.wire_bytes(o) + (*self).6.wire_bytes(o) + (*self).7.wire_bytes(o) + (*self).8.wire_bytes(o)));
                    lemma_prefix_chain(dst@, start@ + ((*self).0.wire_bytes(o) + (*self).1.wire_bytes(o) + (*self).2.wire_bytes(o) + (*self).3.wire_bytes(o) + (*self).4.wire_bytes(o) + (*self).5.wire_bytes(o) + (*self).6.wire_bytes(o) + (*self).7.wire_bytes(o)), start@ + ((*self).0.wire_bytes(o) + (*self).1.wire_bytes(o) + (*self).2.wire_bytes(o) + (*self).3.wire_bytes(o) + (*self).4.wire_bytes(o) + (*self).5.wire_bytes(o) + (*self).6.wire_bytes(o) + (*self).7.wire_bytes(o) + (*self).8.wire_bytes(o)));
                }
                return Err(e);
            },
        }
        proof {
            assert(dst@ =~= start@ + ((*self).0.wire_bytes(o)));
        }
        let ghost d1 = *dst;
        match self.1.pack_to(o, dst) {
            Ok(_) => {},
            Err(e) => {
                proof {
                    lemma_prefix_of_append(start@, (*self).0.wire_bytes(o));
                    lemma_prefix_chain(start@, d1@, dst@);
                    assert(d1@ + (*self).1.wire_bytes(o) =~= start@ + ((*self).0.wire_bytes(o) + (*self).1.wire_bytes(o)));
                    lemma_prefix_of_append(start@ + ((*self).0.wire_bytes(o) + (*self).1.wire_bytes(o)), (*self).2.wire_bytes(o));
                    assert((start@ + ((*self).0.wire_bytes(o) + (*self).1.wire_bytes(o))) + (*self).2.wire_bytes(o) =~= start@ + ((*self).0.wire_bytes(o) + (*self).1.wire_bytes(o) + (*self).2.wire_bytes(o)));
                    lemma_prefix_chain(dst@, start@ + ((*self).0.wire_bytes(o) + (*self).1.wire_bytes(o)), start@ + ((*self).0.wire_bytes(o) + (*self).1.wire_bytes(o) + (*self).2.wire_bytes(o)));
                    lemma_prefix_of_append(start@ + ((*self).0.wire_bytes(o) + (*self).1.wire_bytes(o) + (*self).2.wire_bytes(o)), (*self).3.wire_bytes(o));
                    assert((start@ + ((*self).0.wire_bytes(o) + (*self).1.wire_bytes(o) + (*self).2.wire_bytes(o))) + (*self).3.wire_bytes(o) =~= start@ + ((*self).0.wire_bytes(o) + (*self).1.wire_bytes(o) + (*self).2.wire_bytes(o) + (*self).3.wire_bytes(o)));
                    lemma_prefix_chain(dst@, start@ + ((*self).0.wire_bytes(o) + (*self).1.wire_bytes(o) + (*self).2.wire_bytes(o)), start@ + ((*self).0.wire_bytes(o) + (*self).1.wire_bytes(o) + (*self).2.wire_bytes(o) + (*self).3.wire_bytes(o)));
                    lemma_prefix_of_append(start@ + ((*self).0.wire_bytes(o) + (*self).1.wire_bytes(o) + (*self).2.wire_bytes(o) + (*self).3.wire_bytes(o)), (*self).4.wire_bytes(o));
                    assert((start@ + ((*self).0.wire_bytes(o) + (*self).1.wire_bytes(o) + (*self).2.wire_bytes(o) + (*self).3.wire_bytes(o))) + (*self).4.wire_bytes(o) =~= start@ + ((*self).0.wire_bytes(o) + (*self).1.wire_bytes(o) + (*self).2.wire_bytes(o) + (*self).3.wire_bytes(o) + (*self).4.wire_bytes(o)));
                    lemma_prefix_chain(dst@, start@ + ((*self).0.wire_bytes(o) + (*self).1.wire_bytes(o) + (*self).2.wire_bytes(o) + (*self).3.wire_bytes(o)), start@ + ((*self).0.wire_bytes(o) + (*self).1.wire_bytes(o) + (*self).2.wire_bytes(o) + (*self).3.wire_bytes(o) + (*self).4.wire_bytes(o)));
                    lemma_prefix_of_append(start@ + ((*self).0.wire_bytes(o) + (*self).1.wire_bytes(o) + (*self).2.wire_bytes(o) + (*self).3.wire_bytes(o) + (*self).4.wire_bytes(o)), (*self).5.wire_bytes(o));
                    assert((start@ + ((*self).0.wire_bytes(o) + (*self).1.wire_bytes(o) + (*self).2.wire_bytes(o) + (*self).3.wire_bytes(o) + (*self).4.wire_bytes(o))) + (*self).5.wire_bytes(o) =~= start@ + ((*self).0.wire_bytes(o) + (*self).1.wire_bytes(o) + (*self).2.wire_bytes(o) + (*self).3.wire_bytes(o) + (*self).4.wire_bytes(o) + (*self).5.wire_bytes(o)));
                    lemma_prefix_chain(dst@, start@ + ((*self).0.wire_bytes(o) + (*self).1.wire_bytes(o) + (*self).2.wire_bytes(o) + (*self).3.wire_bytes(o) + (*self).4.wire_bytes(o)), start@ + ((*self).0.wire_bytes(o) + (*self).1.wire_bytes(o) + (*self).2.wire_bytes(o) + (*self).3.wire_bytes(o) + (*self).4.wire_bytes(o) + (*self).5.wire_bytes(o)));
                    lemma_prefix_of_append(start@ + ((*self).0.wire_bytes(o) + (*self).1.wire_bytes(o) + (*self).2.wire_bytes(o) + (*self).3.wire_bytes(o) + (*self).4.wire_bytes(o) + (*self).5.wire_bytes(o)), (*self).6.wire_bytes(o));
                    assert((start@ + ((*self).0.wire_bytes(o) + (*self).1.wire_bytes(o) + (*self).2.wire_bytes(o) + (*self).3.wire_bytes(o) + (*self).4.wire_bytes(o) + (*self).5.wire_bytes(o))) + (*self).6.wire_bytes(o) =~= start@ + ((*self).0.wire_bytes(o) + (*self).1.wire_bytes(o) + (*self).2.wire_bytes(o) + (*self).3.wire_bytes(o) + (*self).4.wire_bytes(o) + (*self).5.wire_bytes(o) + (*self).6.wire_bytes(o)));
                    lemma_prefix_chain(dst@, start@ + ((*self).0.wire_bytes(o) + (*self).1.wire_bytes(o) + (*self).2.wire_bytes(o) + (*self).3.wire_bytes(o) + (*self).4.wire_bytes(o) + (*self).5.wire_bytes(o)), start@ + ((*self).0.wire_bytes(o) + (*self).1.wire_bytes(o) + (*self).2.wire_bytes(o) + (*self).3.wire_bytes(o) + (*self).4.wire_bytes(o) + (*self).5.wire_bytes(o) + (*self).6.wire_bytes(o)));
                    lemma_prefix_of_append(start@ + ((*self).0.wire_bytes(o) + (*self).1.wire_bytes(o) + (*self).2.wire_bytes(o) + (*self).3.wire_bytes(o) + (*self).4.wire_bytes(o) + (*self).5.wire_bytes(o) + (*self).6.wire_bytes(o)), (*self).7.wire_bytes(o));
                    assert((start@ + ((*self).0.wire_bytes(o) + (*self).1.wire_bytes(o) + (*self).2.wire_bytes(o) + (*self).3.wire_bytes(o) + (*self).4.wire_bytes(o) + (*self).5.wire_bytes(o) + (*self).6.wire_bytes(o))) + (*self).7.wire_bytes(o) =~= start@ + ((*self).0.wire_bytes(o) + (*self).1.wire_bytes(o) + (*self).2.wire_bytes(o) + (*self).3.wire_bytes(o) + (*self).4.wire_bytes(o) + (*self).5.wire_bytes(o) + (*self).6.wire_bytes(o) + (*self).7.wire_bytes(o)));
                    lemma_prefix_chain(dst@, start@ + ((*self).0.wire_bytes(o) + (*self).1.wire_bytes(o) + (*self).2.wire_bytes(o) + (*self).3.wire_bytes(o) + (*self).4.wire_bytes(o) + (*self).5.wire_bytes(o) + (*self).6.wire_bytes(o)), start@ + ((*self).0.wire_bytes(o) + (*self).1.wire_bytes(o) + (*self).2.wire_bytes(o) + (*self).3.wire_bytes(o) + (*self).4.wire_bytes(o) + (*self).5.wire_bytes(o) + (*self).6.wire_bytes(o) + (*self).7.wire_bytes(o)));
                    lemma_prefix_of_append(start@ + ((*self).0.wire_bytes(o) + (*self).1.wire_bytes(o) + (*self).2.wire_bytes(o) + (*self).3.wire_bytes(o) + (*self).4.wire_bytes(o) + (*self).5.wire_bytes(o) + (*self).6.wire_bytes(o) + (*self).7.wire_bytes(o)), (*self).8.wire_bytes(o));
                    assert((start@ + ((*self).0.wire_bytes(o) + (*self).1.wire_bytes(o) + (*self).2.wire_bytes(o) + (*self).3.wire_bytes(o) + (*self).4.wire_bytes(o) + (*self).5.wire_bytes(o) + (*self).6.wire_bytes(o) + (*self).7.wire_bytes(o))) + (*self).8.wire_bytes(o) =~= start@ + ((*self).0.wire_bytes(o) + (*self).1.wire_bytes(o) + (*self).2.wire_bytes(o) + (*self).3.wire_bytes(o) + (*self).4.wire_bytes(o) + (*self).5.wire_bytes(o) + (*self).6.wire_bytes(o) + (*self).7.wire_bytes(o) + (*self).8.wire_bytes(o)));
                    lemma_prefix_chain(dst@, start@ + ((*self).0.wire_bytes(o) + (*self).1.wire_bytes(o) + (*self).2.wire_bytes(o) + (*self).3.wire_bytes(o) + (*self).4.wire_bytes(o) + (*self).5.wire_bytes(o) + (*self).6.wire_bytes(o) + (*self).7.wire_bytes(o)), start@ + ((*self).0.wire_bytes(o) + (*self).1.wire_bytes(o) + (*self).2.wire_bytes(o) + (*self).3.wire_bytes(o) + (*self).4.wire_bytes(o) + (*self).5.wire_bytes(o) + (*self).6.wire_bytes(o) + (*self).7.wire_bytes(o) + (*self).8.wire_bytes(o)));
                }
                return Err(e);
            },
        }
        proof {
            assert(dst@ =~= start@ + ((*self).0.wire_bytes(o) + (*self).1.wire_bytes(o)));
        }
        let ghost d2 = *dst;
        match self.2.pack_to(o, dst) {
            Ok(_) => {},
            Err(e) => {
                proof {
                    lemma_prefix_of_append(start@, (*self).0.wire_bytes(o) + (*self).1.wire_bytes(o));
                    lemma_prefix_chain(start@, d2@, dst@);
                    assert(d2@ + (*self).2.wire_bytes(o) =~= start@ + ((*self).0.wire_bytes(o) + (*self).1.wire_bytes(o) + (*self).2.wire_bytes(o)));
                    lemma_prefix_of_append(start@ + ((*self).0.wire_bytes(o) + (*self).1.wire_bytes(o) + (*self).2.wire_bytes(o)), (*self).3.wire_bytes(o));
                    assert((start@ + ((*self).0.wire_bytes(o) + (*self).1.wire_bytes(o) + (*self).2.wire_bytes(o))) + (*self).3.wire_bytes(o) =~= start@ + ((*self).0.wire_bytes(o) + (*self).1.wire_bytes(o) + (*self).2.wire_bytes(o) + (*self).3.wire_bytes(o)));
                    lemma_prefix_chain(dst@, start@ + ((*self).0.wire_bytes(o) + (*self).1.wire_bytes(o) + (*self).2.wire_bytes(o)), start@ + ((*self).0.wire_bytes(o) + (*self).1.wire_bytes(o) + (*self).2.wire_bytes(o) + (*self).3.wire_bytes(o)));
                    lemma_prefix_of_append(start@ + ((*self).0.wire_bytes(o) + (*self).1.wire_bytes(o) + (*self).2.wire_bytes(o) + (*self).3.wire_bytes(o)), (*self).4.wire_bytes(o));
                    assert((start@ + ((*self).0.wire_bytes(o) + (*self).1.wire_bytes(o) + (*self).2.wire_bytes(o) + (*self).3.wire_bytes(o))) + (*self).4.wire_bytes(o) =~= start@ + ((*self).0.wire_bytes(o) + (*self).1.wire_bytes(o) + (*self).2.wire_bytes(o) + (*self).3.wire_bytes(o) + (*self).4.wire_bytes(o)));
                    lemma_prefix_chain(dst@, start@ + ((*self).0.wire_bytes(o) + (*self).1.wire_bytes(o) + (*self).2.wire_bytes(o) + (*self).3.wire_bytes(o)), start@ + ((*self).0.wire_bytes(o) + (*self).1.wire_bytes(o) + (*self).2.wire_bytes(o) + (*self).3.wire_bytes(o) + (*self).4.wire_bytes(o)));
                    lemma_prefix_of_append(start@ + ((*self).0.wire_bytes(o) + (*self).1.wire_bytes(o) + (*self).2.wire_bytes(o) + (*self).3.wire_bytes(o) + (*self).4.wire_bytes(o)), (*self).5.wire_bytes(o));
                    assert((start@ + ((*self).0.wire_bytes(o) + (*self).1.wire_bytes(o) + (*self).2.wire_bytes(o) + (*self).3.wire_bytes(o) + (*self).4.wire_bytes(o))) + (*self).5.wire_bytes(o) =~= start@ + ((*self).0.wire_bytes(o) + (*self).1.wire_bytes(o) + (*self).2.wire_bytes(o) + (*self).3.wire_bytes(o) + (*self).4.wire_bytes(o) + (*self).5.wire_bytes(o)));
                    lemma_prefix_chain(dst@, start@ + ((*self).0.wire_bytes(o) + (*self).1.wire_bytes(o) + (*self).2.wire_bytes(o) + (*self).3.wire_bytes(o) + (*self).4.wire_bytes(o)), start@ + ((*self).0.wire_bytes(o) + (*self).1.wire_bytes(o) + (*self).2.wire_bytes(o) + (*self).3.wire_bytes(o) + (*self).4.wire_bytes(o) + (*self).5.wire_bytes(o)));
                    lemma_prefix_of_append(start@ + ((*self).0.wire_bytes(o) + (*self).1.wire_bytes(o) + (*self).2.wire_bytes(o) + (*self).3.wire_bytes(o) + (*self).4.wire_bytes(o) + (*self).5.wire_bytes(o)), (*self).6.wire_bytes(o));
                    assert((start@ + ((*self).0.wire_bytes(o) + (*self).1.wire_bytes(o) + (*self).2.wire_bytes(o) + (*self).3.wire_bytes(o) + (*self).4.wire_bytes(o) + (*self).5.wire_bytes(o))) + (*self).6.wire_bytes(o) =~= start@ + ((*self).0.wire_bytes(o) + (*self).1.wire_bytes(o) + (*self).2.wire_bytes(o) + (*self).3.wire_bytes(o) + (*self).4.wire_bytes(o) + (*self).5.wire_bytes(o) + (*self).6.wire_bytes(o)));
                    lemma_prefix_chain(dst@, start@ + ((*self).0.wire_bytes(o) + (*self).1.wire_bytes(o) + (*self).2.wire_bytes(o) + (*self).3.wire_bytes(o) + (*self).4.wire_bytes(o) + (*self).5.wire_bytes(o)), start@ + ((*self).0.wire_bytes(o) + (*self).1.wire_bytes(o) + (*self).2.wire_bytes(o) + (*self).3.wire_bytes(o) + (*self).4.wire_bytes(o) + (*self).5.wire_bytes(o) + (*self).6.wire_bytes(o)));
                    lemma_prefix_of_append(start@ + ((*self).0.wire_bytes(o) + (*self).1.wire_bytes(o) + (*self).2.wire_bytes(o) + (*self).3.wire_bytes(o) + (*self).4.wire_bytes(o) + (*self).5.wire_bytes(o) + (*self).6.wire_bytes(o)), (*self).7.wire_bytes(o));
                    assert((start@ + ((*self).0.wire_bytes(o) + (*self).1.wire_bytes(o) + (*self).2.wire_bytes(o) + (*self).3.wire_bytes(o) + (*self).4.wire_bytes(o) + (*self).5.wire_bytes(o) + (*self).6.wire_bytes(o))) + (*self).7.wire_bytes(o) =~= start@ + ((*self).0.wire_bytes(o) + (*self).1.wire_bytes(o) + (*self).2.wire_bytes(o) + (*self).3.wire_bytes(o) + (*self).4.wire_bytes(o) + (*self).5.wire_bytes(o) + (*self).6.wire_bytes(o) + (*self).7.wire_bytes(o)));
                    lemma_prefix_chain(dst@, start@ + ((*self).0.wire_bytes(o) + (*self).1.wire_bytes(o) + (*self).2.wire_bytes(o) + (*self).3.wire_bytes(o) + (*self).4.wire_bytes(o) + (*self).5.wire_bytes(o) + (*self).6.wire_bytes(o)), start@ + ((*self).0.wire_bytes(o) + (*self).1.wire_bytes(o) + (*self).2.wire_bytes(o) + (*self).3.wire_bytes(o) + (*self).4.wire_bytes(o) + (*self).5.wire_bytes(o) + (*self).6.wire_bytes(o) + (*self).7.wire_bytes(o)));
                    lemma_prefix_of_append(start@ + ((*self).0.wire_bytes(o) + (*self).1.wire_bytes(o) + (*self).2.wire_bytes(o) + (*self).3.wire_bytes(o) + (*self).4.wire_bytes(o) + (*self).5.wire_bytes(o) + (*self).6.wire_bytes(o) + (*self).7.wire_bytes(o)), (*self).8.wire_bytes(o));
                    assert((start@ + ((*self).0.wire_bytes(o) + (*self).1.wire_bytes(o) + (*self).2.wire_bytes(o) + (*self).3.wire_bytes(o) + (*self).4.wire_bytes(o) + (*self).5.wire_bytes(o) + (*self).6.wire_bytes(o) + (*self).7.wire_bytes(o))) + (*self).8.wire_bytes(o) =~= start@ + ((*self).0.wire_bytes(o) + (*self).1.wire_bytes(o) + (*self).2.wire_bytes(o) + (*self).3.wire_bytes(o) + (*self).4.wire_bytes(o) + (*self).5.wire_bytes(o) + (*self).6.wire_bytes(o) + (*self).7.wire_bytes(o) + (*self).8.wire_bytes(o)));
                    lemma_prefix_chain(dst@, start@ + ((*self).0.wire_bytes(o) + (*self).1.wire_bytes(o) + (*self).2.wire_bytes(o) + (*self).3.wire_bytes(o) + (*self).4.wire_bytes(o) + (*self).5.wire_bytes(o) + (*self).6.wire_bytes(o) + (*self).7.wire_bytes(o)), start@ + ((*self).0.wire_bytes(o) + (*self).1.wire_bytes(o) + (*self).2.wire_bytes(o) + (*self).3.wire_bytes(o) + (*self).4.wire_bytes(o) + (*self).5.wire_bytes(o) + (*self).6.wire_bytes(o) + (*self).7.wire_bytes(o) + (*self).8.wire_bytes(o)));
                }
                return Err(e);
            },
        }
        proof {
            assert(dst@ =~= start@ + ((*self).0.wire_bytes(o) + (*self).1.wire_bytes(o) + (*self).2.wire_bytes(o)));
        }
        let ghost d3 = *dst;
        match self.3.pack_to(o, dst) {
            Ok(_) => {},
            Err(e) => {
                proof {
                    lemma_prefix_of_append(start@, (*self).0.wire_bytes(o) + (*self).1.wire_bytes(o) + (*self).2.wire_bytes(o));
                    lemma_prefix_chain(start@, d3@, dst@);
                    assert(d3@ + (*self).3.wire_bytes(o) =~= start@ + ((*self).0.wire_bytes(o) + (*self).1.wire_bytes(o) + (*self).2.wire_bytes(o) + (*self).3.wire_bytes(o)));
                    lemma_prefix_of_append(start@ + ((*self).0.wire_bytes(o) + (*self).1.wire_bytes(o) + (*self).2.wire_bytes(o) + (*self).3.wire_bytes(o)), (*self).4.wire_bytes(o));
                    assert((start@ + ((*self).0.wire_bytes(o) + (*self).1.wire_bytes(o) + (*self).2.wire_bytes(o) + (*self).3.wire_bytes(o))) + (*self).4.wire_bytes(o) =~= start@ + ((*self).0.wire_bytes(o) + (*self).1.wire_bytes(o) + (*self).2.wire_bytes(o) + (*self).3.wire_bytes(o) + (*self).4.wire_bytes(o)));
                    lemma_prefix_chain(dst@, start@ + ((*self).0.wire_bytes(o) + (*self).1.wire_bytes(o) + (*self).2.wire_bytes(o) + (*self).3.wire_bytes(o)), start@ + ((*self).0.wire_bytes(o) + (*self).1.wire_bytes(o) + (*self).2.wire_bytes(o) + (*self).3.wire_bytes(o) + (*self).4.wire_bytes(o)));
                    lemma_prefix_of_append(start@ + ((*self).0.wire_bytes(o) + (*self).1.wire_bytes(o) + (*self).2.wire_bytes(o) + (*self).3.wire_bytes(o) + (*self).4.wire_bytes(o)), (*self).5.wire_bytes(o));
                    assert((start@ + ((*self).0.wire_bytes(o) + (*self).1.wire_bytes(o) + (*self).2.wire_bytes(o) + (*self).3.wire_bytes(o) + (*self).4.wire_bytes(o))) + (*self).5.wire_bytes(o) =~= start@ + ((*self).0.wire_bytes(o) + (*self).1.wire_bytes(o) + (*self).2.wire_bytes(o) + (*self).3.wire_bytes(o) + (*self).4.wire_bytes(o) + (*self).5.wire_bytes(o)));
                    lemma_prefix_chain(dst@, start@ + ((*self).0.wire_bytes(o) + (*self).1.wire_bytes(o) + (*self).2.wire_bytes(o) + (*self).3.wire_bytes(o) + (*self).4.wire_bytes(o)), start@ + ((*self).0.wire_bytes(o) + (*self).1.wire_bytes(o) + (*self).2.wire_bytes(o) + (*self).3.wire_bytes(o) + (*self).4.wire_bytes(o) + (*self).5.wire_bytes(o)));
                    lemma_prefix_of_append(start@ + ((*self).0.wire_bytes(o) + (*self).1.wire_bytes(o) + (*self).2.wire_bytes(o) + (*self).3.wire_bytes(o) + (*self).4.wire_bytes(o) + (*self).5.wire_bytes(o)), (*self).6.wire_bytes(o));
                    assert((start@ + ((*self).0.wire_bytes(o) + (*self).1.wire_bytes(o) + (*self).2.wire_bytes(o) + (*self).3.wire_bytes(o) + (*self).4.wire_bytes(o) + (*self).5.wire_bytes(o))) + (*self).6.wire_bytes(o) =~= start@ + ((*self).0.wire_bytes(o) + (*self).1.wire_bytes(o) + (*self).2.wire_bytes(o) + (*self).3.wire_bytes(o) + (*self).4.wire_bytes(o) + (*self).5.wire_bytes(o) + (*self).6.wire_bytes(o)));
                    lemma_prefix_chain(dst@, start@ + ((*self).0.wire_bytes(o) + (*self).1.wire_bytes(o) + (*self).2.wire_bytes(o) + (*self).3.wire_bytes(o) + (*self).4.wire_bytes(o) + (*self).5.wire_bytes(o)), start@ + ((*self).0.wire_bytes(o) + (*self).1.wire_bytes(o) + (*self).2.wire_bytes(o) + (*self).3.wire_bytes(o) + (*self).4.wire_bytes(o) + (*self).5.wire_bytes(o) + (*self).6.wire_bytes(o)));
                    lemma_prefix_of_append(start@ + ((*self).0.wire_bytes(o) + (*self).1.wire_bytes(o) + (*self).2.wire_bytes(o) + (*self).3.wire_bytes(o) + (*self).4.wire_bytes(o) + (*self).5.wire_bytes(o) + (*self).6.wire_bytes(o)), (*self).7.wire_bytes(o));
                    assert((start@ + ((*self).0.wire_bytes(o) + (*self).1.wire_bytes(o) + (*self).2.wire_bytes(o) + (*self).3.wire_bytes(o) + (*self).4.wire_bytes(o) + (*self).5.wire_bytes(o) + (*self).6.wire_bytes(o))) + (*self).7.wire_bytes(o) =~= start@ + ((*self).0.wire_bytes(o) + (*self).1.wire_bytes(o) + (*self).2.wire_bytes(o) + (*self).3.wire_bytes(o) + (*self).4.wire_bytes(o) + (*self).5.wire_bytes(o) + (*self).6.wire_bytes(o) + (*self).7.wire_bytes(o)));
                    lemma_prefix_chain(dst@, start@ + ((*self).0.wire_bytes(o) + (*self).1.wire_bytes(o) + (*self).2.wire_bytes(o) + (*self).3.wire_bytes(o) + (*self).4.wire_bytes(o) + (*self).5.wire_bytes(o) + (*self).6.wire_bytes(o)), start@ + ((*self).0.wire_bytes(o) + (*self).1.wire_bytes(o) + (*self).2.wire_bytes(o) + (*self).3.wire_bytes(o) + (*self).4.wire_bytes(o) + (*self).5.wire_bytes(o) + (*self).6.wire_bytes(o) + (*self).7.wire_bytes(o)));
                    lemma_prefix_of_append(start@ + ((*self).0.wire_bytes(o) + (*self).1.wire_bytes(o) + (*self).2.wire_bytes(o) + (*self).3.wire_bytes(o) + (*self).4.wire_bytes(o) + (*self).5.wire_bytes(o) + (*self).6.wire_bytes(o) + (*self).7.wire_bytes(o)), (*self).8.wire_bytes(o));
                    assert((start@ + ((*self).0.wire_bytes(o) + (*self).1.wire_bytes(o) + (*self).2.wire_bytes(o) + (*self).3.wire_bytes(o) + (*self).4.wire_bytes(o) + (*self).5.wire_bytes(o) + (*self).6.wire_bytes(o) + (*self).7.wire_bytes(o))) + (*self).8.wire_bytes(o) =~= start@ + ((*self).0.wire_bytes(o) + (*self).1.wire_bytes(o) + (*self).2.wire_bytes(o) + (*self).3.wire_bytes(o) + (*self).4.wire_bytes(o) + (*self).5.wire_bytes(o) + (*self).6.wire_bytes(o) + (*self).7.wire_bytes(o) + (*self).8.wire_bytes(o)));
                    lemma_prefix_chain(dst@, start@ + ((*self).0.wire_bytes(o) + (*self).1.wire_bytes(o) + (*self).2.wire_bytes(o) + (*self).3.wire_bytes(o) + (*self).4.wire_bytes(o) + (*self).5.wire_bytes(o) + (*self).6.wire_bytes(o) + (*self).7.wire_bytes(o)), start@ + ((*self).0.wire_bytes(o) + (*self).1.wire_bytes(o) + (*self).2.wire_bytes(o) + (*self).3.wire_bytes(o) + (*self).4.wire_bytes(o) + (*self).5.wire_bytes(o) + (*self).6.wire_bytes(o) + (*self).7.wire_bytes(o) + (*self).8.wire_bytes(o)));
                }
                return Err(e);
            },
        }
        proof {
            assert(dst@ =~= start@ + ((*self).0.wire_bytes(o) + (*self).1.wire_bytes(o) + (*self).2.wire_bytes(o) + (*self).3.wire_bytes(o)));
        }
        let ghost d4 = *dst;
        match self.4.pack_to(o, dst) {
            Ok(_) => {},
            Err(e) => {
                proof {
                    lemma_prefix_of_append(start@, (*self).0.wire_bytes(o) + (*self).1.wire_bytes(o) + (*self).2.wire_bytes(o) + (*self).3.wire_bytes(o));
                    lemma_prefix_chain(start@, d4@, dst@);
                    assert(d4@ + (*self).4.wire_bytes(o) =~= start@ + ((*self).0.wire_bytes(o) + (*self).1.wire_bytes(o) + (*self).2.wire_bytes(o) + (*self).3.wire_bytes(o) + (*self).4.wire_bytes(o)));
                    lemma_prefix_of_append(start@ + ((*self).0.wire_bytes(o) + (*self).1.wire_bytes(o) + (*self).2.wire_bytes(o) + (*self).3.wire_bytes(o) + (*self).4.wire_bytes(o)), (*self).5.wire_bytes(o));
                    assert((start@ + ((*self).0.wire_bytes(o) + (*self).1.wire_bytes(o) + (*self).2.wire_bytes(o) + (*self).3.wire_bytes(o) + (*self).4.wire_bytes(o))) + (*self).5.wire_bytes(o) =~= start@ + ((*self).0.wire_bytes(o) + (*self).1.wire_bytes(o) + (*self).2.wire_bytes(o) + (*self).3.wire_bytes(o) + (*self).4.wire_bytes(o) + (*self).5.wire_bytes(o)));
                    lemma_prefix_chain(dst@, start@ + ((*self).0.wire_bytes(o) + (*self).1.wire_bytes(o) + (*self).2.wire_bytes(o) + (*self).3.wire_bytes(o) + (*self).4.wire_bytes(o)), start@ + ((*self).0.wire_bytes(o) + (*self).1.wire_bytes(o) + (*self).2.wire_bytes(o) + (*self).3.wire_bytes(o) + (*self).4.wire_bytes(o) + (*self).5.wire_bytes(o)));
                    lemma_prefix_of_append(start@ + ((*self).0.wire_bytes(o) + (*self).1.wire_bytes(o) + (*self).2.wire_bytes(o) + (*self).3.wire_bytes(o) + (*self).4.wire_bytes(o) + (*self).5.wire_bytes(o)), (*self).6.wire_bytes(o));
                    assert((start@ + ((*self).0.wire_bytes(o) + (*self).1.wire_bytes(o) + (*self).2.wire_bytes(o) + (*self).3.wire_bytes(o) + (*self).4.wire_bytes(o) + (*self).5.wire_bytes(o))) + (*self).6.wire_bytes(o) =~= start@ + ((*self).0.wire_bytes(o) + (*self).1.wire_bytes(o) + (*self).2.wire_bytes(o) + (*self).3.wire_bytes(o) + (*self).4.wire_bytes(o) + (*self).5.wire_bytes(o) + (*self).6.wire_bytes(o)));
                    lemma_prefix_chain(dst@, start@ + ((*self).0.wire_bytes(o) + (*self).1.wire_bytes(o) + (*self).2.wire_bytes(o) + (*self).3.wire_bytes(o) + (*self).4.wire_bytes(o) + (*self).5.wire_bytes(o)), start@ + ((*self).0.wire_bytes(o) + (*self).1.wire_bytes(o) + (*self).2.wire_bytes(o) + (*self).3.wire_bytes(o) + (*self).4.wire_bytes(o) + (*self).5.wire_bytes(o) + (*self).6.wire_bytes(o)));
                    lemma_prefix_of_append(start@ + ((*self).0.wire_bytes(o) + (*self).1.wire_bytes(o) + (*self).2.wire_bytes(o) + (*self).3.wire_bytes(o) + (*self).4.wire_bytes(o) + (*self).5.wire_bytes(o) + (*self).6.wire_bytes(o)), (*self).7.wire_bytes(o));
                    assert((start@ + ((*self).0.wire_bytes(o) + (*self).1.wire_bytes(o) + (*self).2.wire_bytes(o) + (*self).3.wire_bytes(o) + (*self).4.wire_bytes(o) + (*self).5.wire_bytes(o) + (*self).6.wire_bytes(o))) + (*self).7.wire_bytes(o) =~= start@ + ((*self).0.wire_bytes(o) + (*self).1.wire_bytes(o) + (*self).2.wire_bytes(o) + (*self).3.wire_bytes(o) + (*self).4.wire_bytes(o) + (*self).5.wire_bytes(o) + (*self).6.wire_bytes(o) + (*self).7.wire_bytes(o)));
                    lemma_prefix_chain(dst@, start@ + ((*self).0.wire_bytes(o) + (*self).1.wire_bytes(o) + (*self).2.wire_bytes(o) + (*self).3.wire_bytes(o) + (*self).4.wire_bytes(o) + (*self).5.wire_bytes(o) + (*self).6.wire_bytes(o)), start@ + ((*self).0.wire_bytes(o) + (*self).1.wire_bytes(o) + (*self).2.wire_bytes(o) + (*self).3.wire_bytes(o) + (*self).4.wire_bytes(o) + (*self).5.wire_bytes(o) + (*self).6.wire_bytes(o) + (*self).7.wire_bytes(o)));
                    lemma_prefix_of_append(start@ + ((*self).0.wire_bytes(o) + (*self).1.wire_bytes(o) + (*self).2.wire_bytes(o) + (*self).3.wire_bytes(o) + (*self).4.wire_bytes(o) + (*self).5.wire_bytes(o) + (*self).6.wire_bytes(o) + (*self).7.wire_bytes(o)), (*self).8.wire_bytes(o));
                    assert((start@ + ((*self).0.wire_bytes(o) + (*self).1.wire_bytes(o) + (*self).2.wire_bytes(o) + (*self).3.wire_bytes(o) + (*self).4.wire_bytes(o) + (*self).5.wire_bytes(o) + (*self).6.wire_bytes(o) + (*self).7.wire_bytes(o))) + (*self).8.wire_bytes(o) =~= start@ + ((*self).0.wire_bytes(o) + (*self).1.wire_bytes(o) + (*self).2.wire_bytes(o) + (*self).3.wire_bytes(o) + (*self).4.wire_bytes(o) + (*self).5.wire_bytes(o) + (*self).6.wire_bytes(o) + (*self).7.wire_bytes(o) + (*self).8.wire_bytes(o)));
                    lemma_prefix_chain(dst@, start@ + ((*self).0.wire_bytes(o) + (*self).1.wire_bytes(o) + (*self).2.wire_bytes(o) + (*self).3.wire_bytes(o) + (*self).4.wire_bytes(o) + (*self).5.wire_bytes(o) + (*self).6.wire_bytes(o) + (*self).7.wire_bytes(o)), start@ + ((*self).0.wire_bytes(o) + (*self).1.wire_bytes(o) + (*self).2.wire_bytes(o) + (*self).3.wire_bytes(o) + (*self).4.wire_bytes(o) + (*self).5.wire_bytes(o) + (*self).6.wire_bytes(o) + (*self).7.wire_bytes(o) + (*self).8.wire_bytes(o)));
                }
                return Err(e);
            },
        }
        proof {
            assert(dst@ =~= start@ + ((*self).0.wire_bytes(o) + (*self).1.wire_bytes(o) + (*self).2.wire_bytes(o) + (*self).3.wire_bytes(o) + (*self).4.wire_bytes(o)));
        }
        let ghost d5 = *dst;
        match self.5.pack_to(o, dst) {
            Ok(_) => {},
            Err(e) => {
                proof {
                    lemma_prefix_of_append(start@, (*self).0.wire_bytes(o) + (*self).1.wire_bytes(o) + (*self).2.wire_bytes(o) + (*self).3.wire_bytes(o) + (*self).4.wire_bytes(o));
                    lemma_prefix_chain(start@, d5@, dst@);
                    assert(d5@ + (*self).5.wire_bytes(o) =~= start@ + ((*self).0.wire_bytes(o) + (*self).1.wire_bytes(o) + (*self).2.wire_bytes(o) + (*self).3.wire_bytes(o) + (*self).4.wire_bytes(o) + (*self).5.wire_bytes(o)));
                    lemma_prefix_of_append(start@ + ((*self).0.wire_bytes(o) + (*self).1.wire_bytes(o) + (*self).2.wire_bytes(o) + (*self).3.wire_bytes(o) + (*self).4.wire_bytes(o) + (*self).5.wire_bytes(o)), (*self).6.wire_bytes(o));
                    assert((start@ + ((*self).0.wire_bytes(o) + (*self).1.wire_bytes(o) + (*self).2.wire_bytes(o) + (*self).3.wire_bytes(o) + (*self).4.wire_bytes(o) + (*self).5.wire_bytes(o))) + (*self).6.wire_bytes(o) =~= start@ + ((*self).0.wire_bytes(o) + (*self).1.wire_bytes(o) + (*self).2.wire_bytes(o) + (*self).3.wire_bytes(o) + (*self).4.wire_bytes(o) + (*self).5.wire_bytes(o) + (*self).6.wire_bytes(o)));
                    lemma_prefix_chain(dst@, start@ + ((*self).0.wire_bytes(o) + (*self).1.wire_bytes(o) + (*self).2.wire_bytes(o) + (*self).3.wire_bytes(o) + (*self).4.wire_bytes(o) + (*self).5.wire_bytes(o)), start@ + ((*self).0.wire_bytes(o) + (*self).1.wire_bytes(o) + (*self).2.wire_bytes(o) + (*self).3.wire_bytes(o) + (*self).4.wire_bytes(o) + (*self).5.wire_bytes(o) + (*self).6.wire_bytes(o)));
                    lemma_prefix_of_append(start@ + ((*self).0.wire_bytes(o) + (*self).1.wire_bytes(o) + (*self).2.wire_bytes(o) + (*self).3.wire_bytes(o) + (*self).4.wire_bytes(o) + (*self).5.wire_bytes(o) + (*self).6.wire_bytes(o)), (*self).7.wire_bytes(o));
                    assert((start@ + ((*self).0.wire_bytes(o) + (*self).1.wire_bytes(o) + (*self).2.wire_bytes(o) + (*self).3.wire_bytes(o) + (*self).4.wire_bytes(o) + (*self).5.wire_bytes(o) + (*self).6.wire_bytes(o))) + (*self).7.wire_bytes(o) =~= start@ + ((*self).0.wire_bytes(o) + (*self).1.wire_bytes(o) + (*self).2.wire_bytes(o) + (*self).3.wire_bytes(o) + (*self).4.wire_bytes(o) + (*self).5.wire_bytes(o) + (*self).6.wire_bytes(o) + (*self).7.wire_bytes(o)));
                    lemma_prefix_chain(dst@, start@ + ((*self).0.wire_bytes(o) + (*self).1.wire_bytes(o) + (*self).2.wire_bytes(o) + (*self).3.wire_bytes(o) + (*self).4.wire_bytes(o) + (*self).5.wire_bytes(o) + (*self).6.wire_bytes(o)), start@ + ((*self).0.wire_bytes(o) + (*self).1.wire_bytes(o) + (*self).2.wire_bytes(o) + (*self).3.wire_bytes(o) + (*self).4.wire_bytes(o) + (*self).5.wire_bytes(o) + (*self).6.wire_bytes(o) + (*self).7.wire_bytes(o)));
                    lemma_prefix_of_append(start@ + ((*self).0.wire_bytes(o) + (*self).1.wire_bytes(o) + (*self).2.wire_bytes(o) + (*self).3.wire_bytes(o) + (*self).4.wire_bytes(o) + (*self).5.wire_bytes(o) + (*self).6.wire_bytes(o) + (*self).7.wire_bytes(o)), (*self).8.wire_bytes(o));
                    assert((start@ + ((*self).0.wire_bytes(o) + (*self).1.wire_bytes(o) + (*self).2.wire_bytes(o) + (*self).3.wire_bytes(o) + (*self).4.wire_bytes(o) + (*self).5.wire_bytes(o) + (*self).6.wire_bytes(o) + (*self).7.wire_bytes(o))) + (*self).8.wire_bytes(o) =~= start@ + ((*self).0.wire_bytes(o) + (*self).1.wire_bytes(o) + (*self).2.wire_bytes(o) + (*self).3.wire_bytes(o) + (*self).4.wire_bytes(o) + (*self).5.wire_bytes(o) + (*self).6.wire_bytes(o) + (*self).7.wire_bytes(o) + (*self).8.wire_bytes(o)));
                    lemma_prefix_chain(dst@, start@ + ((*self).0.wire_bytes(o) + (*self).1.wire_bytes(o) + (*self).2.wire_bytes(o) + (*self).3.wire_bytes(o) + (*self).4.wire_bytes(o) + (*self).5.wire_bytes(o) + (*self).6.wire_bytes(o) + (*self).7.wire_bytes(o)), start@ + ((*self).0.wire_bytes(o) + (*self).1.wire_bytes(o) + (*self).2.wire_bytes(o) + (*self).3.wire_bytes(o) + (*self).4.wire_bytes(o) + (*self).5.wire_bytes(o) + (*self).6.wire_bytes(o) + (*self).7.wire_bytes(o) + (*self).8.wire_bytes(o)));
                }
                return Err(e);
            },
        }
        proof {
            assert(dst@ =~= start@ + ((*self).0.wire_bytes(o) + (*self).1.wire_bytes(o) + (*self).2.wire_bytes(o) + (*self).3.wire_bytes(o) + (*self).4.wire_bytes(o) + (*self).5.wire_bytes(o)));
        }
        let ghost d6 = *dst;
        match self.6.pack_to(o, dst) {
            Ok(_) => {},
            Err(e) => {
                proof {
                    lemma_prefix_of_append(start@, (*self).0.wire_bytes(o) + (*self).1.wire_bytes(o) + (*self).2.wire_bytes(o) + (*self).3.wire_bytes(o) + (*self).4.wire_bytes(o) + (*self).5.wire_bytes(o));
                    lemma_prefix_chain(start@, d6@, dst@);
                    assert(d6@ + (*self).6.wire_bytes(o) =~= start@ + ((*self).0.wire_bytes(o) + (*self).1.wire_bytes(o) + (*self).2.wire_bytes(o) + (*self).3.wire_bytes(o) + (*self).4.wire_bytes(o) + (*self).5.wire_bytes(o) + (*self).6.wire_bytes(o)));
                    lemma_prefix_of_append(start@ + ((*self).0.wire_bytes(o) + (*self).1.wire_bytes(o) + (*self).2.wire_bytes(o) + (*self).3.wire_bytes(o) + (*self).4.wire_bytes(o) + (*self).5.wire_bytes(o) + (*self).6.wire_bytes(o)), (*self).7.wire_bytes(o));
                    assert((start@ + ((*self).0.wire_bytes(o) + (*self).1.wire_bytes(o) + (*self).2.wire_bytes(o) + (*self).3.wire_bytes(o) + (*self).4.wire_bytes(o) + (*self).5.wire_bytes(o) + (*self).6.wire_bytes(o))) + (*self).7.wire_bytes(o) =~= start@ + ((*self).0.wire_bytes(o) + (*self).1.wire_bytes(o) + (*self).2.wire_bytes(o) + (*self).3.wire_bytes(o) + (*self).4.wire_bytes(o) + (*self).5.wire_bytes(o) + (*self).6.wire_bytes(o) + (*self).7.wire_bytes(o)));
                    lemma_prefix_chain(dst@, start@ + ((*self).0.wire_bytes(o) + (*self).1.wire_bytes(o) + (*self).2.wire_bytes(o) + (*self).3.wire_bytes(o) + (*self).4.wire_bytes(o) + (*self).5.wire_bytes(o) + (*self).6.wire_bytes(o)), start@ + ((*self).0.wire_bytes(o) + (*self).1.wire_bytes(o) + (*self).2.wire_bytes(o) + (*self).3.wire_bytes(o) + (*self).4.wire_bytes(o) + (*self).5.wire_bytes(o) + (*self).6.wire_bytes(o) + (*self).7.wire_bytes(o)));
                    lemma_prefix_of_append(start@ + ((*self).0.wire_bytes(o) + (*self).1.wire_bytes(o) + (*self).2.wire_bytes(o) + (*self).3.wire_bytes(o) + (*self).4.wire_bytes(o) + (*self).5.wire_bytes(o) + (*self).6.wire_bytes(o) + (*self).7.wire_bytes(o)), (*self).8.wire_bytes(o));
                    assert((start@ + ((*self).0.wire_bytes(o) + (*self).1.wire_bytes(o) + (*self).2.wire_bytes(o) + (*self).3.wire_bytes(o) + (*self).4.wire_bytes(o) + (*self).5.wire_bytes(o) + (*self).6.wire_bytes(o) + (*self).7.wire_bytes(o))) + (*self).8.wire_bytes(o) =~= start@ + ((*self).0.wire_bytes(o) + (*self).1.wire_bytes(o) + (*self).2.wire_bytes(o) + (*self).3.wire_bytes(o) + (*self).4.wire_bytes(o) + (*self).5.wire_bytes(o) + (*self).6.wire_bytes(o) + (*self).7.wire_bytes(o) + (*self).8.wire_bytes(o)));
                    lemma_prefix_chain(dst@, start@ + ((*self).0.wire_bytes(o) + (*self).1.wire_bytes(o) + (*self).2.wire_bytes(o) + (*self).3.wire_bytes(o) + (*self).4.wire_bytes(o) + (*self).5.wire_bytes(o) + (*self).6.wire_bytes(o) + (*self).7.wire_bytes(o)), start@ + ((*self).0.wire_bytes(o) + (*self).1.wire_bytes(o) + (*self).2.wire_bytes(o) + (*self).3.wire_bytes(o) + (*self).4.wire_bytes(o) + (*self).5.wire_bytes(o) + (*self).6.wire_bytes(o) + (*self).7.wire_bytes(o) + (*self).8.wire_bytes(o)));
                }
                return Err(e);
            },
        }
        proof {
            assert(dst@ =~= start@ + ((*self).0.wire_bytes(o) + (*self).1.wire_bytes(o) + (*self).2.wire_bytes(o) + (*self).3.wire_bytes(o) + (*self).4.wire_bytes(o) + (*self).5.wire_bytes(o) + (*self).6.wire_bytes(o)));
        }
        let ghost d7 = *dst;
        match self.7.pack_to(o, dst) {
            Ok(_) => {},
            Err(e) => {
                proof {
                    lemma_prefix_of_append(start@, (*self).0.wire_bytes(o) + (*self).1.wire_bytes(o) + (*self).2.wire_bytes(o) + (*self).3.wire_bytes(o) + (*self).4.wire_bytes(o) + (*self).5.wire_bytes(o) + (*self).6.wire_bytes(o));
                    lemma_prefix_chain(start@, d7@, dst@);
                    assert(d7@ + (*self).7.wire_bytes(o) =~= start@ + ((*self).0.wire_bytes(o) + (*self).1.wire_bytes(o) + (*self).2.wire_bytes(o) + (*self).3.wire_bytes(o) + (*self).4.wire_bytes(o) + (*self).5.wire_bytes(o) + (*self).6.wire_bytes(o) + (*self).7.wire_bytes(o)));
                    lemma_prefix_of_append(start@ + ((*self).0.wire_bytes(o) + (*self).1.wire_bytes(o) + (*self).2.wire_bytes(o) + (*self).3.wire_bytes(o) + (*self).4.wire_bytes(o) + (*self).5.wire_bytes(o) + (*self).6.wire_bytes(o) + (*self).7.wire_bytes(o)), (*self).8.wire_bytes(o));
                    assert((start@ + ((*self).0.wire_bytes(o) + (*self).1.wire_bytes(o) + (*self).2.wire_bytes(o) + (*self).3.wire_bytes(o) + (*self).4.wire_bytes(o) + (*self).5.wire_bytes(o) + (*self).6.wire_bytes(o) + (*self).7.wire_bytes(o))) + (*self).8.wire_bytes(o) =~= start@ + ((*self).0.wire_bytes(o) + (*self).1.wire_bytes(o) + (*self).2.wire_bytes(o) + (*self).3.wire_bytes(o) + (*self).4.wire_bytes(o) + (*self).5.wire_bytes(o) + (*self).6.wire_bytes(o) + (*self).7.wire_bytes(o) + (*self).8.wire_bytes(o)));
                    lemma_prefix_chain(dst@, start@ + ((*self).0.wire_bytes(o) + (*self).1.wire_bytes(o) + (*self).2.wire_bytes(o) + (*self).3.wire_bytes(o) + (*self).4.wire_bytes(o) + (*self).5.wire_bytes(o) + (*self).6.wire_bytes(o) + (*self).7.wire_bytes(o)), start@ + ((*self).0.wire_bytes(o) + (*self).1.wire_bytes(o) + (*self).2.wire_bytes(o) + (*self).3.wire_bytes(o) + (*self).4.wire_bytes(o) + (*self).5.wire_bytes(o) + (*self).6.wire_bytes(o) + (*self).7.wire_bytes(o) + (*self).8.wire_bytes(o)));
                }
                return Err(e);
            },
        }
        proof {
            assert(dst@ =~= start@ + ((*self).0.wire_bytes(o) + (*self).1.wire_bytes(o) + (*self).2.wire_bytes(o) + (*self).3.wire_bytes(o) + (*self).4.wire_bytes(o) + (*self).5.wire_bytes(o) + (*self).6.wire_bytes(o) + (*self).7.wire_bytes(o)));
        }
        let ghost d8 = *dst;
        match self.8.pack_to(o, dst) {
            Ok(_) => {},
            Err(e) => {
                proof {
                    lemma_prefix_of_append(start@, (*self).0.wire_bytes(o) + (*self).1.wire_bytes(o) + (*self).2.wire_bytes(o) + (*self).3.wire_bytes(o) + (*self).4.wire_bytes(o) + (*self).5.wire_bytes(o) + (*self).6.wire_bytes(o) + (*self).7.wire_bytes(o));
                    lemma_prefix_chain(start@, d8@, dst@);
                    assert(d8@ + (*self).8.wire_bytes(o) =~= start@ + ((*self).0.wire_bytes(o) + (*self).1.wire_bytes(o) + (*self).2.wire_bytes(o) + (*self).3.wire_bytes(o) + (*self).4.wire_bytes(o) + (*self).5.wire_bytes(o) + (*self).6.wire_bytes(o) + (*self).7.wire_bytes(o) + (*self).8.wire_bytes(o)));
                }
                return Err(e);
            },
        }
        proof {
            assert(dst@ =~= start@ + ((*self).0.wire_bytes(o) + (*self).1.wire_bytes(o) + (*self).2.wire_bytes(o) + (*self).3.wire_bytes(o) + (*self).4.wire_bytes(o) + (*self).5.wire_bytes(o) + (*self).6.wire_bytes(o) + (*self).7.wire_bytes(o) + (*self).8.wire_bytes(o)));
        }
        Ok(())
    }
}

impl<T1: PackTo, T2: PackTo, T3: PackTo, T4: PackTo, T5: PackTo, T6: PackTo, T7: PackTo, T8: PackTo, T9: PackTo, T10: PackTo> PackTo for (T1, T2, T3, T4, T5, T6, T7, T8, T9, T10) {
    open spec fn wire_width(self) -> nat {
        self.0.wire_width() + self.1.wire_width() + self.2.wire_width() + self.3.wire_width() + self.4.wire_width() + self.5.wire_width() + self.6.wire_width() + self.7.wire_width() + self.8.wire_width() + self.9.wire_width()
    }

    open spec fn wire_bytes(self, o: ByteOrder) -> Seq<u8> {
        self.0.wire_bytes(o) + self.1.wire_bytes(o) + self.2.wire_bytes(o) + self.3.wire_bytes(o) + self.4.wire_bytes(o) + self.5.wire_bytes(o) + self.6.wire_bytes(o) + self.7.wire_bytes(o) + self.8.wire_bytes(o) + self.9.wire_bytes(o)
    }

    proof fn lemma_wire_width(self, o: ByteOrder) {
        self.0.lemma_wire_width(o);
        self.1.lemma_wire_width(o);
        self.2.lemma_wire_width(o);
        self.3.lemma_wire_width(o);
        self.4.lemma_wire_width(o);
        self.5.lemma_wire_width(o);
        self.6.lemma_wire_width(o);
        self.7.lemma_wire_width(o);
        self.8.lemma_wire_width(o);
        self.9.lemma_wire_width(o);
    }

    #[verifier::spinoff_prover]
    #[verifier::rlimit(100)]
    fn pack_to(&self, o: ByteOrder, dst: &mut Sink) -> (r: Result<(), PackError>) {
        let ghost start = *dst;
        let ghost d0 = *dst;
        match self.0.pack_to(o, dst) {
            Ok(_) => {},
            Err(e) => {
                proof {
                    lemma_prefix_chain(start@, d0@, dst@);
                    assert(d0@ + (*self).0.wire_bytes(o) =~= start@ + ((*self).0.wire_bytes(o)));
                    lemma_prefix_of_append(start@ + ((*self).0.wire_bytes(o)), (*self).1.wire_bytes(o));
                    assert((start@ + ((*self).0.wire_bytes(o))) + (*self).1.wire_bytes(o) =~= start@ + ((*self).0.wire_bytes(o) + (*self).1.wire_bytes(o)));
                    lemma_prefix_chain(dst@, start@ + ((*self).0.wire_bytes(o)), start@ + ((*self).0.wire_bytes(o) + (*self).1.wire_bytes(o)));
                    lemma_prefix_of_append(start@ + ((*self).0.wire_bytes(o) + (*self).1.wire_bytes(o)), (*self).2.wire_bytes(o));
                    assert((start@ + ((*self).0.wire_bytes(o) + (*self).1.wire_bytes(o))) + (*self).2.wire_bytes(o) =~= start@ + ((*self).0.wire_bytes(o) + (*self).1.wire_bytes(o) + (*self).2.wire_bytes(o)));
                    lemma_prefix_chain(dst@, start@ + ((*self).0.wire_bytes(o) + (*self).1.wire_bytes(o)), start@ + ((*self).0.wire_bytes(o) + (*self).1.wire_bytes(o) + (*self).2.wire_bytes(o)));
                    lemma_prefix_of_append(start@ + ((*self).0.wire_bytes(o) + (*self).1.wire_bytes(o) + (*self).2.wire_bytes(o)), (*self).3.wire_bytes(o));
                    assert((start@ + ((*self).0.wire_bytes(o) + (*self).1.wire_bytes(o) + (*self).2.wire_bytes(o))) + (*self).3.wire_bytes(o) =~= start@ + ((*self).0.wire_bytes(o) + (*self).1.wire_bytes(o) + (*self).2.wire_bytes(o) + (*self).3.wire_bytes(o)));
                    lemma_prefix_chain(dst@, start@ + ((*self).0.wire_bytes(o) + (*self).1.wire_bytes(o) + (*self).2.wire_bytes(o)), start@ + ((*self).0.wire_bytes(o) + (*self).1.wire_bytes(o) + (*self).2.wire_bytes(o) + (*self).3.wire_bytes(o)));
                    lemma_prefix_of_append(start@ + ((*self).0.wire_bytes(o) + (*self).1.wire_bytes(o) + (*self).2.wire_bytes(o) + (*self).3.wire_bytes(o)), (*self).4.wire_bytes(o));
                    assert((start@ + ((*self).0.wire_bytes(o) + (*self).1.wire_bytes(o) + (*self).2.wire_bytes(o) + (*self).3.wire_bytes(o))) + (*self).4.wire_bytes(o) =~= start@ + ((*self).0.wire_bytes(o) + (*self).1.wire_bytes(o) + (*self).2.wire_bytes(o) + (*self).3.wire_bytes(o) + (*self).4.wire_bytes(o)));
                    lemma_prefix_chain(dst@, start@ + ((*self).0.wire_bytes(o) + (*self).1.wire_bytes(o) + (*self).2.wire_bytes(o) + (*self).3.wire_bytes(o)), start@ + ((*self).0.wire_bytes(o) + (*self).1.wire_bytes(o) + (*self).2.wire_bytes(o) + (*self).3.wire_bytes(o) + (*self).4.wire_bytes(o)));
                    lemma_prefix_of_append(start@ + ((*self).0.wire_bytes(o) + (*self).1.wire_bytes(o) + (*self).2.wire_bytes(o) + (*self).3.wire_bytes(o) + (*self).4.wire_bytes(o)), (*self).5.wire_bytes(o));
                    assert((start@ + ((*self).0.wire_bytes(o) + (*self).1.wire_bytes(o) + (*self).2.wire_bytes(o) + (*self).3.wire_bytes(o) + (*self).4.wire_bytes(o))) + (*self).5.wire_bytes(o) =~= start@ + ((*self).0.wire_bytes(o) + (*self).1.wire_bytes(o) + (*self).2.wire_bytes(o) + (*self).3.wire_bytes(o) + (*self).4.wire_bytes(o) + (*self).5.wire_bytes(o)));
                    lemma_prefix_chain(dst@, start@ + ((*self).0.wire_bytes(o) + (*self).1.wire_bytes(o) + (*self).2.wire_bytes(o) + (*self).3.wire_bytes(o) + (*self).4.wire_bytes(o)), start@ + ((*self).0.wire_bytes(o) + (*self).1.wire_bytes(o) + (*self).2.wire_bytes(o) + (*self).3.wire_bytes(o) + (*self).4.wire_bytes(o) + (*self).5.wire_bytes(o)));
                    lemma_prefix_of_append(start@ + ((*self).0.wire_bytes(o) + (*self).1.wire_bytes(o) + (*self).2.wire_bytes(o) + (*self).3.wire_bytes(o) + (*self).4.wire_bytes(o) + (*self).5.wire_bytes(o)), (*self).6.wire_bytes(o));
                    assert((start@ + ((*self).0.wire_bytes(o) + (*self).1.wire_bytes(o) + (*self).2.wire_bytes(o) + (*self).3.wire_bytes(o) + (*self).4.wire_bytes(o) + (*self).5.wire_bytes(o))) + (*self).6.wire_bytes(o) =~= start@ + ((*self).0.wire_bytes(o) + (*self).1.wire_bytes(o) + (*self).2.wire_bytes(o) + (*self).3.wire_bytes(o) + (*self).4.wire_bytes(o) + (*self).5.wire_bytes(o) + (*self).6.wire_bytes(o)));
                    lemma_prefix_chain(dst@, start@ + ((*self).0.wire_bytes(o) + (*self).1.wire_bytes(o) + (*self).2.wire_bytes(o) + (*self).3.wire_bytes(o) + (*self).4.wire_bytes(o) + (*self).5.wire_bytes(o)), start@ + ((*self).0.wire_bytes(o) + (*self).1.wire_bytes(o) + (*self).2.wire_bytes(o) + (*self).3.wire_bytes(o) + (*self).4.wire_bytes(o) + (*self).5.wire_bytes(o) + (*self).6.wire_bytes(o)));
                    lemma_prefix_of_append(start@ + ((*self).0.wire_bytes(o) + (*self).1.wire_bytes(o) + (*self).2.wire_bytes(o) + (*self).3.wire_bytes(o) + (*self).4.wire_bytes(o) + (*self).5.wire_bytes(o) + (*self).6.wire_bytes(o)), (*self).7.wire_bytes(o));
                    assert((start@ + ((*self).0.wire_bytes(o) + (*self).1.wire_bytes(o) + (*self).2.wire_bytes(o) + (*self).3.wire_bytes(o) + (*self).4.wire_bytes(o) + (*self).5.wire_bytes(o) + (*self).6.wire_bytes(o))) + (*self).7.wire_bytes(o) =~= start@ + ((*self).0.wire_bytes(o) + (*self).1.wire_bytes(o) + (*self).2.wire_bytes(o) + (*self).3.wire_bytes(o) + (*self).4.wire_bytes(o) + (*self).5.wire_bytes(o) + (*self).6.wire_bytes(o) + (*self).7.wire_bytes(o)));
                    lemma_prefix_chain(dst@, start@ + ((*self).0.wire_bytes(o) + (*self).1.wire_bytes(o) + (*self).2.wire_bytes(o) + (*self).3.wire_bytes(o) + (*self).4.wire_bytes(o) + (*self).5.wire_bytes(o) + (*self).6.wire_bytes(o)), start@ + ((*self).0.wire_bytes(o) + (*self).1.wire_bytes(o) + (*self).2.wire_bytes(o) + (*self).3.wire_bytes(o) + (*self).4.wire_bytes(o) + (*self).5.wire_bytes(o) + (*self).6.wire_bytes(o) + (*self).7.wire_bytes(o)));
                    lemma_prefix_of_append(start@ + ((*self).0.wire_bytes(o) + (*self).1.wire_bytes(o) + (*self).2.wire_bytes(o) + (*self).3.wire_bytes(o) + (*self).4.wire_bytes(o) + (*self).5.wire_bytes(o) + (*self).6.wire_bytes(o) + (*self).7.wire_bytes(o)), (*self).8.wire_bytes(o));
                    assert((start@ + ((*self).0.wire_bytes(o) + (*self).1.wire_bytes(o) + (*self).2.wire_bytes(o) + (*self).3.wire_bytes(o) + (*self).4.wire_bytes(o) + (*self).5.wire_bytes(o) + (*self).6.wire_bytes(o) + (*self).7.wire_bytes(o))) + (*self).8.wire_bytes(o) =~= start@ + ((*self).0.wire_bytes(o) + (*self).1.wire_bytes(o) + (*self).2.wire_bytes(o) + (*self).3.wire_bytes(o) + (*self).4.wire_bytes(o) + (*self).5.wire_bytes(o) + (*self).6.wire_bytes(o) + (*self).7.wire_bytes(o) + (*self).8.wire_bytes(o)));
                    lemma_prefix_chain(dst@, start@ + ((*self).0.wire_bytes(o) + (*self).1.wire_bytes(o) + (*self).2.wire_bytes(o) + (*self).3.wire_bytes(o) + (*self).4.wire_bytes(o) + (*self).5.wire_bytes(o) + (*self).6.wire_bytes(o) + (*self).7.wire_bytes(o)), start@ + ((*self).0.wire_bytes(o) + (*self).1.wire_bytes(o) + (*self).2.wire_bytes(o) + (*self).3.wire_bytes(o) + (*self).4.wire_bytes(o) + (*self).5.wire_bytes(o) + (*self).6.wire_bytes(o) + (*self).7.wire_bytes(o) + (*self).8.wire_bytes(o)));
                    lemma_prefix_of_append(start@ + ((*self).0.wire_bytes(o) + (*self).1.wire_bytes(o) + (*self).2.wire_bytes(o) + (*self).3.wire_bytes(o) + (*self).4.wire_bytes(o) + (*self).5.wire_bytes(o) + (*self).6.wire_bytes(o) + (*self).7.wire_bytes(o) + (*self).8.wire_bytes(o)), (*self).9.wire_bytes(o));
                    assert((start@ + ((*self).0.wire_bytes(o) + (*self).1.wire_bytes(o) + (*self).2.wire_bytes(o) + (*self).3.wire_bytes(o) + (*self).4.wire_bytes(o) + (*self).5.wire_bytes(o) + (*self).6.wire_bytes(o) + (*self).7.wire_bytes(o) + (*self).8.wire_bytes(o))) + (*self).9.wire_bytes(o) =~= start@ + ((*self).0.wire_bytes(o) + (*self).1.wire_bytes(o) + (*self).2.wire_bytes(o) + (*self).3.wire_bytes(o) + (*self).4.wire_bytes(o) + (*self).5.wire_bytes(o) + (*self).6.wire_bytes(o) + (*self).7.wire_bytes(o) + (*self).8.wire_bytes(o) + (*self).9.wire_bytes(o)));
                    lemma_prefix_chain(dst@, start@ + ((*self).0.wire_bytes(o) + (*self).1.wire_bytes(o) + (*self).2.wire_bytes(o) + (*self).3.wire_bytes(o) + (*self).4.wire_bytes(o) + (*self).5.wire_bytes(o) + (*self).6.wire_bytes(o) + (*self).7.wire_bytes(o) + (*self).8.wire_bytes(o)), start@ + ((*self).0.wire_bytes(o) + (*self).1.wire_bytes(o) + (*self).2.wire_bytes(o) + (*self).3.wire_bytes(o) + (*self).4.wire_bytes(o) + (*self).5.wire_bytes(o) + (*self).6.wire_bytes(o) + (*self).7.wire_bytes(o) + (*self).8.wire_bytes(o) + (*self).9.wire_bytes(o)));
                }
                return Err(e);
            },
        }
        proof {
            assert(dst@ =~= start@ + ((*self).0.wire_bytes(o)));
        }
        let ghost d1 = *dst;
        match self.1.pack_to(o, dst) {
            Ok(_) => {},
            Err(e) => {
                proof {
                    lemma_prefix_of_append(start@, (*self).0.wire_bytes(o));
                    lemma_prefix_chain(start@, d1@, dst@);
                    assert(d1@ + (*self).1.wire_bytes(o) =~= start@ + ((*self).0.wire_bytes(o) + (*self).1.wire_bytes(o)));
                    lemma_prefix_of_append(start@ + ((*self).0.wire_bytes(o) + (*self).1.wire_bytes(o)), (*self).2.wire_bytes(o));
                    assert((start@ + ((*self).0.wire_bytes(o) + (*self).1.wire_bytes(o))) + (*self).2.wire_bytes(o) =~= start@ + ((*self).0.wire_bytes(o) + (*self).1.wire_bytes(o) + (*self).2.wire_bytes(o)));
                    lemma_prefix_chain(dst@, start@ + ((*self).0.wire_bytes(o) + (*self).1.wire_bytes(o)), start@ + ((*self).0.wire_bytes(o) + (*self).1.wire_bytes(o) + (*self).2.wire_bytes(o)));
                    lemma_prefix_of_append(start@ + ((*self).0.wire_bytes(o) + (*self).1.wire_bytes(o) + (*self).2.wire_bytes(o)), (*self).3.wire_bytes(o));
                    assert((start@ + ((*self).0.wire_bytes(o) + (*self).1.wire_bytes(o) + (*self).2.wire_bytes(o))) + (*self).3.wire_bytes(o) =~= start@ + ((*self).0.wire_bytes(o) + (*self).1.wire_bytes(o) + (*self).2.wire_bytes(o) + (*self).3.wire_bytes(o)));
                    lemma_prefix_chain(dst@, start@ + ((*self).0.wire_bytes(o) + (*self).1.wire_bytes(o) + (*self).2.wire_bytes(o)), start@ + ((*self).0.wire_bytes(o) + (*self).1.wire_bytes(o) + (*self).2.wire_bytes(o) + (*self).3.wire_bytes(o)));
                    lemma_prefix_of_append(start@ + ((*self).0.wire_bytes(o) + (*self).1.wire_bytes(o) + (*self).2.wire_bytes(o) + (*self).3.wire_bytes(o)), (*self).4.wire_bytes(o));
                    assert((start@ + ((*self).0.wire_bytes(o) + (*self).1.wire_bytes(o) + (*self).2.wire_bytes(o) + (*self).3.wire_bytes(o))) + (*self).4.wire_bytes(o) =~= start@ + ((*self).0.wire_bytes(o) + (*self).1.wire_bytes(o) + (*self).2.wire_bytes(o) + (*self).3.wire_bytes(o) + (*self).4.wire_bytes(o)));
                    lemma_prefix_chain(dst@, start@ + ((*self).0.wire_bytes(o) + (*self).1.wire_bytes(o) + (*self).2.wire_bytes(o) + (*self).3.wire_bytes(o)), start@ + ((*self).0.wire_bytes(o) + (*self).1.wire_bytes(o) + (*self).2.wire_bytes(o) + (*self).3.wire_bytes(o) + (*self).4.wire_bytes(o)));
                    lemma_prefix_of_append(start@ + ((*self).0.wire_bytes(o) + (*self).1.wire_bytes(o) + (*self).2.wire_bytes(o) + (*self).3.wire_bytes(o) + (*self).4.wire_bytes(o)), (*self).5.wire_bytes(o));
                    assert((start@ + ((*self).0.wire_bytes(o) + (*self).1.wire_bytes(o) + (*self).2.wire_bytes(o) + (*self).3.wire_bytes(o) + (*self).4.wire_bytes(o))) + (*self).5.wire_bytes(o) =~= start@ + ((*self).0.wire_bytes(o) + (*self).1.wire_bytes(o) + (*self).2.wire_bytes(o) + (*self).3.wire_bytes(o) + (*self).4.wire_bytes(o) + (*self).5.wire_bytes(o)));
                    lemma_prefix_chain(dst@, start@ + ((*self).0.wire_bytes(o) + (*self).1.wire_bytes(o) + (*self).2.wire_bytes(o) + (*self).3.wire_bytes(o) + (*self).4.wire_bytes(o)), start@ + ((*self).0.wire_bytes(o) + (*self).1.wire_bytes(o) + (*self).2.wire_bytes(o) + (*self).3.wire_bytes(o) + (*self).4.wire_bytes(o) + (*self).5.wire_bytes(o)));
                    lemma_prefix_of_append(start@ + ((*self).0.wire_bytes(o) + (*self).1.wire_bytes(o) + (*self).2.wire_bytes(o) + (*self).3.wire_bytes(o) + (*self).4.wire_bytes(o) + (*self).5.wire_bytes(o)), (*self).6.wire_bytes(o));
                    assert((start@ + ((*self).0.wire_bytes(o) + (*self).1.wire_bytes(o) + (*self).2.wire_bytes(o) + (*self).3.wire_bytes(o) + (*self).4.wire_bytes(o) + (*self).5.wire_bytes(o))) + (*self).6.wire_bytes(o) =~= start@ + ((*self).0.wire_bytes(o) + (*self).1.wire_bytes(o) + (*self).2.wire_bytes(o) + (*self).3.wire_bytes(o) + (*self).4.wire_bytes(o) + (*self).5.wire_bytes(o) + (*self).6.wire_bytes(o)));
                    lemma_prefix_chain(dst@, start@ + ((*self).0.wire_bytes(o) + (*self).1.wire_bytes(o) + (*self).2.wire_bytes(o) + (*self).3.wire_bytes(o) + (*self).4.wire_bytes(o) + (*self).5.wire_bytes(o)), start@ + ((*self).0.wire_bytes(o) + (*self).1.wire_bytes(o) + (*self).2.wire_bytes(o) + (*self).3.wire_bytes(o) + (*self).4.wire_bytes(o) + (*self).5.wire_bytes(o) + (*self).6.wire_bytes(o)));
                    lemma_prefix_of_append(start@ + ((*self).0.wire_bytes(o) + (*self).1.wire_bytes(o) + (*self).2.wire_bytes(o) + (*self).3.wire_bytes(o) + (*self).4.wire_bytes(o) + (*self).5.wire_bytes(o) + (*self).6.wire_bytes(o)), (*self).7.wire_bytes(o));
                    assert((start@ + ((*self).0.wire_bytes(o) + (*self).1.wire_bytes(o) + (*self).2.wire_bytes(o) + (*self).3.wire_bytes(o) + (*self).4.wire_bytes(o) + (*self).5.wire_bytes(o) + (*self).6.wire_bytes(o))) + (*self).7.wire_bytes(o) =~= start@ + ((*self).0.wire_bytes(o) + (*self).1.wire_bytes(o) + (*self).2.wire_bytes(o) + (*self).3.wire_bytes(o) + (*self).4.wire_bytes(o) + (*self).5.wire_bytes(o) + (*self).6.wire_bytes(o) + (*self).7.wire_bytes(o)));
                    lemma_prefix_chain(dst@, start@ + ((*self).0.wire_bytes(o) + (*self).1.wire_bytes(o) + (*self).2.wire_bytes(o) + (*self).3.wire_bytes(o) + (*self).4.wire_bytes(o) + (*self).5.wire_bytes(o) + (*self).6.wire_bytes(o)), start@ + ((*self).0.wire_bytes(o) + (*self).1.wire_bytes(o) + (*self).2.wire_bytes(o) + (*self).3.wire_bytes(o) + (*self).4.wire_bytes(o) + (*self).5.wire_bytes(o) + (*self).6.wire_bytes(o) + (*self).7.wire_bytes(o)));
                    lemma_prefix_of_append(start@ + ((*self).0.wire_bytes(o) + (*self).1.wire_bytes(o) + (*self).2.wire_bytes(o) + (*self).3.wire_bytes(o) + (*self).4.wire_bytes(o) + (*self).5.wire_bytes(o) + (*self).6.wire_bytes(o) + (*self).7.wire_bytes(o)), (*self).8.wire_bytes(o));
                    assert((start@ + ((*self).0.wire_bytes(o) + (*self).1.wire_bytes(o) + (*self).2.wire_bytes(o) + (*self).3.wire_bytes(o) + (*self).4.wire_bytes(o) + (*self).5.wire_bytes(o) + (*self).6.wire_bytes(o) + (*self).7.wire_bytes(o))) + (*self).8.wire_bytes(o) =~= start@ + ((*self).0.wire_bytes(o) + (*self).1.wire_bytes(o) + (*self).2.wire_bytes(o) + (*self).3.wire_bytes(o) + (*self).4.wire_bytes(o) + (*self).5.wire_bytes(o) + (*self).6.wire_bytes(o) + (*self).7.wire_bytes(o) + (*self).8.wire_bytes(o)));
                    lemma_prefix_chain(dst@, start@ + ((*self).0.wire_bytes(o) + (*self).1.wire_bytes(o) + (*self).2.wire_bytes(o) + (*self).3.wire_bytes(o) + (*self).4.wire_bytes(o) + (*self).5.wire_bytes(o) + (*self).6.wire_bytes(o) + (*self).7.wire_bytes(o)), start@ + ((*self).0.wire_bytes(o) + (*self).1.wire_bytes(o) + (*self).2.wire_bytes(o) + (*self).3.wire_bytes(o) + (*self).4.wire_bytes(o) + (*self).5.wire_bytes(o) + (*self).6.wire_bytes(o) + (*self).7.wire_bytes(o) + (*self).8.wire_bytes(o)));
                    lemma_prefix_of_append(start@ + ((*self).0.wire_bytes(o) + (*self).1.wire_bytes(o) + (*self).2.wire_bytes(o) + (*self).3.wire_bytes(o) + (*self).4.wire_bytes(o) + (*self).5.wire_bytes(o) + (*self).6.wire_bytes(o) + (*self).7.wire_bytes(o) + (*self).8.wire_bytes(o)), (*self).9.wire_bytes(o));
                    assert((start@ + ((*self).0.wire_bytes(o) + (*self).1.wire_bytes(o) + (*self).2.wire_bytes(o) + (*self).3.wire_bytes(o) + (*self).4.wire_bytes(o) + (*self).5.wire_bytes(o) + (*self).6.wire_bytes(o) + (*self).7.wire_bytes(o) + (*self).8.wire_bytes(o))) + (*self).9.wire_bytes(o) =~= start@ + ((*self).0.wire_bytes(o) + (*self).1.wire_bytes(o) + (*self).2.wire_bytes(o) + (*self).3.wire_bytes(o) + (*self).4.wire_bytes(o) + (*self).5.wire_bytes(o) + (*self).6.wire_bytes(o) + (*self).7.wire_bytes(o) + (*self).8.wire_bytes(o) + (*self).9.wire_bytes(o)));
                    lemma_prefix_chain(dst@, start@ + ((*self).0.wire_bytes(o) + (*self).1.wire_bytes(o) + (*self).2.wire_bytes(o) + (*self).3.wire_bytes(o) + (*self).4.wire_bytes(o) + (*self).5.wire_bytes(o) + (*self).6.wire_bytes(o) + (*self).7.wire_bytes(o) + (*self).8.wire_bytes(o)), start@ + ((*self).0.wire_bytes(o) + (*self).1.wire_bytes(o) + (*self).2.wire_bytes(o) + (*self).3.wire_bytes(o) + (*self).4.wire_bytes(o) + (*self).5.wire_bytes(o) + (*self).6.wire_bytes(o) + (*self).7.wire_bytes(o) + (*self).8.wire_bytes(o) + (*self).9.wire_bytes(o)));
                }
                return Err(e);
            },
        }
        proof {
            assert(dst@ =~= start@ + ((*self).0.wire_bytes(o) + (*self).1.wire_bytes(o)));
        }
        let ghost d2 = *dst;
        match self.2.pack_to(o, dst) {
            Ok(_) => {},
            Err(e) => {
                proof {
                    lemma_prefix_of_append(start@, (*self).0.wire_bytes(o) + (*self).1.wire_bytes(o));
                    lemma_prefix_chain(start@, d2@, dst@);
                    assert(d2@ + (*self).2.wire_bytes(o) =~= start@ + ((*self).0.wire_bytes(o) + (*self).1.wire_bytes(o) + (*self).2.wire_bytes(o)));
                    lemma_prefix_of_append(start@ + ((*self).0.wire_bytes(o) + (*self).1.wire_bytes(o) + (*self).2.wire_bytes(o)), (*self).3.wire_bytes(o));
                    assert((start@ + ((*self).0.wire_bytes(o) + (*self).1.wire_bytes(o) + (*self).2.wire_bytes(o))) + (*self).3.wire_bytes(o) =~= start@ + ((*self).0.wire_bytes(o) + (*self).1.wire_bytes(o) + (*self).2.wire_bytes(o) + (*self).3.wire_bytes(o)));
                    lemma_prefix_chain(dst@, start@ + ((*self).0.wire_bytes(o) + (*self).1.wire_bytes(o) + (*self).2.wire_bytes(o)), start@ + ((*self).0.wire_bytes(o) + (*self).1.wire_bytes(o) + (*self).2.wire_bytes(o) + (*self).3.wire_bytes(o)));
                    lemma_prefix_of_append(start@ + ((*self).0.wire_bytes(o) + (*self).1.wire_bytes(o) + (*self).2.wire_bytes(o) + (*self).3.wire_bytes(o)), (*self).4.wire_bytes(o));
                    assert((start@ + ((*self).0.wire_bytes(o) + (*self).1.wire_bytes(o) + (*self).2.wire_bytes(o) + (*self).3.wire_bytes(o))) + (*self).4.wire_bytes(o) =~= start@ + ((*self).0.wire_bytes(o) + (*self).1.wire_bytes(o) + (*self).2.wire_bytes(o) + (*self).3.wire_bytes(o) + (*self).4.wire_bytes(o)));
                    lemma_prefix_chain(dst@, start@ + ((*self).0.wire_bytes(o) + (*self).1.wire_bytes(o) + (*self).2.wire_bytes(o) + (*self).3.wire_bytes(o)), start@ + ((*self).0.wire_bytes(o) + (*self).1.wire_bytes(o) + (*self).2.wire_bytes(o) + (*self).3.wire_bytes(o) + (*self).4.wire_bytes(o)));
                    lemma_prefix_of_append(start@ + ((*self).0.wire_bytes(o) + (*self).1.wire_bytes(o) + (*self).2.wire_bytes(o) + (*self).3.wire_bytes(o) + (*self).4.wire_bytes(o)), (*self).5.wire_bytes(o));
                    assert((start@ + ((*self).0.wire_bytes(o) + (*self).1.wire_bytes(o) + (*self).2.wire_bytes(o) + (*self).3.wire_bytes(o) + (*self).4.wire_bytes(o))) + (*self).5.wire_bytes(o) =~= start@ + ((*self).0.wire_bytes(o) + (*self).1.wire_bytes(o) + (*self).2.wire_bytes(o) + (*self).3.wire_bytes(o) + (*self).4.wire_bytes(o) + (*self).5.wire_bytes(o)));
                    lemma_prefix_chain(dst@, start@ + ((*self).0.wire_bytes(o) + (*self).1.wire_bytes(o) + (*self).2.wire_bytes(o) + (*self).3.wire_bytes(o) + (*self).4.wire_bytes(o)), start@ + ((*self).0.wire_bytes(o) + (*self).1.wire_bytes(o) + (*self).2.wire_bytes(o) + (*self).3.wire_bytes(o) + (*self).4.wire_bytes(o) + (*self).5.wire_bytes(o)));
                    lemma_prefix_of_append(start@ + ((*self).0.wire_bytes(o) + (*self).1.wire_bytes(o) + (*self).2.wire_bytes(o) + (*self).3.wire_bytes(o) + (*self).4.wire_bytes(o) + (*self).5.wire_bytes(o)), (*self).6.wire_bytes(o));
                    assert((start@ + ((*self).0.wire_bytes(o) + (*self).1.wire_bytes(o) + (*self).2.wire_bytes(o) + (*self).3.wire_bytes(o) + (*self).4.wire_bytes(o) + (*self).5.wire_bytes(o))) + (*self).6.wire_bytes(o) =~= start@ + ((*self).0.wire_bytes(o) + (*self).1.wire_bytes(o) + (*self).2.wire_bytes(o) + (*self).3.wire_bytes(o) + (*self).4.wire_bytes(o) + (*self).5.wire_bytes(o) + (*self).6.wire_bytes(o)));
                    lemma_prefix_chain(dst@, start@ + ((*self).0.wire_bytes(o) + (*self).1.wire_bytes(o) + (*self).2.wire_bytes(o) + (*self).3.wire_bytes(o) + (*self).4.wire_bytes(o) + (*self).5.wire_bytes(o)), start@ + ((*self).0.wire_bytes(o) + (*self).1.wire_bytes(o) + (*self).2.wire_bytes(o) + (*self).3.wire_bytes(o) + (*self).4.wire_bytes(o) + (*self).5.wire_bytes(o) + (*self).6.wire_bytes(o)));
                    lemma_prefix_of_append(start@ + ((*self).0.wire_bytes(o) + (*self).1.wire_bytes(o) + (*self).2.wire_bytes(o) + (*self).3.wire_bytes(o) + (*self).4.wire_bytes(o) + (*self).5.wire_bytes(o) + (*self).6.wire_bytes(o)), (*self).7.wire_bytes(o));
                    assert((start@ + ((*self).0.wire_bytes(o) + (*self).1.wire_bytes(o) + (*self).2.wire_bytes(o) + (*self).3.wire_bytes(o) + (*self).4.wire_bytes(o) + (*self).5.wire_bytes(o) + (*self).6.wire_bytes(o))) + (*self).7.wire_bytes(o) =~= start@ + ((*self).0.wire_bytes(o) + (*self).1.wire_bytes(o) + (*self).2.wire_bytes(o) + (*self).3.wire_bytes(o) + (*self).4.wire_bytes(o) + (*self).5.wire_bytes(o) + (*self).6.wire_bytes(o) + (*self).7.wire_bytes(o)));
                    lemma_prefix_chain(dst@, start@ + ((*self).0.wire_bytes(o) + (*self).1.wire_bytes(o) + (*self).2.wire_bytes(o) + (*self).3.wire_bytes(o) + (*self).4.wire_bytes(o) + (*self).5.wire_bytes(o) + (*self).6.wire_bytes(o)), start@ + ((*self).0.wire_bytes(o) + (*self).1.wire_bytes(o) + (*self).2.wire_bytes(o) + (*self).3.wire_bytes(o) + (*self).4.wire_bytes(o) + (*self).5.wire_bytes(o) + (*self).6.wire_bytes(o) + (*self).7.wire_bytes(o)));
                    lemma_prefix_of_append(start@ + ((*self).0.wire_bytes(o) + (*self).1.wire_bytes(o) + (*self).2.wire_bytes(o) + (*self).3.wire_bytes(o) + (*self).4.wire_bytes(o) + (*self).5.wire_bytes(o) + (*self).6.wire_bytes(o) + (*self).7.wire_bytes(o)), (*self).8.wire_bytes(o));
                    assert((start@ + ((*self).0.wire_bytes(o) + (*self).1.wire_bytes(o) + (*self).2.wire_bytes(o) + (*self).3.wire_bytes(o) + (*self).4.wire_bytes(o) + (*self).5.wire_bytes(o) + (*self).6.wire_bytes(o) + (*self).7.wire_bytes(o))) + (*self).8.wire_bytes(o) =~= start@ + ((*self).0.wire_bytes(o) + (*self).1.wire_bytes(o) + (*self).2.wire_bytes(o) + (*self).3.wire_bytes(o) + (*self).4.wire_bytes(o) + (*self).5.wire_bytes(o) + (*self).6.wire_bytes(o) + (*self).7.wire_bytes(o) + (*self).8.wire_bytes(o)));
                    lemma_prefix_chain(dst@, start@ + ((*self).0.wire_bytes(o) + (*self).1.wire_bytes(o) + (*self).2.wire_bytes(o) + (*self).3.wire_bytes(o) + (*self).4.wire_bytes(o) + (*self).5.wire_bytes(o) + (*self).6.wire_bytes(o) + (*self).7.wire_bytes(o)), start@ + ((*self).0.wire_bytes(o) + (*self).1.wire_bytes(o) + (*self).2.wire_bytes(o) + (*self).3.wire_bytes(o) + (*self).4.wire_bytes(o) + (*self).5.wire_bytes(o) + (*self).6.wire_bytes(o) + (*self).7.wire_bytes(o) + (*self).8.wire_bytes(o)));
                    lemma_prefix_of_append(start@ + ((*self).0.wire_bytes(o) + (*self).1.wire_bytes(o) + (*self).2.wire_bytes(o) + (*self).3.wire_bytes(o) + (*self).4.wire_bytes(o) + (*self).5.wire_bytes(o) + (*self).6.wire_bytes(o) + (*self).7.wire_bytes(o) + (*self).8.wire_bytes(o)), (*self).9.wire_bytes(o));
                    assert((start@ + ((*self).0.wire_bytes(o) + (*self).1.wire_bytes(o) + (*self).2.wire_bytes(o) + (*self).3.wire_bytes(o) + (*self).4.wire_bytes(o) + (*self).5.wire_bytes(o) + (*self).6.wire_bytes(o) + (*self).7.wire_bytes(o) + (*self).8.wire_bytes(o))) + (*self).9.wire_bytes(o) =~= start@ + ((*self).0.wire_bytes(o) + (*self).1.wire_bytes(o) + (*self).2.wire_bytes(o) + (*self).3.wire_bytes(o) + (*self).4.wire_bytes(o) + (*self).5.wire_bytes(o) + (*self).6.wire_bytes(o) + (*self).7.wire_bytes(o) + (*self).8.wire_bytes(o) + (*self).9.wire_bytes(o)));
                    lemma_prefix_chain(dst@, start@ + ((*self).0.wire_bytes(o) + (*self).1.wire_bytes(o) + (*self).2.wire_bytes(o) + (*self).3.wire_bytes(o) + (*self).4.wire_bytes(o) + (*self).5.wire_bytes(o) + (*self).6.wire_bytes(o) + (*self).7.wire_bytes(o) + (*self).8.wire_bytes(o)), start@ + ((*self).0.wire_bytes(o) + (*self).1.wire_bytes(o) + (*self).2.wire_bytes(o) + (*self).3.wire_bytes(o) + (*self).4.wire_bytes(o) + (*self).5.wire_bytes(o) + (*self).6.wire_bytes(o) + (*self).7.wire_bytes(o) + (*self).8.wire_bytes(o) + (*self).9.wire_bytes(o)));
                }
                return Err(e);
            },
        }
        proof {
            assert(dst@ =~= start@ + ((*self).0.wire_bytes(o) + (*self).1.wire_bytes(o) + (*self).2.wire_bytes(o)));
        }
        let ghost d3 = *dst;
        match self.3.pack_to(o, dst) {
            Ok(_) => {},
            Err(e) => {
                proof {
                    lemma_prefix_of_append(start@, (*self).0.wire_bytes(o) + (*self).1.wire_bytes(o) + (*self).2.wire_bytes(o));
                    lemma_prefix_chain(start@, d3@, dst@);
                    assert(d3@ + (*self).3.wire_bytes(o) =~= start@ + ((*self).0.wire_bytes(o) + (*self).1.wire_bytes(o) + (*self).2.wire_bytes(o) + (*self).3.wire_bytes(o)));
                    lemma_prefix_of_append(start@ + ((*self).0.wire_bytes(o) + (*self).1.wire_bytes(o) + (*self).2.wire_bytes(o) + (*self).3.wire_bytes(o)), (*self).4.wire_bytes(o));
                    assert((start@ + ((*self).0.wire_bytes(o) + (*self).1.wire_bytes(o) + (*self).2.wire_bytes(o) + (*self).3.wire_bytes(o))) + (*self).4.wire_bytes(o) =~= start@ + ((*self).0.wire_bytes(o) + (*self).1.wire_bytes(o) + (*self).2.wire_bytes(o) + (*self).3.wire_bytes(o) + (*self).4.wire_bytes(o)));
                    lemma_prefix_chain(dst@, start@ + ((*self).0.wire_bytes(o) + (*self).1.wire_bytes(o) + (*self).2.wire_bytes(o) + (*self).3.wire_bytes(o)), start@ + ((*self).0.wire_bytes(o) + (*self).1.wire_bytes(o) + (*self).2.wire_bytes(o) + (*self).3.wire_bytes(o) + (*self).4.wire_bytes(o)));
                    lemma_prefix_of_append(start@ + ((*self).0.wire_bytes(o) + (*self).1.wire_bytes(o) + (*self).2.wire_bytes(o) + (*self).3.wire_bytes(o) + (*self).4.wire_bytes(o)), (*self).5.wire_bytes(o));
                    assert((start@ + ((*self).0.wire_bytes(o) + (*self).1.wire_bytes(o) + (*self).2.wire_bytes(o) + (*self).3.wire_bytes(o) + (*self).4.wire_bytes(o))) + (*self).5.wire_bytes(o) =~= start@ + ((*self).0.wire_bytes(o) + (*self).1.wire_bytes(o) + (*self).2.wire_bytes(o) + (*self).3.wire_bytes(o) + (*self).4.wire_bytes(o) + (*self).5.wire_bytes(o)));
                    lemma_prefix_chain(dst@, start@ + ((*self).0.wire_bytes(o) + (*self).1.wire_bytes(o) + (*self).2.wire_bytes(o) + (*self).3.wire_bytes(o) + (*self).4.wire_bytes(o)), start@ + ((*self).0.wire_bytes(o) + (*self).1.wire_bytes(o) + (*self).2.wire_bytes(o) + (*self).3.wire_bytes(o) + (*self).4.wire_bytes(o) + (*self).5.wire_bytes(o)));
                    lemma_prefix_of_append(start@ + ((*self).0.wire_bytes(o) + (*self).1.wire_bytes(o) + (*self).2.wire_bytes(o) + (*self).3.wire_bytes(o) + (*self).4.wire_bytes(o) + (*self).5.wire_bytes(o)), (*self).6.wire_bytes(o));
                    assert((start@ + ((*self).0.wire_bytes(o) + (*self).1.wire_bytes(o) + (*self).2.wire_bytes(o) + (*self).3.wire_bytes(o) + (*self).4.wire_bytes(o) + (*self).5.wire_bytes(o))) + (*self).6.wire_bytes(o) =~= start@ + ((*self).0.wire_bytes(o) + (*self).1.wire_bytes(o) + (*self).2.wire_bytes(o) + (*self).3.wire_bytes(o) + (*self).4.wire_bytes(o) + (*self).5.wire_bytes(o) + (*self).6.wire_bytes(o)));
                    lemma_prefix_chain(dst@, start@ + ((*self).0.wire_bytes(o) + (*self).1.wire_bytes(o) + (*self).2.wire_bytes(o) + (*self).3.wire_bytes(o) + (*self).4.wire_bytes(o) + (*self).5.wire_bytes(o)), start@ + ((*self).0.wire_bytes(o) + (*self).1.wire_bytes(o) + (*self).2.wire_bytes(o) + (*self).3.wire_bytes(o) + (*self).4.wire_bytes(o) + (*self).5.wire_bytes(o) + (*self).6.wire_bytes(o)));
                    lemma_prefix_of_append(start@ + ((*self).0.wire_bytes(o) + (*self).1.wire_bytes(o) + (*self).2.wire_bytes(o) + (*self).3.wire_bytes(o) + (*self).4.wire_bytes(o) + (*self).5.wire_bytes(o) + (*self).6.wire_bytes(o)), (*self).7.wire_bytes(o));
                    assert((start@ + ((*self).0.wire_bytes(o) + (*self).1.wire_bytes(o) + (*self).2.wire_bytes(o) + (*self).3.wire_bytes(o) + (*self).4.wire_bytes(o) + (*self).5.wire_bytes(o) + (*self).6.wire_bytes(o))) + (*self).7.wire_bytes(o) =~= start@ + ((*self).0.wire_bytes(o) + (*self).1.wire_bytes(o) + (*self).2.wire_bytes(o) + (*self).3.wire_bytes(o) + (*self).4.wire_bytes(o) + (*self).5.wire_bytes(o) + (*self).6.wire_bytes(o) + (*self).7.wire_bytes(o)));
                    lemma_prefix_chain(dst@, start@ + ((*self).0.wire_bytes(o) + (*self).1.wire_bytes(o) + (*self).2.wire_bytes(o) + (*self).3.wire_bytes(o) + (*self).4.wire_bytes(o) + (*self).5.wire_bytes(o) + (*self).6.wire_bytes(o)), start@ + ((*self).0.wire_bytes(o) + (*self).1.wire_bytes(o) + (*self).2.wire_bytes(o) + (*self).3.wire_bytes(o) + (*self).4.wire_bytes(o) + (*self).5.wire_bytes(o) + (*self).6.wire_bytes(o) + (*self).7.wire_bytes(o)));
                    lemma_prefix_of_append(start@ + ((*self).0.wire_bytes(o) + (*self).1.wire_bytes(o) + (*self).2.wire_bytes(o) + (*self).3.wire_bytes(o) + (*self).4.wire_bytes(o) + (*self).5.wire_bytes(o) + (*self).6.wire_bytes(o) + (*self).7.wire_bytes(o)), (*self).8.wire_bytes(o));
                    assert((start@ + ((*self).0.wire_bytes(o) + (*self).1.wire_bytes(o) + (*self).2.wire_bytes(o) + (*self).3.wire_bytes(o) + (*self).4.wire_bytes(o) + (*self).5.wire_bytes(o) + (*self).6.wire_bytes(o) + (*self).7.wire_bytes(o))) + (*self).8.wire_bytes(o) =~= start@ + ((*self).0.wire_bytes(o) + (*self).1.wire_bytes(o) + (*self).2.wire_bytes(o) + (*self).3.wire_bytes(o) + (*self).4.wire_bytes(o) + (*self).5.wire_bytes(o) + (*self).6.wire_bytes(o) + (*self).7.wire_bytes(o) + (*self).8.wire_bytes(o)));
                    lemma_prefix_chain(dst@, start@ + ((*self).0.wire_bytes(o) + (*self).1.wire_bytes(o) + (*self).2.wire_bytes(o) + (*self).3.wire_bytes(o) + (*self).4.wire_bytes(o) + (*self).5.wire_bytes(o) + (*self).6.wire_bytes(o) + (*self).7.wire_bytes(o)), start@ + ((*self).0.wire_bytes(o) + (*self).1.wire_bytes(o) + (*self).2.wire_bytes(o) + (*self).3.wire_bytes(o) + (*self).4.wire_bytes(o) + (*self).5.wire_bytes(o) + (*self).6.wire_bytes(o) + (*self).7.wire_bytes(o) + (*self).8.wire_bytes(o)));
                    lemma_prefix_of_append(start@ + ((*self).0.wire_bytes(o) + (*self).1.wire_bytes(o) + (*self).2.wire_bytes(o) + (*self).3.wire_bytes(o) + (*self).4.wire_bytes(o) + (*self).5.wire_bytes(o) + (*self).6.wire_bytes(o) + (*self).7.wire_bytes(o) + (*self).8.wire_bytes(o)), (*self).9.wire_bytes(o));
                    assert((start@ + ((*self).0.wire_bytes(o) + (*self).1.wire_bytes(o) + (*self).2.wire_bytes(o) + (*self).3.wire_bytes(o) + (*self).4.wire_bytes(o) + (*self).5.wire_bytes(o) + (*self).6.wire_bytes(o) + (*self).7.wire_bytes(o) + (*self).8.wire_bytes(o))) + (*self).9.wire_bytes(o) =~= start@ + ((*self).0.wire_bytes(o) + (*self).1.wire_bytes(o) + (*self).2.wire_bytes(o) + (*self).3.wire_bytes(o) + (*self).4.wire_bytes(o) + (*self).5.wire_bytes(o) + (*self).6.wire_bytes(o) + (*self).7.wire_bytes(o) + (*self).8.wire_bytes(o) + (*self).9.wire_bytes(o)));
                    lemma_prefix_chain(dst@, start@ + ((*self).0.wire_bytes(o) + (*self).1.wire_bytes(o) + (*self).2.wire_bytes(o) + (*self).3.wire_bytes(o) + (*self).4.wire_bytes(o) + (*self).5.wire_bytes(o) + (*self).6.wire_bytes(o) + (*self).7.wire_bytes(o) + (*self).8.wire_bytes(o)), start@ + ((*self).0.wire_bytes(o) + (*self).1.wire_bytes(o) + (*self).2.wire_bytes(o) + (*self).3.wire_bytes(o) + (*self).4.wire_bytes(o) + (*self).5.wire_bytes(o) + (*self).6.wire_bytes(o) + (*self).7.wire_bytes(o) + (*self).8.wire_bytes(o) + (*self).9.wire_bytes(o)));
                }
                return Err(e);
            },
        }
        proof {
            assert(dst@ =~= start@ + ((*self).0.wire_bytes(o) + (*self).1.wire_bytes(o) + (*self).2.wire_bytes(o) + (*self).3.wire_bytes(o)));
        }
        let ghost d4 = *dst;
        match self.4.pack_to(o, dst) {
            Ok(_) => {},
            Err(e) => {
                proof {
                    lemma_prefix_of_append(start@, (*self).0.wire_bytes(o) + (*self).1.wire_bytes(o) + (*self).2.wire_bytes(o) + (*self).3.wire_bytes(o));
                    lemma_prefix_chain(start@, d4@, dst@);
                    assert(d4@ + (*self).4.wire_bytes(o) =~= start@ + ((*self).0.wire_bytes(o) + (*self).1.wire_bytes(o) + (*self).2.wire_bytes(o) + (*self).3.wire_bytes(o) + (*self).4.wire_bytes(o)));
                    lemma_prefix_of_append(start@ + ((*self).0.wire_bytes(o) + (*self).1.wire_bytes(o) + (*self).2.wire_bytes(o) + (*self).3.wire_bytes(o) + (*self).4.wire_bytes(o)), (*self).5.wire_bytes(o));
                    assert((start@ + ((*self).0.wire_bytes(o) + (*self).1.wire_bytes(o) + (*self).2.wire_bytes(o) + (*self).3.wire_bytes(o) + (*self).4.wire_bytes(o))) + (*self).5.wire_bytes(o) =~= start@ + ((*self).0.wire_bytes(o) + (*self).1.wire_bytes(o) + (*self).2.wire_bytes(o) + (*self).3.wire_bytes(o) + (*self).4.wire_bytes(o) + (*self).5.wire_bytes(o)));
                    lemma_prefix_chain(dst@, start@ + ((*self).0.wire_bytes(o) + (*self).1.wire_bytes(o) + (*self).2.wire_bytes(o) + (*self).3.wire_bytes(o) + (*self).4.wire_bytes(o)), start@ + ((*self).0.wire_bytes(o) + (*self).1.wire_bytes(o) + (*self).2.wire_bytes(o) + (*self).3.wire_bytes(o) + (*self).4.wire_bytes(o) + (*self).5.wire_bytes(o)));
                    lemma_prefix_of_append(start@ + ((*self).0.wire_bytes(o) + (*self).1.wire_bytes(o) + (*self).2.wire_bytes(o) + (*self).3.wire_bytes(o) + (*self).4.wire_bytes(o) + (*self).5.wire_bytes(o)), (*self).6.wire_bytes(o));
                    assert((start@ + ((*self).0.wire_bytes(o) + (*self).1.wire_bytes(o) + (*self).2.wire_bytes(o) + (*self).3.wire_bytes(o) + (*self).4.wire_bytes(o) + (*self).5.wire_bytes(o))) + (*self).6.wire_bytes(o) =~= start@ + ((*self).0.wire_bytes(o) + (*self).1.wire_bytes(o) + (*self).2.wire_bytes(o) + (*self).3.wire_bytes(o) + (*self).4.wire_bytes(o) + (*self).5.wire_bytes(o) + (*self).6.wire_bytes(o)));
                    lemma_prefix_chain(dst@, start@ + ((*self).0.wire_bytes(o) + (*self).1.wire_bytes(o) + (*self).2.wire_bytes(o) + (*self).3.wire_bytes(o) + (*self).4.wire_bytes(o) + (*self).5.wire_bytes(o)), start@ + ((*self).0.wire_bytes(o) + (*self).1.wire_bytes(o) + (*self).2.wire_bytes(o) + (*self).3.wire_bytes(o) + (*self).4.wire_bytes(o) + (*self).5.wire_bytes(o) + (*self).6.wire_bytes(o)));
                    lemma_prefix_of_append(start@ + ((*self).0.wire_bytes(o) + (*self).1.wire_bytes(o) + (*self).2.wire_bytes(o) + (*self).3.wire_bytes(o) + (*self).4.wire_bytes(o) + (*self).5.wire_bytes(o) + (*self).6.wire_bytes(o)), (*self).7.wire_bytes(o));
                    assert((start@ + ((*self).0.wire_bytes(o) + (*self).1.wire_bytes(o) + (*self).2.wire_bytes(o) + (*self).3.wire_bytes(o) + (*self).4.wire_bytes(o) + (*self).5.wire_bytes(o) + (*self).6.wire_bytes(o))) + (*self).7.wire_bytes(o) =~= start@ + ((*self).0.wire_bytes(o) + (*self).1.wire_bytes(o) + (*self).2.wire_bytes(o) + (*self).3.wire_bytes(o) + (*self).4.wire_bytes(o) + (*self).5.wire_bytes(o) + (*self).6.wire_bytes(o) + (*self).7.wire_bytes(o)));
                    lemma_prefix_chain(dst@, start@ + ((*self).0.wire_bytes(o) + (*self).1.wire_bytes(o) + (*self).2.wire_bytes(o) + (*self).3.wire_bytes(o) + (*self).4.wire_bytes(o) + (*self).5.wire_bytes(o) + (*self).6.wire_bytes(o)), start@ + ((*self).0.wire_bytes(o) + (*self).1.wire_bytes(o) + (*self).2.wire_bytes(o) + (*self).3.wire_bytes(o) + (*self).4.wire_bytes(o) + (*self).5.wire_bytes(o) + (*self).6.wire_bytes(o) + (*self).7.wire_bytes(o)));
                    lemma_prefix_of_append(start@ + ((*self).0.wire_bytes(o) + (*self).1.wire_bytes(o) + (*self).2.wire_bytes(o) + (*self).3.wire_bytes(o) + (*self).4.wire_bytes(o) + (*self).5.wire_bytes(o) + (*self).6.wire_bytes(o) + (*self).7.wire_bytes(o)), (*self).8.wire_bytes(o));
                    assert((start@ + ((*self).0.wire_bytes(o) + (*self).1.wire_bytes(o) + (*self).2.wire_bytes(o) + (*self).3.wire_bytes(o) + (*self).4.wire_bytes(o) + (*self).5.wire_bytes(o) + (*self).6.wire_bytes(o) + (*self).7.wire_bytes(o))) + (*self).8.wire_bytes(o) =~= start@ + ((*self).0.wire_bytes(o) + (*self).1.wire_bytes(o) + (*self).2.wire_bytes(o) + (*self).3.wire_bytes(o) + (*self).4.wire_bytes(o) + (*self).5.wire_bytes(o) + (*self).6.wire_bytes(o) + (*self).7.wire_bytes(o) + (*self).8.wire_bytes(o)));
                    lemma_prefix_chain(dst@, start@ + ((*self).0.wire_bytes(o) + (*self).1.wire_bytes(o) + (*self).2.wire_bytes(o) + (*self).3.wire_bytes(o) + (*self).4.wire_bytes(o) + (*self).5.wire_bytes(o) + (*self).6.wire_bytes(o) + (*self).7.wire_bytes(o)), start@ + ((*self).0.wire_bytes(o) + (*self).1.wire_bytes(o) + (*self).2.wire_bytes(o) + (*self).3.wire_bytes(o) + (*self).4.wire_bytes(o) + (*self).5.wire_bytes(o) + (*self).6.wire_bytes(o) + (*self).7.wire_bytes(o) + (*self).8.wire_bytes(o)));
                    lemma_prefix_of_append(start@ + ((*self).0.wire_bytes(o) + (*self).1.wire_bytes(o) + (*self).2.wire_bytes(o) + (*self).3.wire_bytes(o) + (*self).4.wire_bytes(o) + (*self).5.wire_bytes(o) + (*self).6.wire_bytes(o) + (*self).7.wire_bytes(o) + (*self).8.wire_bytes(o)), (*self).9.wire_bytes(o));
                    assert((start@ + ((*self).0.wire_bytes(o) + (*self).1.wire_bytes(o) + (*self).2.wire_bytes(o) + (*self).3.wire_bytes(o) + (*self).4.wire_bytes(o) + (*self).5.wire_bytes(o) + (*self).6.wire_bytes(o) + (*self).7.wire_bytes(o) + (*self).8.wire_bytes(o))) + (*self).9.wire_bytes(o) =~= start@ + ((*self).0.wire_bytes(o) + (*self).1.wire_bytes(o) + (*self).2.wire_bytes(o) + (*self).3.wire_bytes(o) + (*self).4.wire_bytes(o) + (*self).5.wire_bytes(o) + (*self).6.wire_bytes(o) + (*self).7.wire_bytes(o) + (*self).8.wire_bytes(o) + (*self).9.wire_bytes(o)));
                    lemma_prefix_chain(dst@, start@ + ((*self).0.wire_bytes(o) + (*self).1.wire_bytes(o) + (*self).2.wire_bytes(o) + (*self).3.wire_bytes(o) + (*self).4.wire_bytes(o) + (*self).5.wire_bytes(o) + (*self).6.wire_bytes(o) + (*self).7.wire_bytes(o) + (*self).8.wire_bytes(o)), start@ + ((*self).0.wire_bytes(o) + (*self).1.wire_bytes(o) + (*self).2.wire_bytes(o) + (*self).3.wire_bytes(o) + (*self).4.wire_bytes(o) + (*self).5.wire_bytes(o) + (*self).6.wire_bytes(o) + (*self).7.wire_bytes(o) + (*self).8.wire_bytes(o) + (*self).9.wire_bytes(o)));
                }
                return Err(e);
            },
        }
        proof {
            assert(dst@ =~= start@ + ((*self).0.wire_bytes(o) + (*self).1.wire_bytes(o) + (*self).2.wire_bytes(o) + (*self).3.wire_bytes(o) + (*self).4.wire_bytes(o)));
        }
        let ghost d5 = *dst;
        match self.5.pack_to(o, dst) {
            Ok(_) => {},
            Err(e) => {
                proof {
                    lemma_prefix_of_append(start@, (*self).0.wire_bytes(o) + (*self).1.wire_bytes(o) + (*self).2.wire_bytes(o) + (*self).3.wire_bytes(o) + (*self).4.wire_bytes(o));
                    lemma_prefix_chain(start@, d5@, dst@);
                    assert(d5@ + (*self).5.wire_bytes(o) =~= start@ + ((*self).0.wire_bytes(o) + (*self).1.wire_bytes(o) + (*self).2.wire_bytes(o) + (*self).3.wire_bytes(o) + (*self).4.wire_bytes(o) + (*self).5.wire_bytes(o)));
                    lemma_prefix_of_append(start@ + ((*self).0.wire_bytes(o) + (*self).1.wire_bytes(o) + (*self).2.wire_bytes(o) + (*self).3.wire_bytes(o) + (*self).4.wire_bytes(o) + (*self).5.wire_bytes(o)), (*self).6.wire_bytes(o));
                    assert((start@ + ((*self).0.wire_bytes(o) + (*self).1.wire_bytes(o) + (*self).2.wire_bytes(o) + (*self).3.wire_bytes(o) + (*self).4.wire_bytes(o) + (*self).5.wire_bytes(o))) + (*self).6.wire_bytes(o) =~= start@ + ((*self).0.wire_bytes(o) + (*self).1.wire_bytes(o) + (*self).2.wire_bytes(o) + (*self).3.wire_bytes(o) + (*self).4.wire_bytes(o) + (*self).5.wire_bytes(o) + (*self).6.wire_bytes(o)));
                    lemma_prefix_chain(dst@, start@ + ((*self).0.wire_bytes(o) + (*self).1.wire_bytes(o) + (*self).2.wire_bytes(o) + (*self).3.wire_bytes(o) + (*self).4.wire_bytes(o) + (*self).5.wire_bytes(o)), start@ + ((*self).0.wire_bytes(o) + (*self).1.wire_bytes(o) + (*self).2.wire_bytes(o) + (*self).3.wire_bytes(o) + (*self).4.wire_bytes(o) + (*self).5.wire_bytes(o) + (*self).6.wire_bytes(o)));
                    lemma_prefix_of_append(start@ + ((*self).0.wire_bytes(o) + (*self).1.wire_bytes(o) + (*self).2.wire_bytes(o) + (*self).3.wire_bytes(o) + (*self).4.wire_bytes(o) + (*self).5.wire_bytes(o) + (*self).6.wire_bytes(o)), (*self).7.wire_bytes(o));
                    assert((start@ + ((*self).0.wire_bytes(o) + (*self).1.wire_bytes(o) + (*self).2.wire_bytes(o) + (*self).3.wire_bytes(o) + (*self).4.wire_bytes(o) + (*self).5.wire_bytes(o) + (*self).6.wire_bytes(o))) + (*self).7.wire_bytes(o) =~= start@ + ((*self).0.wire_bytes(o) + (*self).1.wire_bytes(o) + (*self).2.wire_bytes(o) + (*self).3.wire_bytes(o) + (*self).4.wire_bytes(o) + (*self).5.wire_bytes(o) + (*self).6.wire_bytes(o) + (*self).7.wire_bytes(o)));
                    lemma_prefix_chain(dst@, start@ + ((*self).0.wire_bytes(o) + (*self).1.wire_bytes(o) + (*self).2.wire_bytes(o) + (*self).3.wire_bytes(o) + (*self).4.wire_bytes(o) + (*self).5.wire_bytes(o) + (*self).6.wire_bytes(o)), start@ + ((*self).0.wire_bytes(o) + (*self).1.wire_bytes(o) + (*self).2.wire_bytes(o) + (*self).3.wire_bytes(o) + (*self).4.wire_bytes(o) + (*self).5.wire_bytes(o) + (*self).6.wire_bytes(o) + (*self).7.wire_bytes(o)));
                    lemma_prefix_of_append(start@ + ((*self).0.wire_bytes(o) + (*self).1.wire_bytes(o) + (*self).2.wire_bytes(o) + (*self).3.wire_bytes(o) + (*self).4.wire_bytes(o) + (*self).5.wire_bytes(o) + (*self).6.wire_bytes(o) + (*self).7.wire_bytes(o)), (*self).8.wire_bytes(o));
                    assert((start@ + ((*self).0.wire_bytes(o) + (*self).1.wire_bytes(o) + (*self).2.wire_bytes(o) + (*self).3.wire_bytes(o) + (*self).4.wire_bytes(o) + (*self).5.wire_bytes(o) + (*self).6.wire_bytes(o) + (*self).7.wire_bytes(o))) + (*self).8.wire_bytes(o) =~= start@ + ((*self).0.wire_bytes(o) + (*self).1.wire_bytes(o) + (*self).2.wire_bytes(o) + (*self).3.wire_bytes(o) + (*self).4.wire_bytes(o) + (*self).5.wire_bytes(o) + (*self).6.wire_bytes(o) + (*self).7.wire_bytes(o) + (*self).8.wire_bytes(o)));
                    lemma_prefix_chain(dst@, start@ + ((*self).0.wire_bytes(o) + (*self).1.wire_bytes(o) + (*self).2.wire_bytes(o) + (*self).3.wire_bytes(o) + (*self).4.wire_bytes(o) + (*self).5.wire_bytes(o) + (*self).6.wire_bytes(o) + (*self).7.wire_bytes(o)), start@ + ((*self).0.wire_bytes(o) + (*self).1.wire_bytes(o) + (*self).2.wire_bytes(o) + (*self).3.wire_bytes(o) + (*self).4.wire_bytes(o) + (*self).5.wire_bytes(o) + (*self).6.wire_bytes(o) + (*self).7.wire_bytes(o) + (*self).8.wire_bytes(o)));
                    lemma_prefix_of_append(start@ + ((*self).0.wire_bytes(o) + (*self).1.wire_bytes(o) + (*self).2.wire_bytes(o) + (*self).3.wire_bytes(o) + (*self).4.wire_bytes(o) + (*self).5.wire_bytes(o) + (*self).6.wire_bytes(o) + (*self).7.wire_bytes(o) + (*self).8.wire_bytes(o)), (*self).9.wire_bytes(o));
                    assert((start@ + ((*self).0.wire_bytes(o) + (*self).1.wire_bytes(o) + (*self).2.wire_bytes(o) + (*self).3.wire_bytes(o) + (*self).4.wire_bytes(o) + (*self).5.wire_bytes(o) + (*self).6.wire_bytes(o) + (*self).7.wire_bytes(o) + (*self).8.wire_bytes(o))) + (*self).9.wire_bytes(o) =~= start@ + ((*self).0.wire_bytes(o) + (*self).1.wire_bytes(o) + (*self).2.wire_bytes(o) + (*self).3.wire_bytes(o) + (*self).4.wire_bytes(o) + (*self).5.wire_bytes(o) + (*self).6.wire_bytes(o) + (*self).7.wire_bytes(o) + (*self).8.wire_bytes(o) + (*self).9.wire_bytes(o)));
                    lemma_prefix_chain(dst@, start@ + ((*self).0.wire_bytes(o) + (*self).1.wire_bytes(o) + (*self).2.wire_bytes(o) + (*self).3.wire_bytes(o) + (*self).4.wire_bytes(o) + (*self).5.wire_bytes(o) + (*self).6.wire_bytes(o) + (*self).7.wire_bytes(o) + (*self).8.wire_bytes(o)), start@ + ((*self).0.wire_bytes(o) + (*self).1.wire_bytes(o) + (*self).2.wire_bytes(o) + (*self).3.wire_bytes(o) + (*self).4.wire_bytes(o) + (*self).5.wire_bytes(o) + (*self).6.wire_bytes(o) + (*self).7.wire_bytes(o) + (*self).8.wire_bytes(o) + (*self).9.wire_bytes(o)));
                }
                return Err(e);
            },
        }
        proof {
            assert(dst@ =~= start@ + ((*self).0.wire_bytes(o) + (*self).1.wire_bytes(o) + (*self).2.wire_bytes(o) + (*self).3.wire_bytes(o) + (*self).4.wire_bytes(o) + (*self).5.wire_bytes(o)));
        }
        let ghost d6 = *dst;
        match self.6.pack_to(o, dst) {
            Ok(_) => {},
            Err(e) => {
                proof {
                    lemma_prefix_of_append(start@, (*self).0.wire_bytes(o) + (*self).1.wire_bytes(o) + (*self).2.wire_bytes(o) + (*self).3.wire_bytes(o) + (*self).4.wire_bytes(o) + (*self).5.wire_bytes(o));
                    lemma_prefix_chain(start@, d6@, dst@);
                    assert(d6@ + (*self).6.wire_bytes(o) =~= start@ + ((*self).0.wire_bytes(o) + (*self).1.wire_bytes(o) + (*self).2.wire_bytes(o) + (*self).3.wire_bytes(o) + (*self).4.wire_bytes(o) + (*self).5.wire_bytes(o) + (*self).6.wire_bytes(o)));
                    lemma_prefix_of_append(start@ + ((*self).0.wire_bytes(o) + (*self).1.wire_bytes(o) + (*self).2.wire_bytes(o) + (*self).3.wire_bytes(o) + (*self).4.wire_bytes(o) + (*self).5.wire_bytes(o) + (*self).6.wire_bytes(o)), (*self).7.wire_bytes(o));
                    assert((start@ + ((*self).0.wire_bytes(o) + (*self).1.wire_bytes(o) + (*self).2.wire_bytes(o) + (*self).3.wire_bytes(o) + (*self).4.wire_bytes(o) + (*self).5.wire_bytes(o) + (*self).6.wire_bytes(o))) + (*self).7.wire_bytes(o) =~= start@ + ((*self).0.wire_bytes(o) + (*self).1.wire_bytes(o) + (*self).2.wire_bytes(o) + (*self).3.wire_bytes(o) + (*self).4.wire_bytes(o) + (*self).5.wire_bytes(o) + (*self).6.wire_bytes(o) + (*self).7.wire_bytes(o)));
                    lemma_prefix_chain(dst@, start@ + ((*self).0.wire_bytes(o) + (*self).1.wire_bytes(o) + (*self).2.wire_bytes(o) + (*self).3.wire_bytes(o) + (*self).4.wire_bytes(o) + (*self).5.wire_bytes(o) + (*self).6.wire_bytes(o)), start@ + ((*self).0.wire_bytes(o) + (*self).1.wire_bytes(o) + (*self).2.wire_bytes(o) + (*self).3.wire_bytes(o) + (*self).4.wire_bytes(o) + (*self).5.wire_bytes(o) + (*self).6.wire_bytes(o) + (*self).7.wire_bytes(o)));
                    lemma_prefix_of_append(start@ + ((*self).0.wire_bytes(o) + (*self).1.wire_bytes(o) + (*self).2.wire_bytes(o) + (*self).3.wire_bytes(o) + (*self).4.wire_bytes(o) + (*self).5.wire_bytes(o) + (*self).6.wire_bytes(o) + (*self).7.wire_bytes(o)), (*self).8.wire_bytes(o));
                    assert((start@ + ((*self).0.wire_bytes(o) + (*self).1.wire_bytes(o) + (*self).2.wire_bytes(o) + (*self).3.wire_bytes(o) + (*self).4.wire_bytes(o) + (*self).5.wire_bytes(o) + (*self).6.wire_bytes(o) + (*self).7.wire_bytes(o))) + (*self).8.wire_bytes(o) =~= start@ + ((*self).0.wire_bytes(o) + (*self).1.wire_bytes(o) + (*self).2.wire_bytes(o) + (*self).3.wire_bytes(o) + (*self).4.wire_bytes(o) + (*self).5.wire_bytes(o) + (*self).6.wire_bytes(o) + (*self).7.wire_bytes(o) + (*self).8.wire_bytes(o)));
                    lemma_prefix_chain(dst@, start@ + ((*self).0.wire_bytes(o) + (*self).1.wire_bytes(o) + (*self).2.wire_bytes(o) + (*self).3.wire_bytes(o) + (*self).4.wire_bytes(o) + (*self).5.wire_bytes(o) + (*self).6.wire_bytes(o) + (*self).7.wire_bytes(o)), start@ + ((*self).0.wire_bytes(o) + (*self).1.wire_bytes(o) + (*self).2.wire_bytes(o) + (*self).3.wire_bytes(o) + (*self).4.wire_bytes(o) + (*self).5.wire_bytes(o) + (*self).6.wire_bytes(o) + (*self).7.wire_bytes(o) + (*self).8.wire_bytes(o)));
                    lemma_prefix_of_append(start@ + ((*self).0.wire_bytes(o) + (*self).1.wire_bytes(o) + (*self).2.wire_bytes(o) + (*self).3.wire_bytes(o) + (*self).4.wire_bytes(o) + (*self).5.wire_bytes(o) + (*self).6.wire_bytes(o) + (*self).7.wire_bytes(o) + (*self).8.wire_bytes(o)), (*self).9.wire_bytes(o));
                    assert((start@ + ((*self).0.wire_bytes(o) + (*self).1.wire_bytes(o) + (*self).2.wire_bytes(o) + (*self).3.wire_bytes(o) + (*self).4.wire_bytes(o) + (*self).5.wire_bytes(o) + (*self).6.wire_bytes(o) + (*self).7.wire_bytes(o) + (*self).8.wire_bytes(o))) + (*self).9.wire_bytes(o) =~= start@ + ((*self).0.wire_bytes(o) + (*self).1.wire_bytes(o) + (*self).2.wire_bytes(o) + (*self).3.wire_bytes(o) + (*self).4.wire_bytes(o) + (*self).5.wire_bytes(o) + (*self).6.wire_bytes(o) + (*self).7.wire_bytes(o) + (*self).8.wire_bytes(o) + (*self).9.wire_bytes(o)));
                    lemma_prefix_chain(dst@, start@ + ((*self).0.wire_bytes(o) + (*self).1.wire_bytes(o) + (*self).2.wire_bytes(o) + (*self).3.wire_bytes(o) + (*self).4.wire_bytes(o) + (*self).5.wire_bytes(o) + (*self).6.wire_bytes(o) + (*self).7.wire_bytes(o) + (*self).8.wire_bytes(o)), start@ + ((*self).0.wire_bytes(o) + (*self).1.wire_bytes(o) + (*self).2.wire_bytes(o) + (*self).3.wire_bytes(o) + (*self).4.wire_bytes(o) + (*self).5.wire_bytes(o) + (*self).6.wire_bytes(o) + (*self).7.wire_bytes(o) + (*self).8.wire_bytes(o) + (*self).9.wire_bytes(o)));
                }
                return Err(e);
            },
        }
        proof {
            assert(dst@ =~= start@ + ((*self).0.wire_bytes(o) + (*self).1.wire_bytes(o) + (*self).2.wire_bytes(o) + (*self).3.wire_bytes(o) + (*self).4.wire_bytes(o) + (*self).5.wire_bytes(o) + (*self).6.wire_bytes(o)));
        }
        let ghost d7 = *dst;
        match self.7.pack_to(o, dst) {
            Ok(_) => {},
            Err(e) => {
                proof {
                    lemma_prefix_of_append(start@, (*self).0.wire_bytes(o) + (*self).1.wire_bytes(o) + (*self).2.wire_bytes(o) + (*self).3.wire_bytes(o) + (*self).4.wire_bytes(o) + (*self).5.wire_bytes(o) + (*self).6.wire_bytes(o));
                    lemma_prefix_chain(start@, d7@, dst@);
                    assert(d7@ + (*self).7.wire_bytes(o) =~= start@ + ((*self).0.wire_bytes(o) + (*self).1.wire_bytes(o) + (*self).2.wire_bytes(o) + (*self).3.wire_bytes(o) + (*self).4.wire_bytes(o) + (*self).5.wire_bytes(o) + (*self).6.wire_bytes(o) + (*self).7.wire_bytes(o)));
                    lemma_prefix_of_append(start@ + ((*self).0.wire_bytes(o) + (*self).1.wire_bytes(o) + (*self).2.wire_bytes(o) + (*self).3.wire_bytes(o) + (*self).4.wire_bytes(o) + (*self).5.wire_bytes(o) + (*self).6.wire_bytes(o) + (*self).7.wire_bytes(o)), (*self).8.wire_bytes(o));
                    assert((start@ + ((*self).0.wire_bytes(o) + (*self).1.wire_bytes(o) + (*self).2.wire_bytes(o) + (*self).3.wire_bytes(o) + (*self).4.wire_bytes(o) + (*self).5.wire_bytes(o) + (*self).6.wire_bytes(o) + (*self).7.wire_bytes(o))) + (*self).8.wire_bytes(o) =~= start@ + ((*self).0.wire_bytes(o) + (*self).1.wire_bytes(o) + (*self).2.wire_bytes(o) + (*self).3.wire_bytes(o) + (*self).4.wire_bytes(o) + (*self).5.wire_bytes(o) + (*self).6.wire_bytes(o) + (*self).7.wire_bytes(o) + (*self).8.wire_bytes(o)));
                    lemma_prefix_chain(dst@, start@ + ((*self).0.wire_bytes(o) + (*self).1.wire_bytes(o) + (*self).2.wire_bytes(o) + (*self).3.wire_bytes(o) + (*self).4.wire_bytes(o) + (*self).5.wire_bytes(o) + (*self).6.wire_bytes(o) + (*self).7.wire_bytes(o)), start@ + ((*self).0.wire_bytes(o) + (*self).1.wire_bytes(o) + (*self).2.wire_bytes(o) + (*self).3.wire_bytes(o) + (*self).4.wire_bytes(o) + (*self).5.wire_bytes(o) + (*self).6.wire_bytes(o) + (*self).7.wire_bytes(o) + (*self).8.wire_bytes(o)));
                    lemma_prefix_of_append(start@ + ((*self).0.wire_bytes(o) + (*self).1.wire_bytes(o) + (*self).2.wire_bytes(o) + (*self).3.wire_bytes(o) + (*self).4.wire_bytes(o) + (*self).5.wire_bytes(o) + (*self).6.wire_bytes(o) + (*self).7.wire_bytes(o) + (*self).8.wire_bytes(o)), (*self).9.wire_bytes(o));
                    assert((start@ + ((*self).0.wire_bytes(o) + (*self).1.wire_bytes(o) + (*self).2.wire_bytes(o) + (*self).3.wire_bytes(o) + (*self).4.wire_bytes(o) + (*self).5.wire_bytes(o) + (*self).6.wire_bytes(o) + (*self).7.wire_bytes(o) + (*self).8.wire_bytes(o))) + (*self).9.wire_bytes(o) =~= start@ + ((*self).0.wire_bytes(o) + (*self).1.wire_bytes(o) + (*self).2.wire_bytes(o) + (*self).3.wire_bytes(o) + (*self).4.wire_bytes(o) + (*self).5.wire_bytes(o) + (*self).6.wire_bytes(o) + (*self).7.wire_bytes(o) + (*self).8.wire_bytes(o) + (*self).9.wire_bytes(o)));
                    lemma_prefix_chain(dst@, start@ + ((*self).0.wire_bytes(o) + (*self).1.wire_bytes(o) + (*self).2.wire_bytes(o) + (*self).3.wire_bytes(o) + (*self).4.wire_bytes(o) + (*self).5.wire_bytes(o) + (*self).6.wire_bytes(o) + (*self).7.wire_bytes(o) + (*self).8.wire_bytes(o)), start@ + ((*self).0.wire_bytes(o) + (*self).1.wire_bytes(o) + (*self).2.wire_bytes(o) + (*self).3.wire_bytes(o) + (*self).4.wire_bytes(o) + (*self).5.wire_bytes(o) + (*self).6.wire_bytes(o) + (*self).7.wire_bytes(o) + (*self).8.wire_bytes(o) + (*self).9.wire_bytes(o)));
                }
                return Err(e);
            },
        }
        proof {
            assert(dst@ =~= start@ + ((*self).0.wire_bytes(o) + (*self).1.wire_bytes(o) + (*self).2.wire_bytes(o) + (*self).3.wire_bytes(o) + (*self).4.wire_bytes(o) + (*self).5.wire_bytes(o) + (*self).6.wire_bytes(o) + (*self).7.wire_bytes(o)));
        }
        let ghost d8 = *dst;
        match self.8.pack_to(o, dst) {
            Ok(_) => {},
            Err(e) => {
                proof {
                    lemma_prefix_of_append(start@, (*self).0.wire_bytes(o) + (*self).1.wire_bytes(o) + (*self).2.wire_bytes(o) + (*self).3.wire_bytes(o) + (*self).4.wire_bytes(o) + (*self).5.wire_bytes(o) + (*self).6.wire_bytes(o) + (*self).7.wire_bytes(o));
                    lemma_prefix_chain(start@, d8@, dst@);
                    assert(d8@ + (*self).8.wire_bytes(o) =~= start@ + ((*self).0.wire_bytes(o) + (*self).1.wire_bytes(o) + (*self).2.wire_bytes(o) + (*self).3.wire_bytes(o) + (*self).4.wire_bytes(o) + (*self).5.wire_bytes(o) + (*self).6.wire_bytes(o) + (*self).7.wire_bytes(o) + (*self).8.wire_bytes(o)));
                    lemma_prefix_of_append(start@ + ((*self).0.wire_bytes(o) + (*self).1.wire_bytes(o) + (*self).2.wire_bytes(o) + (*self).3.wire_bytes(o) + (*self).4.wire_bytes(o) + (*self).5.wire_bytes(o) + (*self).6.wire_bytes(o) + (*self).7.wire_bytes(o) + (*self).8.wire_bytes(o)), (*self).9.wire_bytes(o));
                    assert((start@ + ((*self).0.wire_bytes(o) + (*self).1.wire_bytes(o) + (*self).2.wire_bytes(o) + (*self).3.wire_bytes(o) + (*self).4.wire_bytes(o) + (*self).5.wire_bytes(o) + (*self).6.wire_bytes(o) + (*self).7.wire_bytes(o) + (*self).8.wire_bytes(o))) + (*self).9.wire_bytes(o) =~= start@ + ((*self).0.wire_bytes(o) + (*self).1.wire_bytes(o) + (*self).2.wire_bytes(o) + (*self).3.wire_bytes(o) + (*self).4.wire_bytes(o) + (*self).5.wire_bytes(o) + (*self).6.wire_bytes(o) + (*self).7.wire_bytes(o) + (*self).8.wire_bytes(o) + (*self).9.wire_bytes(o)));
                    lemma_prefix_chain(dst@, start@ + ((*self).0.wire_bytes(o) + (*self).1.wire_bytes(o) + (*self).2.wire_bytes(o) + (*self).3.wire_bytes(o) + (*self).4.wire_bytes(o) + (*self).5.wire_bytes(o) + (*self).6.wire_bytes(o) + (*self).7.wire_bytes(o) + (*self).8.wire_bytes(o)), start@ + ((*self).0.wire_bytes(o) + (*self).1.wire_bytes(o) + (*self).2.wire_bytes(o) + (*self).3.wire_bytes(o) + (*self).4.wire_bytes(o) + (*self).5.wire_bytes(o) + (*self).6.wire_bytes(o) + (*self).7.wire_bytes(o) + (*self).8.wire_bytes(o) + (*self).9.wire_bytes(o)));
                }
                return Err(e);
            },
        }
        proof {
            assert(dst@ =~= start@ + ((*self).0.wire_bytes(o) + (*self).1.wire_bytes(o) + (*self).2.wire_bytes(o) + (*self).3.wire_bytes(o) + (*self).4.wire_bytes(o) + (*self).5.wire_bytes(o) + (*self).6.wire_bytes(o) + (*self).7.wire_bytes(o) + (*self).8.wire_bytes(o)));
        }
        let ghost d9 = *dst;
        match self.9.pack_to(o, dst) {
            Ok(_) => {},
            Err(e) => {
                proof {
                    lemma_prefix_of_append(start@, (*self).0.wire_bytes(o) + (*self).1.wire_bytes(o) + (*self).2.wire_bytes(o) + (*self).3.wire_bytes(o) + (*self).4.wire_bytes(o) + (*self).5.wire_bytes(o) + (*self).6.wire_bytes(o) + (*self).7.wire_bytes(o) + (*self).8.wire_bytes(o));
                    lemma_prefix_chain(start@, d9@, dst@);
                    assert(d9@ + (*self).9.wire_bytes(o) =~= start@ + ((*self).0.wire_bytes(o) + (*self).1.wire_bytes(o) + (*self).2.wire_bytes(o) + (*self).3.wire_bytes(o) + (*self).4.wire_bytes(o) + (*self).5.wire_bytes(o) + (*self).6.wire_bytes(o) + (*self).7.wire_bytes(o) + (*self).8.wire_bytes(o) + (*self).9.wire_bytes(o)));
                }
                return Err(e);
            },
        }
        proof {
            assert(dst@ =~= start@ + ((*self).0.wire_bytes(o) + (*self).1.wire_bytes(o) + (*self).2.wire_bytes(o) + (*self).3.wire_bytes(o) + (*self).4.wire_bytes(o) + (*self).5.wire_bytes(o) + (*self).6.wire_bytes(o) + (*self).7.wire_bytes(o) + (*self).8.wire_bytes(o) + (*self).9.wire_bytes(o)));
        }
        Ok(())
    }
}

impl<T1: PackTo, T2: PackTo, T3: PackTo, T4: PackTo, T5: PackTo, T6: PackTo, T7: PackTo, T8: PackTo, T9: PackTo, T10: PackTo, T11: PackTo> PackTo for (T1, T2, T3, T4, T5, T6, T7, T8, T9, T10, T11) {
    open spec fn wire_width(self) -> nat {
        self.0.wire_width() + self.1.wire_width() + self.2.wire_width() + self.3.wire_width() + self.4.wire_width() + self.5.wire_width() + self.6.wire_width() + self.7.wire_width() + self.8.wire_width() + self.9.wire_width() + self.10.wire_width()
    }

    open spec fn wire_bytes(self, o: ByteOrder) -> Seq<u8> {
        self.0.wire_bytes(o) + self.1.wire_bytes(o) + self.2.wire_bytes(o) + self.3.wire_bytes(o) + self.4.wire_bytes(o) + self.5.wire_bytes(o) + self.6.wire_bytes(o) + self.7.wire_bytes(o) + self.8.wire_bytes(o) + self.9.wire_bytes(o) + self.10.wire_bytes(o)
    }

    proof fn lemma_wire_width(self, o: ByteOrder) {
        self.0.lemma_wire_width(o);
        self.1.lemma_wire_width(o);
        self.2.lemma_wire_width(o);
        self.3.lemma_wire_width(o);
        self.4.lemma_wire_width(o);
        self.5.lemma_wire_width(o);
        self.6.lemma_wire_width(o);
        self.7.lemma_wire_width(o);
        self.8.lemma_wire_width(o);
        self.9.lemma_wire_width(o);
        self.10.lemma_wire_width(o);
    }

    #[verifier::spinoff_prover]
    #[verifier::rlimit(100)]
    fn pack_to(&self, o: ByteOrder, dst: &mut Sink) -> (r: Result<(), PackError>) {
        let ghost start = *dst;
        let ghost d0 = *dst;
        match self.0.pack_to(o, dst) {
            Ok(_) => {},
            Err(e) => {
                proof {
                    lemma_prefix_chain(start@, d0@, dst@);
                    assert(d0@ + (*self).0.wire_bytes(o) =~= start@ + ((*self).0.wire_bytes(o)));
                    lemma_prefix_of_append(start@ + ((*self).0.wire_bytes(o)), (*self).1.wire_bytes(o));
                    assert((start@ + ((*self).0.wire_bytes(o))) + (*self).1.wire_bytes(o) =~= start@ + ((*self).0.wire_bytes(o) + (*self).1.wire_bytes(o)));
                    lemma_prefix_chain(dst@, start@ + ((*self).0.wire_bytes(o)), start@ + ((*self).0.wire_bytes(o) + (*self).1.wire_bytes(o)));
                    lemma_prefix_of_append(start@ + ((*self).0.wire_bytes(o) + (*self).1.wire_bytes(o)), (*self).2.wire_bytes(o));
                    assert((start@ + ((*self).0.wire_bytes(o) + (*self).1.wire_bytes(o))) + (*self).2.wire_bytes(o) =~= start@ + ((*self).0.wire_bytes(o) + (*self).1.wire_bytes(o) + (*self).2.wire_bytes(o)));
                    lemma_prefix_chain(dst@, start@ + ((*self).0.wire_bytes(o) + (*self).1.wire_bytes(o)), start@ + ((*self).0.wire_bytes(o) + (*self).1.wire_bytes(o) + (*self).2.wire_bytes(o)));
                    lemma_prefix_of_append(start@ + ((*self).0.wire_bytes(o) + (*self).1.wire_bytes(o) + (*self).2.wire_bytes(o)), (*self).3.wire_bytes(o));
                    assert((start@ + ((*self).0.wire_bytes(o) + (*self).1.wire_bytes(o) + (*self).2.wire_bytes(o))) + (*self).3.wire_bytes(o) =~= start@ + ((*self).0.wire_bytes(o) + (*self).1.wire_bytes(o) + (*self).2.wire_bytes(o) + (*self).3.wire_bytes(o)));
                    lemma_prefix_chain(dst@, start@ + ((*self).0.wire_bytes(o) + (*self).1.wire_bytes(o) + (*self).2.wire_bytes(o)), start@ + ((*self).0.wire_bytes(o) + (*self).1.wire_bytes(o) + (*self).2.wire_bytes(o) + (*self).3.wire_bytes(o)));
                    lemma_prefix_of_append(start@ + ((*self).0.wire_bytes(o) + (*self).1.wire_bytes(o) + (*self).2.wire_bytes(o) + (*self).3.wire_bytes(o)), (*self).4.wire_bytes(o));
                    assert((start@ + ((*self).0.wire_bytes(o) + (*self).1.wire_bytes(o) + (*self).2.wire_bytes(o) + (*self).3.wire_bytes(o))) + (*self).4.wire_bytes(o) =~= start@ + ((*self).0.wire_bytes(o) + (*self).1.wire_bytes(o) + (*self).2.wire_bytes(o) + (*self).3.wire_bytes(o) + (*self).4.wire_bytes(o)));
                    lemma_prefix_chain(dst@, start@ + ((*self).0.wire_bytes(o) + (*self).1.wire_bytes(o) + (*self).2.wire_bytes(o) + (*self).3.wire_bytes(o)), start@ + ((*self).0.wire_bytes(o) + (*self).1.wire_bytes(o) + (*self).2.wire_bytes(o) + (*self).3.wire_bytes(o) + (*self).4.wire_bytes(o)));
                    lemma_prefix_of_append(start@ + ((*self).0.wire_bytes(o) + (*self).1.wire_bytes(o) + (*self).2.wire_bytes(o) + (*self).3.wire_bytes(o) + (*self).4.wire_bytes(o)), (*self).5.wire_bytes(o));
                    assert((start@ + ((*self).0.wire_bytes(o) + (*self).1.wire_bytes(o) + (*self).2.wire_bytes(o) + (*self).3.wire_bytes(o) + (*self).4.wire_bytes(o))) + (*self).5.wire_bytes(o) =~= start@ + ((*self).0.wire_bytes(o) + (*self).1.wire_bytes(o) + (*self).2.wire_bytes(o) + (*self).3.wire_bytes(o) + (*self).4.wire_bytes(o) + (*self).5.wire_bytes(o)));
                    lemma_prefix_chain(dst@, start@ + ((*self).0.wire_bytes(o) + (*self).1.wire_bytes(o) + (*self).2.wire_bytes(o) + (*self).3.wire_bytes(o) + (*self).4.wire_bytes(o)), start@ + ((*self).0.wire_bytes(o) + (*self).1.wire_bytes(o) + (*self).2.wire_bytes(o) + (*self).3.wire_bytes(o) + (*self).4.wire_bytes(o) + (*self).5.wire_bytes(o)));
                    lemma_prefix_of_append(start@ + ((*self).0.wire_bytes(o) + (*self).1.wire_bytes(o) + (*self).2.wire_bytes(o) + (*self).3.wire_bytes(o) + (*self).4.wire_bytes(o) + (*self).5.wire_bytes(o)), (*self).6.wire_bytes(o));
                    assert((start@ + ((*self).0.wire_bytes(o) + (*self).1.wire_bytes(o) + (*self).2.wire_bytes(o) + (*self).3.wire_bytes(o) + (*self).4.wire_bytes(o) + (*self).5.wire_bytes(o))) + (*self).6.wire_bytes(o) =~= start@ + ((*self).0.wire_bytes(o) + (*self).1.wire_bytes(o) + (*self).2.wire_bytes(o) + (*self).3.wire_bytes(o) + (*self).4.wire_bytes(o) + (*self).5.wire_bytes(o) + (*self).6.wire_bytes(o)));
                    lemma_prefix_chain(dst@, start@ + ((*self).0.wire_bytes(o) + (*self).1.wire_bytes(o) + (*self).2.wire_bytes(o) + (*self).3.wire_bytes(o) + (*self).4.wire_bytes(o) + (*self).5.wire_bytes(o)), start@ + ((*self).0.wire_bytes(o) + (*self).1.wire_bytes(o) + (*self).2.wire_bytes(o) + (*self).3.wire_bytes(o) + (*self).4.wire_bytes(o) + (*self).5.wire_bytes(o) + (*self).6.wire_bytes(o)));
                    lemma_prefix_of_append(start@ + ((*self).0.wire_bytes(o) + (*self).1.wire_bytes(o) + (*self).2.wire_bytes(o) + (*self).3.wire_bytes(o) + (*self).4.wire_bytes(o) + (*self).5.wire_bytes(o) + (*self).6.wire_bytes(o)), (*self).7.wire_bytes(o));
                    assert((start@ + ((*self).0.wire_bytes(o) + (*self).1.wire_bytes(o) + (*self).2.wire_bytes(o) + (*self).3.wire_bytes(o) + (*self).4.wire_bytes(o) + (*self).5.wire_bytes(o) + (*self).6.wire_bytes(o))) + (*self).7.wire_bytes(o) =~= start@ + ((*self).0.wire_bytes(o) + (*self).1.wire_bytes(o) + (*self).2.wire_bytes(o) + (*self).3.wire_bytes(o) + (*self).4.wire_bytes(o) + (*self).5.wire_bytes(o) + (*self).6.wire_bytes(o) + (*self).7.wire_bytes(o)));
                    lemma_prefix_chain(dst@, start@ + ((*self).0.wire_bytes(o) + (*self).1.wire_bytes(o) + (*self).2.wire_bytes(o) + (*self).3.wire_bytes(o) + (*self).4.wire_bytes(o) + (*self).5.wire_bytes(o) + (*self).6.wire_bytes(o)), start@ + ((*self).0.wire_bytes(o) + (*self).1.wire_bytes(o) + (*self).2.wire_bytes(o) + (*self).3.wire_bytes(o) + (*self).4.wire_bytes(o) + (*self).5.wire_bytes(o) + (*self).6.wire_bytes(o) + (*self).7.wire_bytes(o)));
                    lemma_prefix_of_append(start@ + ((*self).0.wire_bytes(o) + (*self).1.wire_bytes(o) + (*self).2.wire_bytes(o) + (*self).3.wire_bytes(o) + (*self).4.wire_bytes(o) + (*self).5.wire_bytes(o) + (*self).6.wire_bytes(o) + (*self).7.wire_bytes(o)), (*self).8.wire_bytes(o));
                    assert((start@ + ((*self).0.wire_bytes(o) + (*self).1.wire_bytes(o) + (*self).2.wire_bytes(o) + (*self).3.wire_bytes(o) + (*self).4.wire_bytes(o) + (*self).5.wire_bytes(o) + (*self).6.wire_bytes(o) + (*self).7.wire_bytes(o))) + (*self).8.wire_bytes(o) =~= start@ + ((*self).0.wire_bytes(o) + (*self).1.wire_bytes(o) + (*self).2.wire_bytes(o) + (*self).3.wire_bytes(o) + (*self).4.wire_bytes(o) + (*self).5.wire_bytes(o) + (*self).6.wire_bytes(o) + (*self).7.wire_bytes(o) + (*self).8.wire_bytes(o)));
                    lemma_prefix_chain(dst@, start@ + ((*self).0.wire_bytes(o) + (*self).1.wire_bytes(o) + (*self).2.wire_bytes(o) + (*self).3.wire_bytes(o) + (*self).4.wire_bytes(o) + (*self).5.wire_bytes(o) + (*self).6.wire_bytes(o) + (*self).7.wire_bytes(o)), start@ + ((*self).0.wire_bytes(o) + (*self).1.wire_bytes(o) + (*self).2.wire_bytes(o) + (*self).3.wire_bytes(o) + (*self).4.wire_bytes(o) + (*self).5.wire_bytes(o) + (*self).6.wire_bytes(o) + (*self).7.wire_bytes(o) + (*self).8.wire_bytes(o)));
                    lemma_prefix_of_append(start@ + ((*self).0.wire_bytes(o) + (*self).1.wire_bytes(o) + (*self).2.wire_bytes(o) + (*self).3.wire_bytes(o) + (*self).4.wire_bytes(o) + (*self).5.wire_bytes(o) + (*self).6.wire_bytes(o) + (*self).7.wire_bytes(o) + (*self).8.wire_bytes(o)), (*self).9.wire_bytes(o));
                    assert((start@ + ((*self).0.wire_bytes(o) + (*self).1.wire_bytes(o) + (*self).2.wire_bytes(o) + (*self).3.wire_bytes(o) + (*self).4.wire_bytes(o) + (*self).5.wire_bytes(o) + (*self).6.wire_bytes(o) + (*self).7.wire_bytes(o) + (*self).8.wire_bytes(o))) + (*self).9.wire_bytes(o) =~= start@ + ((*self).0.wire_bytes(o) + (*self).1.wire_bytes(o) + (*self).2.wire_bytes(o) + (*self).3.wire_bytes(o) + (*self).4.wire_bytes(o) + (*self).5.wire_bytes(o) + (*self).6.wire_bytes(o) + (*self).7.wire_bytes(o) + (*self).8.wire_bytes(o) + (*self).9.wire_bytes(o)));
                    lemma_prefix_chain(dst@, start@ + ((*self).0.wire_bytes(o) + (*self).1.wire_bytes(o) + (*self).2.wire_bytes(o) + (*self).3.wire_bytes(o) + (*self).4.wire_bytes(o) + (*self).5.wire_bytes(o) + (*self).6.wire_bytes(o) + (*self).7.wire_bytes(o) + (*self).8.wire_bytes(o)), start@ + ((*self).0.wire_bytes(o) + (*self).1.wire_bytes(o) + (*self).2.wire_bytes(o) + (*self).3.wire_bytes(o) + (*self).4.wire_bytes(o) + (*self).5.wire_bytes(o) + (*self).6.wire_bytes(o) + (*self).7.wire_bytes(o) + (*self).8.wire_bytes(o) + (*self).9.wire_bytes(o)));
                    lemma_prefix_of_append(start@ + ((*self).0.wire_bytes(o) + (*self).1.wire_bytes(o) + (*self).2.wire_bytes(o) + (*self).3.wire_bytes(o) + (*self).4.wire_bytes(o) + (*self).5.wire_bytes(o) + (*self).6.wire_bytes(o) + (*self).7.wire_bytes(o) + (*self).8.wire_bytes(o) + (*self).9.wire_bytes(o)), (*self).10.wire_bytes(o));
                    assert((start@ + ((*self).0.wire_bytes(o) + (*self).1.wire_bytes(o) + (*self).2.wire_bytes(o) + (*self).3.wire_bytes(o) + (*self).4.wire_bytes(o) + (*self).5.wire_bytes(o) + (*self).6.wire_bytes(o) + (*self).7.wire_bytes(o) + (*self).8.wire_bytes(o) + (*self).9.wire_bytes(o))) + (*self).10.wire_bytes(o) =~= start@ + ((*self).0.wire_bytes(o) + (*self).1.wire_bytes(o) + (*self).2.wire_bytes(o) + (*self).3.wire_bytes(o) + (*self).4.wire_bytes(o) + (*self).5.wire_bytes(o) + (*self).6.wire_bytes(o) + (*self).7.wire_bytes(o) + (*self).8.wire_bytes(o) + (*self).9.wire_bytes(o) + (*self).10.wire_bytes(o)));
                    lemma_prefix_chain(dst@, start@ + ((*self).0.wire_bytes(o) + (*self).1.wire_bytes(o) + (*self).2.wire_bytes(o) + (*self).3.wire_bytes(o) + (*self).4.wire_bytes(o) + (*self).5.wire_bytes(o) + (*self).6.wire_bytes(o) + (*self).7.wire_bytes(o) + (*self).8.wire_bytes(o) + (*self).9.wire_bytes(o)), start@ + ((*self).0.wire_bytes(o) + (*self).1.wire_bytes(o) + (*self).2.wire_bytes(o) + (*self).3.wire_bytes(o) + (*self).4.wire_bytes(o) + (*self).5.wire_bytes(o) + (*self).6.wire_bytes(o) + (*self).7.wire_bytes(o) + (*self).8.wire_bytes(o) + (*self).9.wire_bytes(o) + (*self).10.wire_bytes(o)));
                }
                return Err(e);
            },
        }
        proof {
            assert(dst@ =~= start@ + ((*self).0.wire_bytes(o)));
        }
        let ghost d1 = *dst;
        match self.1.pack_to(o, dst) {
            Ok(_) => {},
            Err(e) => {
                proof {
                    lemma_prefix_of_append(start@, (*self).0.wire_bytes(o));
                    lemma_prefix_chain(start@, d1@, dst@);
                    assert(d1@ + (*self).1.wire_bytes(o) =~= start@ + ((*self).0.wire_bytes(o) + (*self).1.wire_bytes(o)));
                    lemma_prefix_of_append(start@ + ((*self).0.wire_bytes(o) + (*self).1.wire_bytes(o)), (*self).2.wire_bytes(o));
                    assert((start@ + ((*self).0.wire_bytes(o) + (*self).1.wire_bytes(o))) + (*self).2.wire_bytes(o) =~= start@ + ((*self).0.wire_bytes(o) + (*self).1.wire_bytes(o) + (*self).2.wire_bytes(o)));
                    lemma_prefix_chain(dst@, start@ + ((*self).0.wire_bytes(o) + (*self).1.wire_bytes(o)), start@ + ((*self).0.wire_bytes(o) + (*self).1.wire_bytes(o) + (*self).2.wire_bytes(o)));
                    lemma_prefix_of_append(start@ + ((*self).0.wire_bytes(o) + (*self).1.wire_bytes(o) + (*self).2.wire_bytes(o)), (*self).3.wire_bytes(o));
                    assert((start@ + ((*self).0.wire_bytes(o) + (*self).1.wire_bytes(o) + (*self).2.wire_bytes(o))) + (*self).3.wire_bytes(o) =~= start@ + ((*self).0.wire_bytes(o) + (*self).1.wire_bytes(o) + (*self).2.wire_bytes(o) + (*self).3.wire_bytes(o)));
                    lemma_prefix_chain(dst@, start@ + ((*self).0.wire_bytes(o) + (*self).1.wire_bytes(o) + (*self).2.wire_bytes(o)), start@ + ((*self).0.wire_bytes(o) + (*self).1.wire_bytes(o) + (*self).2.wire_bytes(o) + (*self).3.wire_bytes(o)));
                    lemma_prefix_of_append(start@ + ((*self).0.wire_bytes(o) + (*self).1.wire_bytes(o) + (*self).2.wire_bytes(o) + (*self).3.wire_bytes(o)), (*self).4.wire_bytes(o));
                    assert((start@ + ((*self).0.wire_bytes(o) + (*self).1.wire_bytes(o) + (*self).2.wire_bytes(o) + (*self).3.wire_bytes(o))) + (*self).4.wire_bytes(o) =~= start@ + ((*self).0.wire_bytes(o) + (*self).1.wire_bytes(o) + (*self).2.wire_bytes(o) + (*self).3.wire_bytes(o) + (*self).4.wire_bytes(o)));
                    lemma_prefix_chain(dst@, start@ + ((*self).0.wire_bytes(o) + (*self).1.wire_bytes(o) + (*self).2.wire_bytes(o) + (*self).3.wire_bytes(o)), start@ + ((*self).0.wire_bytes(o) + (*self).1.wire_bytes(o) + (*self).2.wire_bytes(o) + (*self).3.wire_bytes(o) + (*self).4.wire_bytes(o)));
                    lemma_prefix_of_append(start@ + ((*self).0.wire_bytes(o) + (*self).1.wire_bytes(o) + (*self).2.wire_bytes(o) + (*self).3.wire_bytes(o) + (*self).4.wire_bytes(o)), (*self).5.wire_bytes(o));
                    assert((start@ + ((*self).0.wire_bytes(o) + (*self).1.wire_bytes(o) + (*self).2.wire_bytes(o) + (*self).3.wire_bytes(o) + (*self).4.wire_bytes(o))) + (*self).5.wire_bytes(o) =~= start@ + ((*self).0.wire_bytes(o) + (*self).1.wire_bytes(o) + (*self).2.wire_bytes(o) + (*self).3.wire_bytes(o) + (*self).4.wire_bytes(o) + (*self).5.wire_bytes(o)));
                    lemma_prefix_chain(dst@, start@ + ((*self).0.wire_bytes(o) + (*self).1.wire_bytes(o) + (*self).2.wire_bytes(o) + (*self).3.wire_bytes(o) + (*self).4.wire_bytes(o)), start@ + ((*self).0.wire_bytes(o) + (*self).1.wire_bytes(o) + (*self).2.wire_bytes(o) + (*self).3.wire_bytes(o) + (*self).4.wire_bytes(o) + (*self).5.wire_bytes(o)));
                    lemma_prefix_of_append(start@ + ((*self).0.wire_bytes(o) + (*self).1.wire_bytes(o) + (*self).2.wire_bytes(o) + (*self).3.wire_bytes(o) + (*self).4.wire_bytes(o) + (*self).5.wire_bytes(o)), (*self).6.wire_bytes(o));
                    assert((start@ + ((*self).0.wire_bytes(o) + (*self).1.wire_bytes(o) + (*self).2.wire_bytes(o) + (*self).3.wire_bytes(o) + (*self).4.wire_bytes(o) + (*self).5.wire_bytes(o))) + (*self).6.wire_bytes(o) =~= start@ + ((*self).0.wire_bytes(o) + (*self).1.wire_bytes(o) + (*self).2.wire_bytes(o) + (*self).3.wire_bytes(o) + (*self).4.wire_bytes(o) + (*self).5.wire_bytes(o) + (*self).6.wire_bytes(o)));
                    lemma_prefix_chain(dst@, start@ + ((*self).0.wire_bytes(o) + (*self).1.wire_bytes(o) + (*self).2.wire_bytes(o) + (*self).3.wire_bytes(o) + (*self).4.wire_bytes(o) + (*self).5.wire_bytes(o)), start@ + ((*self).0.wire_bytes(o) + (*self).1.wire_bytes(o) + (*self).2.wire_bytes(o) + (*self).3.wire_bytes(o) + (*self).4.wire_bytes(o) + (*self).5.wire_bytes(o) + (*self).6.wire_bytes(o)));
                    lemma_prefix_of_append(start@ + ((*self).0.wire_bytes(o) + (*self).1.wire_bytes(o) + (*self).2.wire_bytes(o) + (*self).3.wire_bytes(o) + (*self).4.wire_bytes(o) + (*self).5.wire_bytes(o) + (*self).6.wire_bytes(o)), (*self).7.wire_bytes(o));
                    assert((start@ + ((*self).0.wire_bytes(o) + (*self).1.wire_bytes(o) + (*self).2.wire_bytes(o) + (*self).3.wire_bytes(o) + (*self).4.wire_bytes(o) + (*self).5.wire_bytes(o) + (*self).6.wire_bytes(o))) + (*self).7.wire_bytes(o) =~= start@ + ((*self).0.wire_bytes(o) + (*self).1.wire_bytes(o) + (*self).2.wire_bytes(o) + (*self).3.wire_bytes(o) + (*self).4.wire_bytes(o) + (*self).5.wire_bytes(o) + (*self).6.wire_bytes(o) + (*self).7.wire_bytes(o)));
                    lemma_prefix_chain(dst@, start@ + ((*self).0.wire_bytes(o) + (*self).1.wire_bytes(o) + (*self).2.wire_bytes(o) + (*self).3.wire_bytes(o) + (*self).4.wire_bytes(o) + (*self).5.wire_bytes(o) + (*self).6.wire_bytes(o)), start@ + ((*self).0.wire_bytes(o) + (*self).1.wire_bytes(o) + (*self).2.wire_bytes(o) + (*self).3.wire_bytes(o) + (*self).4.wire_bytes(o) + (*self).5.wire_bytes(o) + (*self).6.wire_bytes(o) + (*self).7.wire_bytes(o)));
                    lemma_prefix_of_append(start@ + ((*self).0.wire_bytes(o) + (*self).1.wire_bytes(o) + (*self).2.wire_bytes(o) + (*self).3.wire_bytes(o) + (*self).4.wire_bytes(o) + (*self).5.wire_bytes(o) + (*self).6.wire_bytes(o) + (*self).7.wire_bytes(o)), (*self).8.wire_bytes(o));
                    assert((start@ + ((*self).0.wire_bytes(o) + (*self).1.wire_bytes(o) + (*self).2.wire_bytes(o) + (*self).3.wire_bytes(o) + (*self).4.wire_bytes(o) + (*self).5.wire_bytes(o) + (*self).6.wire_bytes(o) + (*self).7.wire_bytes(o))) + (*self).8.wire_bytes(o) =~= start@ + ((*self).0.wire_bytes(o) + (*self).1.wire_bytes(o) + (*self).2.wire_bytes(o) + (*self).3.wire_bytes(o) + (*self).4.wire_bytes(o) + (*self).5.wire_bytes(o) + (*self).6.wire_bytes(o) + (*self).7.wire_bytes(o) + (*self).8.wire_bytes(o)));
                    lemma_prefix_chain(dst@, start@ + ((*self).0.wire_bytes(o) + (*self).1.wire_bytes(o) + (*self).2.wire_bytes(o) + (*self).3.wire_bytes(o) + (*self).4.wire_bytes(o) + (*self).5.wire_bytes(o) + (*self).6.wire_bytes(o) + (*self).7.wire_bytes(o)), start@ + ((*self).0.wire_bytes(o) + (*self).1.wire_bytes(o) + (*self).2.wire_bytes(o) + (*self).3.wire_bytes(o) + (*self).4.wire_bytes(o) + (*self).5.wire_bytes(o) + (*self).6.wire_bytes(o) + (*self).7.wire_bytes(o) + (*self).8.wire_bytes(o)));
                    lemma_prefix_of_append(start@ + ((*self).0.wire_bytes(o) + (*self).1.wire_bytes(o) + (*self).2.wire_bytes(o) + (*self).3.wire_bytes(o) + (*self).4.wire_bytes(o) + (*self).5.wire_bytes(o) + (*self).6.wire_bytes(o) + (*self).7.wire_bytes(o) + (*self).8.wire_bytes(o)), (*self).9.wire_bytes(o));
                    assert((start@ + ((*self).0.wire_bytes(o) + (*self).1.wire_bytes(o) + (*self).2.wire_bytes(o) + (*self).3.wire_bytes(o) + (*self).4.wire_bytes(o) + (*self).5.wire_bytes(o) + (*self).6.wire_bytes(o) + (*self).7.wire_bytes(o) + (*self).8.wire_bytes(o))) + (*self).9.wire_bytes(o) =~= start@ + ((*self).0.wire_bytes(o) + (*self).1.wire_bytes(o) + (*self).2.wire_bytes(o) + (*self).3.wire_bytes(o) + (*self).4.wire_bytes(o) + (*self).5.wire_bytes(o) + (*self).6.wire_bytes(o) + (*self).7.wire_bytes(o) + (*self).8.wire_bytes(o) + (*self).9.wire_bytes(o)));
                    lemma_prefix_chain(dst@, start@ + ((*self).0.wire_bytes(o) + (*self).1.wire_bytes(o) + (*self).2.wire_bytes(o) + (*self).3.wire_bytes(o) + (*self).4.wire_bytes(o) + (*self).5.wire_bytes(o) + (*self).6.wire_bytes(o) + (*self).7.wire_bytes(o) + (*self).8.wire_bytes(o)), start@ + ((*self).0.wire_bytes(o) + (*self).1.wire_bytes(o) + (*self).2.wire_bytes(o) + (*self).3.wire_bytes(o) + (*self).4.wire_bytes(o) + (*self).5.wire_bytes(o) + (*self).6.wire_bytes(o) + (*self).7.wire_bytes(o) + (*self).8.wire_bytes(o) + (*self).9.wire_bytes(o)));
                    lemma_prefix_of_append(start@ + ((*self).0.wire_bytes(o) + (*self).1.wire_bytes(o) + (*self).2.wire_bytes(o) + (*self).3.wire_bytes(o) + (*self).4.wire_bytes(o) + (*self).5.wire_bytes(o) + (*self).6.wire_bytes(o) + (*self).7.wire_bytes(o) + (*self).8.wire_bytes(o) + (*self).9.wire_bytes(o)), (*self).10.wire_bytes(o));
                    assert((start@ + ((*self).0.wire_bytes(o) + (*self).1.wire_bytes(o) + (*self).2.wire_bytes(o) + (*self).3.wire_bytes(o) + (*self).4.wire_bytes(o) + (*self).5.wire_bytes(o) + (*self).6.wire_bytes(o) + (*self).7.wire_bytes(o) + (*self).8.wire_bytes(o) + (*self).9.wire_bytes(o))) + (*self).10.wire_bytes(o) =~= start@ + ((*self).0.wire_bytes(o) + (*self).1.wire_bytes(o) + (*self).2.wire_bytes(o) + (*self).3.wire_bytes(o) + (*self).4.wire_bytes(o) + (*self).5.wire_bytes(o) + (*self).6.wire_bytes(o) + (*self).7.wire_bytes(o) + (*self).8.wire_bytes(o) + (*self).9.wire_bytes(o) + (*self).10.wire_bytes(o)));
                    lemma_prefix_chain(dst@, start@ + ((*self).0.wire_bytes(o) + (*self).1.wire_bytes(o) + (*self).2.wire_bytes(o) + (*self).3.wire_bytes(o) + (*self).4.wire_bytes(o) + (*self).5.wire_bytes(o) + (*self).6.wire_bytes(o) + (*self).7.wire_bytes(o) + (*self).8.wire_bytes(o) + (*self).9.wire_bytes(o)), start@ + ((*self).0.wire_bytes(o) + (*self).1.wire_bytes(o) + (*self).2.wire_bytes(o) + (*self).3.wire_bytes(o) + (*self).4.wire_bytes(o) + (*self).5.wire_bytes(o) + (*self).6.wire_bytes(o) + (*self).7.wire_bytes(o) + (*self).8.wire_bytes(o) + (*self).9.wire_bytes(o) + (*self).10.wire_bytes(o)));
                }
                return Err(e);
            },
        }
        proof {
            assert(dst@ =~= start@ + ((*self).0.wire_bytes(o) + (*self).1.wire_bytes(o)));
        }
        let ghost d2 = *dst;
        match self.2.pack_to(o, dst) {
            Ok(_) => {},
            Err(e) => {
                proof {
                    lemma_prefix_of_append(start@, (*self).0.wire_bytes(o) + (*self).1.wire_bytes(o));
                    lemma_prefix_chain(start@, d2@, dst@);
                    assert(d2@ + (*self).2.wire_bytes(o) =~= start@ + ((*self).0.wire_bytes(o) + (*self).1.wire_bytes(o) + (*self).2.wire_bytes(o)));
                    lemma_prefix_of_append(start@ + ((*self).0.wire_bytes(o) + (*self).1.wire_bytes(o) + (*self).2.wire_bytes(o)), (*self).3.wire_bytes(o));
                    assert((start@ + ((*self).0.wire_bytes(o) + (*self).1.wire_bytes(o) + (*self).2.wire_bytes(o))) + (*self).3.wire_bytes(o) =~= start@ + ((*self).0.wire_bytes(o) + (*self).1.wire_bytes(o) + (*self).2.wire_bytes(o) + (*self).3.wire_bytes(o)));
                    lemma_prefix_chain(dst@, start@ + ((*self).0.wire_bytes(o) + (*self).1.wire_bytes(o) + (*self).2.wire_bytes(o)), start@ + ((*self).0.wire_bytes(o) + (*self).1.wire_bytes(o) + (*self).2.wire_bytes(o) + (*self).3.wire_bytes(o)));
                    lemma_prefix_of_append(start@ + ((*self).0.wire_bytes(o) + (*self).1.wire_bytes(o) + (*self).2.wire_bytes(o) + (*self).3.wire_bytes(o)), (*self).4.wire_bytes(o));
                    assert((start@ + ((*self).0.wire_bytes(o) + (*self).1.wire_bytes(o) + (*self).2.wire_bytes(o) + (*self).3.wire_bytes(o))) + (*self).4.wire_bytes(o) =~= start@ + ((*self).0.wire_bytes(o) + (*self).1.wire_bytes(o) + (*self).2.wire_bytes(o) + (*self).3.wire_bytes(o) + (*self).4.wire_bytes(o)));
                    lemma_prefix_chain(dst@, start@ + ((*self).0.wire_bytes(o) + (*self).1.wire_bytes(o) + (*self).2.wire_bytes(o) + (*self).3.wire_bytes(o)), start@ + ((*self).0.wire_bytes(o) + (*self).1.wire_bytes(o) + (*self).2.wire_bytes(o) + (*self).3.wire_bytes(o) + (*self).4.wire_bytes(o)));
                    lemma_prefix_of_append(start@ + ((*self).0.wire_bytes(o) + (*self).1.wire_bytes(o) + (*self).2.wire_bytes(o) + (*self).3.wire_bytes(o) + (*self).4.wire_bytes(o)), (*self).5.wire_bytes(o));
                    assert((start@ + ((*self).0.wire_bytes(o) + (*self).1.wire_bytes(o) + (*self).2.wire_bytes(o) + (*self).3.wire_bytes(o) + (*self).4.wire_bytes(o))) + (*self).5.wire_bytes(o) =~= start@ + ((*self).0.wire_bytes(o) + (*self).1.wire_bytes(o) + (*self).2.wire_bytes(o) + (*self).3.wire_bytes(o) + (*self).4.wire_bytes(o) + (*self).5.wire_bytes(o)));
                    lemma_prefix_chain(dst@, start@ + ((*self).0.wire_bytes(o) + (*self).1.wire_bytes(o) + (*self).2.wire_bytes(o) + (*self).3.wire_bytes(o) + (*self).4.wire_bytes(o)), start@ + ((*self).0.wire_bytes(o) + (*self).1.wire_bytes(o) + (*self).2.wire_bytes(o) + (*self).3.wire_bytes(o) + (*self).4.wire_bytes(o) + (*self).5.wire_bytes(o)));
                    lemma_prefix_of_append(start@ + ((*self).0.wire_bytes(o) + (*self).1.wire_bytes(o) + (*self).2.wire_bytes(o) + (*self).3.wire_bytes(o) + (*self).4.wire_bytes(o) + (*self).5.wire_bytes(o)), (*self).6.wire_bytes(o));
                    assert((start@ + ((*self).0.wire_bytes(o) + (*self).1.wire_bytes(o) + (*self).2.wire_bytes(o) + (*self).3.wire_bytes(o) + (*self).4.wire_bytes(o) + (*self).5.wire_bytes(o))) + (*self).6.wire_bytes(o) =~= start@ + ((*self).0.wire_bytes(o) + (*self).1.wire_bytes(o) + (*self).2.wire_bytes(o) + (*self).3.wire_bytes(o) + (*self).4.wire_bytes(o) + (*self).5.wire_bytes(o) + (*self).6.wire_bytes(o)));
                    lemma_prefix_chain(dst@, start@ + ((*self).0.wire_bytes(o) + (*self).1.wire_bytes(o) + (*self).2.wire_bytes(o) + (*self).3.wire_bytes(o) + (*self).4.wire_bytes(o) + (*self).5.wire_bytes(o)), start@ + ((*self).0.wire_bytes(o) + (*self).1.wire_bytes(o) + (*self).2.wire_bytes(o) + (*self).3.wire_bytes(o) + (*self).4.wire_bytes(o) + (*self).5.wire_bytes(o) + (*self).6.wire_bytes(o)));
                    lemma_prefix_of_append(start@ + ((*self).0.wire_bytes(o) + (*self).1.wire_bytes(o) + (*self).2.wire_bytes(o) + (*self).3.wire_bytes(o) + (*self).4.wire_bytes(o) + (*self).5.wire_bytes(o) + (*self).6.wire_bytes(o)), (*self).7.wire_bytes(o));
                    assert((start@ + ((*self).0.wire_bytes(o) + (*self).1.wire_bytes(o) + (*self).2.wire_bytes(o) + (*self).3.wire_bytes(o) + (*self).4.wire_bytes(o) + (*self).5.wire_bytes(o) + (*self).6.wire_bytes(o))) + (*self).7.wire_bytes(o) =~= start@ + ((*self).0.wire_bytes(o) + (*self).1.wire_bytes(o) + (*self).2.wire_bytes(o) + (*self).3.wire_bytes(o) + (*self).4.wire_bytes(o) + (*self).5.wire_bytes(o) + (*self).6.wire_bytes(o) + (*self).7.wire_bytes(o)));
                    lemma_prefix_chain(dst@, start@ + ((*self).0.wire_bytes(o) + (*self).1.wire_bytes(o) + (*self).2.wire_bytes(o) + (*self).3.wire_bytes(o) + (*self).4.wire_bytes(o) + (*self).5.wire_bytes(o) + (*self).6.wire_bytes(o)), start@ + ((*self).0.wire_bytes(o) + (*self).1.wire_bytes(o) + (*self).2.wire_bytes(o) + (*self).3.wire_bytes(o) + (*self).4.wire_bytes(o) + (*self).5.wire_bytes(o) + (*self).6.wire_bytes(o) + (*self).7.wire_bytes(o)));
                    lemma_prefix_of_append(start@ + ((*self).0.wire_bytes(o) + (*self).1.wire_bytes(o) + (*self).2.wire_bytes(o) + (*self).3.wire_bytes(o) + (*self).4.wire_bytes(o) + (*self).5.wire_bytes(o) + (*self).6.wire_bytes(o) + (*self).7.wire_bytes(o)), (*self).8.wire_bytes(o));
                    assert((start@ + ((*self).0.wire_bytes(o) + (*self).1.wire_bytes(o) + (*self).2.wire_bytes(o) + (*self).3.wire_bytes(o) + (*self).4.wire_bytes(o) + (*self).5.wire_bytes(o) + (*self).6.wire_bytes(o) + (*self).7.wire_bytes(o))) + (*self).8.wire_bytes(o) =~= start@ + ((*self).0.wire_bytes(o) + (*self).1.wire_bytes(o) + (*self).2.wire_bytes(o) + (*self).3.wire_bytes(o) + (*self).4.wire_bytes(o) + (*self).5.wire_bytes(o) + (*self).6.wire_bytes(o) + (*self).7.wire_bytes(o) + (*self).8.wire_bytes(o)));
                    lemma_prefix_chain(dst@, start@ + ((*self).0.wire_bytes(o) + (*self).1.wire_bytes(o) + (*self).2.wire_bytes(o) + (*self).3.wire_bytes(o) + (*self).4.wire_bytes(o) + (*self).5.wire_bytes(o) + (*self).6.wire_bytes(o) + (*self).7.wire_bytes(o)), start@ + ((*self).0.wire_bytes(o) + (*self).1.wire_bytes(o) + (*self).2.wire_bytes(o) + (*self).3.wire_bytes(o) + (*self).4.wire_bytes(o) + (*self).5.wire_bytes(o) + (*self).6.wire_bytes(o) + (*self).7.wire_bytes(o) + (*self).8.wire_bytes(o)));
                    lemma_prefix_of_append(start@ + ((*self).0.wire_bytes(o) + (*self).1.wire_bytes(o) + (*self).2.wire_bytes(o) + (*self).3.wire_bytes(o) + (*self).4.wire_bytes(o) + (*self).5.wire_bytes(o) + (*self).6.wire_bytes(o) + (*self).7.wire_bytes(o) + (*self).8.wire_bytes(o)), (*self).9.wire_bytes(o));
                    assert((start@ + ((*self).0.wire_bytes(o) + (*self).1.wire_bytes(o) + (*self).2.wire_bytes(o) + (*self).3.wire_bytes(o) + (*self).4.wire_bytes(o) + (*self).5.wire_bytes(o) + (*self).6.wire_bytes(o) + (*self).7.wire_bytes(o) + (*self).8.wire_bytes(o))) + (*self).9.wire_bytes(o) =~= start@ + ((*self).0.wire_bytes(o) + (*self).1.wire_bytes(o) + (*self).2.wire_bytes(o) + (*self).3.wire_bytes(o) + (*self).4.wire_bytes(o) + (*self).5.wire_bytes(o) + (*self).6.wire_bytes(o) + (*self).7.wire_bytes(o) + (*self).8.wire_bytes(o) + (*self).9.wire_bytes(o)));
                    lemma_prefix_chain(dst@, start@ + ((*self).0.wire_bytes(o) + (*self).1.wire_bytes(o) + (*self).2.wire_bytes(o) + (*self).3.wire_bytes(o) + (*self).4.wire_bytes(o) + (*self).5.wire_bytes(o) + (*self).6.wire_bytes(o) + (*self).7.wire_bytes(o) + (*self).8.wire_bytes(o)), start@ + ((*self).0.wire_bytes(o) + (*self).1.wire_bytes(o) + (*self).2.wire_bytes(o) + (*self).3.wire_bytes(o) + (*self).4.wire_bytes(o) + (*self).5.wire_bytes(o) + (*self).6.wire_bytes(o) + (*self).7.wire_bytes(o) + (*self).8.wire_bytes(o) + (*self).9.wire_bytes(o)));
                    lemma_prefix_of_append(start@ + ((*self).0.wire_bytes(o) + (*self).1.wire_bytes(o) + (*self).2.wire_bytes(o) + (*self).3.wire_bytes(o) + (*self).4.wire_bytes(o) + (*self).5.wire_bytes(o) + (*self).6.wire_bytes(o) + (*self).7.wire_bytes(o) + (*self).8.wire_bytes(o) + (*self).9.wire_bytes(o)), (*self).10.wire_bytes(o));
                    assert((start@ + ((*self).0.wire_bytes(o) + (*self).1.wire_bytes(o) + (*self).2.wire_bytes(o) + (*self).3.wire_bytes(o) + (*self).4.wire_bytes(o) + (*self).5.wire_bytes(o) + (*self).6.wire_bytes(o) + (*self).7.wire_bytes(o) + (*self).8.wire_bytes(o) + (*self).9.wire_bytes(o))) + (*self).10.wire_bytes(o) =~= start@ + ((*self).0.wire_bytes(o) + (*self).1.wire_bytes(o) + (*self).2.wire_bytes(o) + (*self).3.wire_bytes(o) + (*self).4.wire_bytes(o) + (*self).5.wire_bytes(o) + (*self).6.wire_bytes(o) + (*self).7.wire_bytes(o) + (*self).8.wire_bytes(o) + (*self).9.wire_bytes(o) + (*self).10.wire_bytes(o)));
                    lemma_prefix_chain(dst@, start@ + ((*self).0.wire_bytes(o) + (*self).1.wire_bytes(o) + (*self).2.wire_bytes(o) + (*self).3.wire_bytes(o) + (*self).4.wire_bytes(o) + (*self).5.wire_bytes(o) + (*self).6.wire_bytes(o) + (*self).7.wire_bytes(o) + (*self).8.wire_bytes(o) + (*self).9.wire_bytes(o)), start@ + ((*self).0.wire_bytes(o) + (*self).1.wire_bytes(o) + (*self).2.wire_bytes(o) + (*self).3.wire_bytes(o) + (*self).4.wire_bytes(o) + (*self).5.wire_bytes(o) + (*self).6.wire_bytes(o) + (*self).7.wire_bytes(o) + (*self).8.wire_bytes(o) + (*self).9.wire_bytes(o) + (*self).10.wire_bytes(o)));
                }
                return Err(e);
            },
        }
        proof {
            assert(dst@ =~= start@ + ((*self).0.wire_bytes(o) + (*self).1.wire_bytes(o) + (*self).2.wire_bytes(o)));
        }
        let ghost d3 = *dst;
        match self.3.pack_to(o, dst) {
            Ok(_) => {},
            Err(e) => {
                proof {
                    lemma_prefix_of_append(start@, (*self).0.wire_bytes(o) + (*self).1.wire_bytes(o) + (*self).2.wire_bytes(o));
                    lemma_prefix_chain(start@, d3@, dst@);
                    assert(d3@ + (*self).3.wire_bytes(o) =~= start@ + ((*self).0.wire_bytes(o) + (*self).1.wire_bytes(o) + (*self).2.wire_bytes(o) + (*self).3.wire_bytes(o)));
                    lemma_prefix_of_append(start@ + ((*self).0.wire_bytes(o) + (*self).1.wire_bytes(o) + (*self).2.wire_bytes(o) + (*self).3.wire_bytes(o)), (*self).4.wire_bytes(o));
                    assert((start@ + ((*self).0.wire_bytes(o) + (*self).1.wire_bytes(o) + (*self).2.wire_bytes(o) + (*self).3.wire_bytes(o))) + (*self).4.wire_bytes(o) =~= start@ + ((*self).0.wire_bytes(o) + (*self).1.wire_bytes(o) + (*self).2.wire_bytes(o) + (*self).3.wire_bytes(o) + (*self).4.wire_bytes(o)));
                    lemma_prefix_chain(dst@, start@ + ((*self).0.wire_bytes(o) + (*self).1.wire_bytes(o) + (*self).2.wire_bytes(o) + (*self).3.wire_bytes(o)), start@ + ((*self).0.wire_bytes(o) + (*self).1.wire_bytes(o) + (*self).2.wire_bytes(o) + (*self).3.wire_bytes(o) + (*self).4.wire_bytes(o)));
                    lemma_prefix_of_append(start@ + ((*self).0.wire_bytes(o) + (*self).1.wire_bytes(o) + (*self).2.wire_bytes(o) + (*self).3.wire_bytes(o) + (*self).4.wire_bytes(o)), (*self).5.wire_bytes(o));
                    assert((start@ + ((*self).0.wire_bytes(o) + (*self).1.wire_bytes(o) + (*self).2.wire_bytes(o) + (*self).3.wire_bytes(o) + (*self).4.wire_bytes(o))) + (*self).5.wire_bytes(o) =~= start@ + ((*self).0.wire_bytes(o) + (*self).1.wire_bytes(o) + (*self).2.wire_bytes(o) + (*self).3.wire_bytes(o) + (*self).4.wire_bytes(o) + (*self).5.wire_bytes(o)));
                    lemma_prefix_chain(dst@, start@ + ((*self).0.wire_bytes(o) + (*self).1.wire_bytes(o) + (*self).2.wire_bytes(o) + (*self).3.wire_bytes(o) + (*self).4.wire_bytes(o)), start@ + ((*self).0.wire_bytes(o) + (*self).1.wire_bytes(o) + (*self).2.wire_bytes(o) + (*self).3.wire_bytes(o) + (*self).4.wire_bytes(o) + (*self).5.wire_bytes(o)));
                    lemma_prefix_of_append(start@ + ((*self).0.wire_bytes(o) + (*self).1.wire_bytes(o) + (*self).2.wire_bytes(o) + (*self).3.wire_bytes(o) + (*self).4.wire_bytes(o) + (*self).5.wire_bytes(o)), (*self).6.wire_bytes(o));
                    assert((start@ + ((*self).0.wire_bytes(o) + (*self).1.wire_bytes(o) + (*self).2.wire_bytes(o) + (*self).3.wire_bytes(o) + (*self).4.wire_bytes(o) + (*self).5.wire_bytes(o))) + (*self).6.wire_bytes(o) =~= start@ + ((*self).0.wire_bytes(o) + (*self).1.wire_bytes(o) + (*self).2.wire_bytes(o) + (*self).3.wire_bytes(o) + (*self).4.wire_bytes(o) + (*self).5.wire_bytes(o) + (*self).6.wire_bytes(o)));
                    lemma_prefix_chain(dst@, start@ + ((*self).0.wire_bytes(o) + (*self).1.wire_bytes(o) + (*self).2.wire_bytes(o) + (*self).3.wire_bytes(o) + (*self).4.wire_bytes(o) + (*self).5.wire_bytes(o)), start@ + ((*self).0.wire_bytes(o) + (*self).1.wire_bytes(o) + (*self).2.wire_bytes(o) + (*self).3.wire_bytes(o) + (*self).4.wire_bytes(o) + (*self).5.wire_bytes(o) + (*self).6.wire_bytes(o)));
                    lemma_prefix_of_append(start@ + ((*self).0.wire_bytes(o) + (*self).1.wire_bytes(o) + (*self).2.wire_bytes(o) + (*self).3.wire_bytes(o) + (*self).4.wire_bytes(o) + (*self).5.wire_bytes(o) + (*self).6.wire_bytes(o)), (*self).7.wire_bytes(o));
                    assert((start@ + ((*self).0.wire_bytes(o) + (*self).1.wire_bytes(o) + (*self).2.wire_bytes(o) + (*self).3.wire_bytes(o) + (*self).4.wire_bytes(o) + (*self).5.wire_bytes(o) + (*self).6.wire_bytes(o))) + (*self).7.wire_bytes(o) =~= start@ + ((*self).0.wire_bytes(o) + (*self).1.wire_bytes(o) + (*self).2.wire_bytes(o) + (*self).3.wire_bytes(o) + (*self).4.wire_bytes(o) + (*self).5.wire_bytes(o) + (*self).6.wire_bytes(o) + (*self).7.wire_bytes(o)));
                    lemma_prefix_chain(dst@, start@ + ((*self).0.wire_bytes(o) + (*self).1.wire_bytes(o) + (*self).2.wire_bytes(o) + (*self).3.wire_bytes(o) + (*self).4.wire_bytes(o) + (*self).5.wire_bytes(o) + (*self).6.wire_bytes(o)), start@ + ((*self).0.wire_bytes(o) + (*self).1.wire_bytes(o) + (*self).2.wire_bytes(o) + (*self).3.wire_bytes(o) + (*self).4.wire_bytes(o) + (*self).5.wire_bytes(o) + (*self).6.wire_bytes(o) + (*self).7.wire_bytes(o)));
                    lemma_prefix_of_append(start@ + ((*self).0.wire_bytes(o) + (*self).1.wire_bytes(o) + (*self).2.wire_bytes(o) + (*self).3.wire_bytes(o) + (*self).4.wire_bytes(o) + (*self).5.wire_bytes(o) + (*self).6.wire_bytes(o) + (*self).7.wire_bytes(o)), (*self).8.wire_bytes(o));
                    assert((start@ + ((*self).0.wire_bytes(o) + (*self).1.wire_bytes(o) + (*self).2.wire_bytes(o) + (*self).3.wire_bytes(o) + (*self).4.wire_bytes(o) + (*self).5.wire_bytes(o) + (*self).6.wire_bytes(o) + (*self).7.wire_bytes(o))) + (*self).8.wire_bytes(o) =~= start@ + ((*self).0.wire_bytes(o) + (*self).1.wire_bytes(o) + (*self).2.wire_bytes(o) + (*self).3.wire_bytes(o) + (*self).4.wire_bytes(o) + (*self).5.wire_bytes(o) + (*self).6.wire_bytes(o) + (*self).7.wire_bytes(o) + (*self).8.wire_bytes(o)));
                    lemma_prefix_chain(dst@, start@ + ((*self).0.wire_bytes(o) + (*self).1.wire_bytes(o) + (*self).2.wire_bytes(o) + (*self).3.wire_bytes(o) + (*self).4.wire_bytes(o) + (*self).5.wire_bytes(o) + (*self).6.wire_bytes(o) + (*self).7.wire_bytes(o)), start@ + ((*self).0.wire_bytes(o) + (*self).1.wire_bytes(o) + (*self).2.wire_bytes(o) + (*self).3.wire_bytes(o) + (*self).4.wire_bytes(o) + (*self).5.wire_bytes(o) + (*self).6.wire_bytes(o) + (*self).7.wire_bytes(o) + (*self).8.wire_bytes(o)));
                    lemma_prefix_of_append(start@ + ((*self).0.wire_bytes(o) + (*self).1.wire_bytes(o) + (*self).2.wire_bytes(o) + (*self).3.wire_bytes(o) + (*self).4.wire_bytes(o) + (*self).5.wire_bytes(o) + (*self).6.wire_bytes(o) + (*self).7.wire_bytes(o) + (*self).8.wire_bytes(o)), (*self).9.wire_bytes(o));
                    assert((start@ + ((*self).0.wire_bytes(o) + (*self).1.wire_bytes(o) + (*self).2.wire_bytes(o) + (*self).3.wire_bytes(o) + (*self).4.wire_bytes(o) + (*self).5.wire_bytes(o) + (*self).6.wire_bytes(o) + (*self).7.wire_bytes(o) + (*self).8.wire_bytes(o))) + (*self).9.wire_bytes(o) =~= start@ + ((*self).0.wire_bytes(o) + (*self).1.wire_bytes(o) + (*self).2.wire_bytes(o) + (*self).3.wire_bytes(o) + (*self).4.wire_bytes(o) + (*self).5.wire_bytes(o) + (*self).6.wire_bytes(o) + (*self).7.wire_bytes(o) + (*self).8.wire_bytes(o) + (*self).9.wire_bytes(o)));
                    lemma_prefix_chain(dst@, start@ + ((*self).0.wire_bytes(o) + (*self).1.wire_bytes(o) + (*self).2.wire_bytes(o) + (*self).3.wire_bytes(o) + (*self).4.wire_bytes(o) + (*self).5.wire_bytes(o) + (*self).6.wire_bytes(o) + (*self).7.wire_bytes(o) + (*self).8.wire_bytes(o)), start@ + ((*self).0.wire_bytes(o) + (*self).1.wire_bytes(o) + (*self).2.wire_bytes(o) + (*self).3.wire_bytes(o) + (*self).4.wire_bytes(o) + (*self).5.wire_bytes(o) + (*self).6.wire_bytes(o) + (*self).7.wire_bytes(o) + (*self).8.wire_bytes(o) + (*self).9.wire_bytes(o)));
                    lemma_prefix_of_append(start@ + ((*self).0.wire_bytes(o) + (*self).1.wire_bytes(o) + (*self).2.wire_bytes(o) + (*self).3.wire_bytes(o) + (*self).4.wire_bytes(o) + (*self).5.wire_bytes(o) + (*self).6.wire_bytes(o) + (*self).7.wire_bytes(o) + (*self).8.wire_bytes(o) + (*self).9.wire_bytes(o)), (*self).10.wire_bytes(o));
                    assert((start@ + ((*self).0.wire_bytes(o) + (*self).1.wire_bytes(o) + (*self).2.wire_bytes(o) + (*self).3.wire_bytes(o) + (*self).4.wire_bytes(o) + (*self).5.wire_bytes(o) + (*self).6.wire_bytes(o) + (*self).7.wire_bytes(o) + (*self).8.wire_bytes(o) + (*self).9.wire_bytes(o))) + (*self).10.wire_bytes(o) =~= start@ + ((*self).0.wire_bytes(o) + (*self).1.wire_bytes(o) + (*self).2.wire_bytes(o) + (*self).3.wire_bytes(o) + (*self).4.wire_bytes(o) + (*self).5.wire_bytes(o) + (*self).6.wire_bytes(o) + (*self).7.wire_bytes(o) + (*self).8.wire_bytes(o) + (*self).9.wire_bytes(o) + (*self).10.wire_bytes(o)));
                    lemma_prefix_chain(dst@, start@ + ((*self).0.wire_bytes(o) + (*self).1.wire_bytes(o) + (*self).2.wire_bytes(o) + (*self).3.wire_bytes(o) + (*self).4.wire_bytes(o) + (*self).5.wire_bytes(o) + (*self).6.wire_bytes(o) + (*self).7.wire_bytes(o) + (*self).8.wire_bytes(o) + (*self).9.wire_bytes(o)), start@ + ((*self).0.wire_bytes(o) + (*self).1.wire_bytes(o) + (*self).2.wire_bytes(o) + (*self).3.wire_bytes(o) + (*self).4.wire_bytes(o) + (*self).5.wire_bytes(o) + (*self).6.wire_bytes(o) + (*self).7.wire_bytes(o) + (*self).8.wire_bytes(o) + (*self).9.wire_bytes(o) + (*self).10.wire_bytes(o)));
                }
                return Err(e);
            },
        }
        proof {
            assert(dst@ =~= start@ + ((*self).0.wire_bytes(o) + (*self).1.wire_bytes(o) + (*self).2.wire_bytes(o) + (*self).3.wire_bytes(o)));
        }
        let ghost d4 = *dst;
        match self.4.pack_to(o, dst) {
            Ok(_) => {},
            Err(e) => {
                proof {
                    lemma_prefix_of_append(start@, (*self).0.wire_bytes(o) + (*self).1.wire_bytes(o) + (*self).2.wire_bytes(o) + (*self).3.wire_bytes(o));
                    lemma_prefix_chain(start@, d4@, dst@);
                    assert(d4@ + (*self).4.wire_bytes(o) =~= start@ + ((*self).0.wire_bytes(o) + (*self).1.wire_bytes(o) + (*self).2.wire_bytes(o) + (*self).3.wire_bytes(o) + (*self).4.wire_bytes(o)));
                    lemma_prefix_of_append(start@ + ((*self).0.wire_bytes(o) + (*self).1.wire_bytes(o) + (*self).2.wire_bytes(o) + (*self).3.wire_bytes(o) + (*self).4.wire_bytes(o)), (*self).5.wire_bytes(o));
                    assert((start@ + ((*self).0.wire_bytes(o) + (*self).1.wire_bytes(o) + (*self).2.wire_bytes(o) + (*self).3.wire_bytes(o) + (*self).4.wire_bytes(o))) + (*self).5.wire_bytes(o) =~= start@ + ((*self).0.wire_bytes(o) + (*self).1.wire_bytes(o) + (*self).2.wire_bytes(o) + (*self).3.wire_bytes(o) + (*self).4.wire_bytes(o) + (*self).5.wire_bytes(o)));
                    lemma_prefix_chain(dst@, start@ + ((*self).0.wire_bytes(o) + (*self).1.wire_bytes(o) + (*self).2.wire_bytes(o) + (*self).3.wire_bytes(o) + (*self).4.wire_bytes(o)), start@ + ((*self).0.wire_bytes(o) + (*self).1.wire_bytes(o) + (*self).2.wire_bytes(o) + (*self).3.wire_bytes(o) + (*self).4.wire_bytes(o) + (*self).5.wire_bytes(o)));
                    lemma_prefix_of_append(start@ + ((*self).0.wire_bytes(o) + (*self).1.wire_bytes(o) + (*self).2.wire_bytes(o) + (*self).3.wire_bytes(o) + (*self).4.wire_bytes(o) + (*self).5.wire_bytes(o)), (*self).6.wire_bytes(o));
                    assert((start@ + ((*self).0.wire_bytes(o) + (*self).1.wire_bytes(o) + (*self).2.wire_bytes(o) + (*self).3.wire_bytes(o) + (*self).4.wire_bytes(o) + (*self).5.wire_bytes(o))) + (*self).6.wire_bytes(o) =~= start@ + ((*self).0.wire_bytes(o) + (*self).1.wire_bytes(o) + (*self).2.wire_bytes(o) + (*self).3.wire_bytes(o) + (*self).4.wire_bytes(o) + (*self).5.wire_bytes(o) + (*self).6.wire_bytes(o)));
                    lemma_prefix_chain(dst@, start@ + ((*self).0.wire_bytes(o) + (*self).1.wire_bytes(o) + (*self).2.wire_bytes(o) + (*self).3.wire_bytes(o) + (*self).4.wire_bytes(o) + (*self).5.wire_bytes(o)), start@ + ((*self).0.wire_bytes(o) + (*self).1.wire_bytes(o) + (*self).2.wire_bytes(o) + (*self).3.wire_bytes(o) + (*self).4.wire_bytes(o) + (*self).5.wire_bytes(o) + (*self).6.wire_bytes(o)));
                    lemma_prefix_of_append(start@ + ((*self).0.wire_bytes(o) + (*self).1.wire_bytes(o) + (*self).2.wire_bytes(o) + (*self).3.wire_bytes(o) + (*self).4.wire_bytes(o) + (*self).5.wire_bytes(o) + (*self).6.wire_bytes(o)), (*self).7.wire_bytes(o));
                    assert((start@ + ((*self).0.wire_bytes(o) + (*self).1.wire_bytes(o) + (*self).2.wire_bytes(o) + (*self).3.wire_bytes(o) + (*self).4.wire_bytes(o) + (*self).5.wire_bytes(o) + (*self).6.wire_bytes(o))) + (*self).7.wire_bytes(o) =~= start@ + ((*self).0.wire_bytes(o) + (*self).1.wire_bytes(o) + (*self).2.wire_bytes(o) + (*self).3.wire_bytes(o) + (*self).4.wire_bytes(o) + (*self).5.wire_bytes(o) + (*self).6.wire_bytes(o) + (*self).7.wire_bytes(o)));
                    lemma_prefix_chain(dst@, start@ + ((*self).0.wire_bytes(o) + (*self).1.wire_bytes(o) + (*self).2.wire_bytes(o) + (*self).3.wire_bytes(o) + (*self).4.wire_bytes(o) + (*self).5.wire_bytes(o) + (*self).6.wire_bytes(o)), start@ + ((*self).0.wire_bytes(o) + (*self).1.wire_bytes(o) + (*self).2.wire_bytes(o) + (*self).3.wire_bytes(o) + (*self).4.wire_bytes(o) + (*self).5.wire_bytes(o) + (*self).6.wire_bytes(o) + (*self).7.wire_bytes(o)));
                    lemma_prefix_of_append(start@ + ((*self).0.wire_bytes(o) + (*self).1.wire_bytes(o) + (*self).2.wire_bytes(o) + (*self).3.wire_bytes(o) + (*self).4.wire_bytes(o) + (*self).5.wire_bytes(o) + (*self).6.wire_bytes(o) + (*self).7.wire_bytes(o)), (*self).8.wire_bytes(o));
                    assert((start@ + ((*self).0.wire_bytes(o) + (*self).1.wire_bytes(o) + (*self).2.wire_bytes(o) + (*self).3.wire_bytes(o) + (*self).4.wire_bytes(o) + (*self).5.wire_bytes(o) + (*self).6.wire_bytes(o) + (*self).7.wire_bytes(o))) + (*self).8.wire_bytes(o) =~= start@ + ((*self).0.wire_bytes(o) + (*self).1.wire_bytes(o) + (*self).2.wire_bytes(o) + (*self).3.wire_bytes(o) + (*self).4.wire_bytes(o) + (*self).5.wire_bytes(o) + (*self).6.wire_bytes(o) + (*self).7.wire_bytes(o) + (*self).8.wire_bytes(o)));
                    lemma_prefix_chain(dst@, start@ + ((*self).0.wire_bytes(o) + (*self).1.wire_bytes(o) + (*self).2.wire_bytes(o) + (*self).3.wire_bytes(o) + (*self).4.wire_bytes(o) + (*self).5.wire_bytes(o) + (*self).6.wire_bytes(o) + (*self).7.wire_bytes(o)), start@ + ((*self).0.wire_bytes(o) + (*self).1.wire_bytes(o) + (*self).2.wire_bytes(o) + (*self).3.wire_bytes(o) + (*self).4.wire_bytes(o) + (*self).5.wire_bytes(o) + (*self).6.wire_bytes(o) + (*self).7.wire_bytes(o) + (*self).8.wire_bytes(o)));
                    lemma_prefix_of_append(start@ + ((*self).0.wire_bytes(o) + (*self).1.wire_bytes(o) + (*self).2.wire_bytes(o) + (*self).3.wire_bytes(o) + (*self).4.wire_bytes(o) + (*self).5.wire_bytes(o) + (*self).6.wire_bytes(o) + (*self).7.wire_bytes(o) + (*self).8.wire_bytes(o)), (*self).9.wire_bytes(o));
                    assert((start@ + ((*self).0.wire_bytes(o) + (*self).1.wire_bytes(o) + (*self).2.wire_bytes(o) + (*self).3.wire_bytes(o) + (*self).4.wire_bytes(o) + (*self).5.wire_bytes(o) + (*self).6.wire_bytes(o) + (*self).7.wire_bytes(o) + (*self).8.wire_bytes(o))) + (*self).9.wire_bytes(o) =~= start@ + ((*self).0.wire_bytes(o) + (*self).1.wire_bytes(o) + (*self).2.wire_bytes(o) + (*self).3.wire_bytes(o) + (*self).4.wire_bytes(o) + (*self).5.wire_bytes(o) + (*self).6.wire_bytes(o) + (*self).7.wire_bytes(o) + (*self).8.wire_bytes(o) + (*self).9.wire_bytes(o)));
                    lemma_prefix_chain(dst@, start@ + ((*self).0.wire_bytes(o) + (*self).1.wire_bytes(o) + (*self).2.wire_bytes(o) + (*self).3.wire_bytes(o) + (*self).4.wire_bytes(o) + (*self).5.wire_bytes(o) + (*self).6.wire_bytes(o) + (*self).7.wire_bytes(o) + (*self).8.wire_bytes(o)), start@ + ((*self).0.wire_bytes(o) + (*self).1.wire_bytes(o) + (*self).2.wire_bytes(o) + (*self).3.wire_bytes(o) + (*self).4.wire_bytes(o) + (*self).5.wire_bytes(o) + (*self).6.wire_bytes(o) + (*self).7.wire_bytes(o) + (*self).8.wire_bytes(o) + (*self).9.wire_bytes(o)));
                    lemma_prefix_of_append(start@ + ((*self).0.wire_bytes(o) + (*self).1.wire_bytes(o) + (*self).2.wire_bytes(o) + (*self).3.wire_bytes(o) + (*self).4.wire_bytes(o) + (*self).5.wire_bytes(o) + (*self).6.wire_bytes(o) + (*self).7.wire_bytes(o) + (*self).8.wire_bytes(o) + (*self).9.wire_bytes(o)), (*self).10.wire_bytes(o));
                    assert((start@ + ((*self).0.wire_bytes(o) + (*self).1.wire_bytes(o) + (*self).2.wire_bytes(o) + (*self).3.wire_bytes(o) + (*self).4.wire_bytes(o) + (*self).5.wire_bytes(o) + (*self).6.wire_bytes(o) + (*self).7.wire_bytes(o) + (*self).8.wire_bytes(o) + (*self).9.wire_bytes(o))) + (*self).10.wire_bytes(o) =~= start@ + ((*self).0.wire_bytes(o) + (*self).1.wire_bytes(o) + (*self).2.wire_bytes(o) + (*self).3.wire_bytes(o) + (*self).4.wire_bytes(o) + (*self).5.wire_bytes(o) + (*self).6.wire_bytes(o) + (*self).7.wire_bytes(o) + (*self).8.wire_bytes(o) + (*self).9.wire_bytes(o) + (*self).10.wire_bytes(o)));
                    lemma_prefix_chain(dst@, start@ + ((*self).0.wire_bytes(o) + (*self).1.wire_bytes(o) + (*self).2.wire_bytes(o) + (*self).3.wire_bytes(o) + (*self).4.wire_bytes(o) + (*self).5.wire_bytes(o) + (*self).6.wire_bytes(o) + (*self).7.wire_bytes(o) + (*self).8.wire_bytes(o) + (*self).9.wire_bytes(o)), start@ + ((*self).0.wire_bytes(o) + (*self).1.wire_bytes(o) + (*self).2.wire_bytes(o) + (*self).3.wire_bytes(o) + (*self).4.wire_bytes(o) + (*self).5.wire_bytes(o) + (*self).6.wire_bytes(o) + (*self).7.wire_bytes(o) + (*self).8.wire_bytes(o) + (*self).9.wire_bytes(o) + (*self).10.wire_bytes(o)));
                }
                return Err(e);
            },
        }
        proof {
            assert(dst@ =~= start@ + ((*self).0.wire_bytes(o) + (*self).1.wire_bytes(o) + (*self).2.wire_bytes(o) + (*self).3.wire_bytes(o) + (*self).4.wire_bytes(o)));
        }
        let ghost d5 = *dst;
        match self.5.pack_to(o, dst) {
            Ok(_) => {},
            Err(e) => {
                proof {
                    lemma_prefix_of_append(start@, (*self).0.wire_bytes(o) + (*self).1.wire_bytes(o) + (*self).2.wire_bytes(o) + (*self).3.wire_bytes(o) + (*self).4.wire_bytes(o));
                    lemma_prefix_chain(start@, d5@, dst@);
                    assert(d5@ + (*self).5.wire_bytes(o) =~= start@ + ((*self).0.wire_bytes(o) + (*self).1.wire_bytes(o) + (*self).2.wire_bytes(o) + (*self).3.wire_bytes(o) + (*self).4.wire_bytes(o) + (*self).5.wire_bytes(o)));
                    lemma_prefix_of_append(start@ + ((*self).0.wire_bytes(o) + (*self).1.wire_bytes(o) + (*self).2.wire_bytes(o) + (*self).3.wire_bytes(o) + (*self).4.wire_bytes(o) + (*self).5.wire_bytes(o)), (*self).6.wire_bytes(o));
                    assert((start@ + ((*self).0.wire_bytes(o) + (*self).1.wire_bytes(o) + (*self).2.wire_bytes(o) + (*self).3.wire_bytes(o) + (*self).4.wire_bytes(o) + (*self).5.wire_bytes(o))) + (*self).6.wire_bytes(o) =~= start@ + ((*self).0.wire_bytes(o) + (*self).1.wire_bytes(o) + (*self).2.wire_bytes(o) + (*self).3.wire_bytes(o) + (*self).4.wire_bytes(o) + (*self).5.wire_bytes(o) + (*self).6.wire_bytes(o)));
                    lemma_prefix_chain(dst@, start@ + ((*self).0.wire_bytes(o) + (*self).1.wire_bytes(o) + (*self).2.wire_bytes(o) + (*self).3.wire_bytes(o) + (*self).4.wire_bytes(o) + (*self).5.wire_bytes(o)), start@ + ((*self).0.wire_bytes(o) + (*self).1.wire_bytes(o) + (*self).2.wire_bytes(o) + (*self).3.wire_bytes(o) + (*self).4.wire_bytes(o) + (*self).5.wire_bytes(o) + (*self).6.wire_bytes(o)));
                    lemma_prefix_of_append(start@ + ((*self).0.wire_bytes(o) + (*self).1.wire_bytes(o) + (*self).2.wire_bytes(o) + (*self).3.wire_bytes(o) + (*self).4.wire_bytes(o) + (*self).5.wire_bytes(o) + (*self).6.wire_bytes(o)), (*self).7.wire_bytes(o));
                    assert((start@ + ((*self).0.wire_bytes(o) + (*self).1.wire_bytes(o) + (*self).2.wire_bytes(o) + (*self).3.wire_bytes(o) + (*self).4.wire_bytes(o) + (*self).5.wire_bytes(o) + (*self).6.wire_bytes(o))) + (*self).7.wire_bytes(o) =~= start@ + ((*self).0.wire_bytes(o) + (*self).1.wire_bytes(o) + (*self).2.wire_bytes(o) + (*self).3.wire_bytes(o) + (*self).4.wire_bytes(o) + (*self).5.wire_bytes(o) + (*self).6.wire_bytes(o) + (*self).7.wire_bytes(o)));
                    lemma_prefix_chain(dst@, start@ + ((*self).0.wire_bytes(o) + (*self).1.wire_bytes(o) + (*self).2.wire_bytes(o) + (*self).3.wire_bytes(o) + (*self).4.wire_bytes(o) + (*self).5.wire_bytes(o) + (*self).6.wire_bytes(o)), start@ + ((*self).0.wire_bytes(o) + (*self).1.wire_bytes(o) + (*self).2.wire_bytes(o) + (*self).3.wire_bytes(o) + (*self).4.wire_bytes(o) + (*self).5.wire_bytes(o) + (*self).6.wire_bytes(o) + (*self).7.wire_bytes(o)));
                    lemma_prefix_of_append(start@ + ((*self).0.wire_bytes(o) + (*self).1.wire_bytes(o) + (*self).2.wire_bytes(o) + (*self).3.wire_bytes(o) + (*self).4.wire_bytes(o) + (*self).5.wire_bytes(o) + (*self).6.wire_bytes(o) + (*self).7.wire_bytes(o)), (*self).8.wire_bytes(o));
                    assert((start@ + ((*self).0.wire_bytes(o) + (*self).1.wire_bytes(o) + (*self).2.wire_bytes(o) + (*self).3.wire_bytes(o) + (*self).4.wire_bytes(o) + (*self).5.wire_bytes(o) + (*self).6.wire_bytes(o) + (*self).7.wire_bytes(o))) + (*self).8.wire_bytes(o) =~= start@ + ((*self).0.wire_bytes(o) + (*self).1.wire_bytes(o) + (*self).2.wire_bytes(o) + (*self).3.wire_bytes(o) + (*self).4.wire_bytes(o) + (*self).5.wire_bytes(o) + (*self).6.wire_bytes(o) + (*self).7.wire_bytes(o) + (*self).8.wire_bytes(o)));
                    lemma_prefix_chain(dst@, start@ + ((*self).0.wire_bytes(o) + (*self).1.wire_bytes(o) + (*self).2.wire_bytes(o) + (*self).3.wire_bytes(o) + (*self).4.wire_bytes(o) + (*self).5.wire_bytes(o) + (*self).6.wire_bytes(o) + (*self).7.wire_bytes(o)), start@ + ((*self).0.wire_bytes(o) + (*self).1.wire_bytes(o) + (*self).2.wire_bytes(o) + (*self).3.wire_bytes(o) + (*self).4.wire_bytes(o) + (*self).5.wire_bytes(o) + (*self).6.wire_bytes(o) + (*self).7.wire_bytes(o) + (*self).8.wire_bytes(o)));
                    lemma_prefix_of_append(start@ + ((*self).0.wire_bytes(o) + (*self).1.wire_bytes(o) + (*self).2.wire_bytes(o) + (*self).3.wire_bytes(o) + (*self).4.wire_bytes(o) + (*self).5.wire_bytes(o) + (*self).6.wire_bytes(o) + (*self).7.wire_bytes(o) + (*self).8.wire_bytes(o)), (*self).9.wire_bytes(o));
                    assert((start@ + ((*self).0.wire_bytes(o) + (*self).1.wire_bytes(o) + (*self).2.wire_bytes(o) + (*self).3.wire_bytes(o) + (*self).4.wire_bytes(o) + (*self).5.wire_bytes(o) + (*self).6.wire_bytes(o) + (*self).7.wire_bytes(o) + (*self).8.wire_bytes(o))) + (*self).9.wire_bytes(o) =~= start@ + ((*self).0.wire_bytes(o) + (*self).1.wire_bytes(o) + (*self).2.wire_bytes(o) + (*self).3.wire_bytes(o) + (*self).4.wire_bytes(o) + (*self).5.wire_bytes(o) + (*self).6.wire_bytes(o) + (*self).7.wire_bytes(o) + (*self).8.wire_bytes(o) + (*self).9.wire_bytes(o)));
                    lemma_prefix_chain(dst@, start@ + ((*self).0.wire_bytes(o) + (*self).1.wire_bytes(o) + (*self).2.wire_bytes(o) + (*self).3.wire_bytes(o) + (*self).4.wire_bytes(o) + (*self).5.wire_bytes(o) + (*self).6.wire_bytes(o) + (*self).7.wire_bytes(o) + (*self).8.wire_bytes(o)), start@ + ((*self).0.wire_bytes(o) + (*self).1.wire_bytes(o) + (*self).2.wire_bytes(o) + (*self).3.wire_bytes(o) + (*self).4.wire_bytes(o) + (*self).5.wire_bytes(o) + (*self).6.wire_bytes(o) + (*self).7.wire_bytes(o) + (*self).8.wire_bytes(o) + (*self).9.wire_bytes(o)));
                    lemma_prefix_of_append(start@ + ((*self).0.wire_bytes(o) + (*self).1.wire_bytes(o) + (*self).2.wire_bytes(o) + (*self).3.wire_bytes(o) + (*self).4.wire_bytes(o) + (*self).5.wire_bytes(o) + (*self).6.wire_bytes(o) + (*self).7.wire_bytes(o) + (*self).8.wire_bytes(o) + (*self).9.wire_bytes(o)), (*self).10.wire_bytes(o));
                    assert((start@ + ((*self).0.wire_bytes(o) + (*self).1.wire_bytes(o) + (*self).2.wire_bytes(o) + (*self).3.wire_bytes(o) + (*self).4.wire_bytes(o) + (*self).5.wire_bytes(o) + (*self).6.wire_bytes(o) + (*self).7.wire_bytes(o) + (*self).8.wire_bytes(o) + (*self).9.wire_bytes(o))) + (*self).10.wire_bytes(o) =~= start@ + ((*self).0.wire_bytes(o) + (*self).1.wire_bytes(o) + (*self).2.wire_bytes(o) + (*self).3.wire_bytes(o) + (*self).4.wire_bytes(o) + (*self).5.wire_bytes(o) + (*self).6.wire_bytes(o) + (*self).7.wire_bytes(o) + (*self).8.wire_bytes(o) + (*self).9.wire_bytes(o) + (*self).10.wire_bytes(o)));
                    lemma_prefix_chain(dst@, start@ + ((*self).0.wire_bytes(o) + (*self).1.wire_bytes(o) + (*self).2.wire_bytes(o) + (*self).3.wire_bytes(o) + (*self).4.wire_bytes(o) + (*self).5.wire_bytes(o) + (*self).6.wire_bytes(o) + (*self).7.wire_bytes(o) + (*self).8.wire_bytes(o) + (*self).9.wire_bytes(o)), start@ + ((*self).0.wire_bytes(o) + (*self).1.wire_bytes(o) + (*self).2.wire_bytes(o) + (*self).3.wire_bytes(o) + (*self).4.wire_bytes(o) + (*self).5.wire_bytes(o) + (*self).6.wire_bytes(o) + (*self).7.wire_bytes(o) + (*self).8.wire_bytes(o) + (*self).9.wire_bytes(o) + (*self).10.wire_bytes(o)));
                }
                return Err(e);
            },
        }
        proof {
            assert(dst@ =~= start@ + ((*self).0.wire_bytes(o) + (*self).1.wire_bytes(o) + (*self).2.wire_bytes(o) + (*self).3.wire_bytes(o) + (*self).4.wire_bytes(o) + (*self).5.wire_bytes(o)));
        }
        let ghost d6 = *dst;
        match self.6.pack_to(o, dst) {
            Ok(_) => {},
            Err(e) => {
                proof {
                    lemma_prefix_of_append(start@, (*self).0.wire_bytes(o) + (*self).1.wire_bytes(o) + (*self).2.wire_bytes(o) + (*self).3.wire_bytes(o) + (*self).4.wire_bytes(o) + (*self).5.wire_bytes(o));
                    lemma_prefix_chain(start@, d6@, dst@);
                    assert(d6@ + (*self).6.wire_bytes(o) =~= start@ + ((*self).0.wire_bytes(o) + (*self).1.wire_bytes(o) + (*self).2.wire_bytes(o) + (*self).3.wire_bytes(o) + (*self).4.wire_bytes(o) + (*self).5.wire_bytes(o) + (*self).6.wire_bytes(o)));
                    lemma_prefix_of_append(start@ + ((*self).0.wire_bytes(o) + (*self).1.wire_bytes(o) + (*self).2.wire_bytes(o) + (*self).3.wire_bytes(o) + (*self).4.wire_bytes(o) + (*self).5.wire_bytes(o) + (*self).6.wire_bytes(o)), (*self).7.wire_bytes(o));
                    assert((start@ + ((*self).0.wire_bytes(o) + (*self).1.wire_bytes(o) + (*self).2.wire_bytes(o) + (*self).3.wire_bytes(o) + (*self).4.wire_bytes(o) + (*self).5.wire_bytes(o) + (*self).6.wire_bytes(o))) + (*self).7.wire_bytes(o) =~= start@ + ((*self).0.wire_bytes(o) + (*self).1.wire_bytes(o) + (*self).2.wire_bytes(o) + (*self).3.wire_bytes(o) + (*self).4.wire_bytes(o) + (*self).5.wire_bytes(o) + (*self).6.wire_bytes(o) + (*self).7.wire_bytes(o)));
                    lemma_prefix_chain(dst@, start@ + ((*self).0.wire_bytes(o) + (*self).1.wire_bytes(o) + (*self).2.wire_bytes(o) + (*self).3.wire_bytes(o) + (*self).4.wire_bytes(o) + (*self).5.wire_bytes(o) + (*self).6.wire_bytes(o)), start@ + ((*self).0.wire_bytes(o) + (*self).1.wire_bytes(o) + (*self).2.wire_bytes(o) + (*self).3.wire_bytes(o) + (*self).4.wire_bytes(o) + (*self).5.wire_bytes(o) + (*self).6.wire_bytes(o) + (*self).7.wire_bytes(o)));
                    lemma_prefix_of_append(start@ + ((*self).0.wire_bytes(o) + (*self).1.wire_bytes(o) + (*self).2.wire_bytes(o) + (*self).3.wire_bytes(o) + (*self).4.wire_bytes(o) + (*self).5.wire_bytes(o) + (*self).6.wire_bytes(o) + (*self).7.wire_bytes(o)), (*self).8.wire_bytes(o));
                    assert((start@ + ((*self).0.wire_bytes(o) + (*self).1.wire_bytes(o) + (*self).2.wire_bytes(o) + (*self).3.wire_bytes(o) + (*self).4.wire_bytes(o) + (*self).5.wire_bytes(o) + (*self).6.wire_bytes(o) + (*self).7.wire_bytes(o))) + (*self).8.wire_bytes(o) =~= start@ + ((*self).0.wire_bytes(o) + (*self).1.wire_bytes(o) + (*self).2.wire_bytes(o) + (*self).3.wire_bytes(o) + (*self).4.wire_bytes(o) + (*self).5.wire_bytes(o) + (*self).6.wire_bytes(o) + (*self).7.wire_bytes(o) + (*self).8.wire_bytes(o)));
                    lemma_prefix_chain(dst@, start@ + ((*self).0.wire_bytes(o) + (*self).1.wire_bytes(o) + (*self).2.wire_bytes(o) + (*self).3.wire_bytes(o) + (*self).4.wire_bytes(o) + (*self).5.wire_bytes(o) + (*self).6.wire_bytes(o) + (*self).7.wire_bytes(o)), start@ + ((*self).0.wire_bytes(o) + (*self).1.wire_bytes(o) + (*self).2.wire_bytes(o) + (*self).3.wire_bytes(o) + (*self).4.wire_bytes(o) + (*self).5.wire_bytes(o) + (*self).6.wire_bytes(o) + (*self).7.wire_bytes(o) + (*self).8.wire_bytes(o)));
                    lemma_prefix_of_append(start@ + ((*self).0.wire_bytes(o) + (*self).1.wire_bytes(o) + (*self).2.wire_bytes(o) + (*self).3.wire_bytes(o) + (*self).4.wire_bytes(o) + (*self).5.wire_bytes(o) + (*self).6.wire_bytes(o) + (*self).7.wire_bytes(o) + (*self).8.wire_bytes(o)), (*self).9.wire_bytes(o));
                    assert((start@ + ((*self).0.wire_bytes(o) + (*self).1.wire_bytes(o) + (*self).2.wire_bytes(o) + (*self).3.wire_bytes(o) + (*self).4.wire_bytes(o) + (*self).5.wire_bytes(o) + (*self).6.wire_bytes(o) + (*self).7.wire_bytes(o) + (*self).8.wire_bytes(o))) + (*self).9.wire_bytes(o) =~= start@ + ((*self).0.wire_bytes(o) + (*self).1.wire_bytes(o) + (*self).2.wire_bytes(o) + (*self).3.wire_bytes(o) + (*self).4.wire_bytes(o) + (*self).5.wire_bytes(o) + (*self).6.wire_bytes(o) + (*self).7.wire_bytes(o) + (*self).8.wire_bytes(o) + (*self).9.wire_bytes(o)));
                    lemma_prefix_chain(dst@, start@ + ((*self).0.wire_bytes(o) + (*self).1.wire_bytes(o) + (*self).2.wire_bytes(o) + (*self).3.wire_bytes(o) + (*self).4.wire_bytes(o) + (*self).5.wire_bytes(o) + (*self).6.wire_bytes(o) + (*self).7.wire_bytes(o) + (*self).8.wire_bytes(o)), start@ + ((*self).0.wire_bytes(o) + (*self).1.wire_bytes(o) + (*self).2.wire_bytes(o) + (*self).3.wire_bytes(o) + (*self).4.wire_bytes(o) + (*self).5.wire_bytes(o) + (*self).6.wire_bytes(o) + (*self).7.wire_bytes(o) + (*self).8.wire_bytes(o) + (*self).9.wire_bytes(o)));
                    lemma_prefix_of_append(start@ + ((*self).0.wire_bytes(o) + (*self).1.wire_bytes(o) + (*self).2.wire_bytes(o) + (*self).3.wire_bytes(o) + (*self).4.wire_bytes(o) + (*self).5.wire_bytes(o) + (*self).6.wire_bytes(o) + (*self).7.wire_bytes(o) + (*self).8.wire_bytes(o) + (*self).9.wire_bytes(o)), (*self).10.wire_bytes(o));
                    assert((start@ + ((*self).0.wire_bytes(o) + (*self).1.wire_bytes(o) + (*self).2.wire_bytes(o) + (*self).3.wire_bytes(o) + (*self).4.wire_bytes(o) + (*self).5.wire_bytes(o) + (*self).6.wire_bytes(o) + (*self).7.wire_bytes(o) + (*self).8.wire_bytes(o) + (*self).9.wire_bytes(o))) + (*self).10.wire_bytes(o) =~= start@ + ((*self).0.wire_bytes(o) + (*self).1.wire_bytes(o) + (*self).2.wire_bytes(o) + (*self).3.wire_bytes(o) + (*self).4.wire_bytes(o) + (*self).5.wire_bytes(o) + (*self).6.wire_bytes(o) + (*self).7.wire_bytes(o) + (*self).8.wire_bytes(o) + (*self).9.wire_bytes(o) + (*self).10.wire_bytes(o)));
                    lemma_prefix_chain(dst@, start@ + ((*self).0.wire_bytes(o) + (*self).1.wire_bytes(o) + (*self).2.wire_bytes(o) + (*self).3.wire_bytes(o) + (*self).4.wire_bytes(o) + (*self).5.wire_bytes(o) + (*self).6.wire_bytes(o) + (*self).7.wire_bytes(o) + (*self).8.wire_bytes(o) + (*self).9.wire_bytes(o)), start@ + ((*self).0.wire_bytes(o) + (*self).1.wire_bytes(o) + (*self).2.wire_bytes(o) + (*self).3.wire_bytes(o) + (*self).4.wire_bytes(o) + (*self).5.wire_bytes(o) + (*self).6.wire_bytes(o) + (*self).7.wire_bytes(o) + (*self).8.wire_bytes(o) + (*self).9.wire_bytes(o) + (*self).10.wire_bytes(o)));
                }
                return Err(e);
            },
        }
        proof {
            assert(dst@ =~= start@ + ((*self).0.wire_bytes(o) + (*self).1.wire_bytes(o) + (*self).2.wire_bytes(o) + (*self).3.wire_bytes(o) + (*self).4.wire_bytes(o) + (*self).5.wire_bytes(o) + (*self).6.wire_bytes(o)));
        }
        let ghost d7 = *dst;
        match self.7.pack_to(o, dst) {
            Ok(_) => {},
            Err(e) => {
                proof {
                    lemma_prefix_of_append(start@, (*self).0.wire_bytes(o) + (*self).1.wire_bytes(o) + (*self).2.wire_bytes(o) + (*self).3.wire_bytes(o) + (*self).4.wire_bytes(o) + (*self).5.wire_bytes(o) + (*self).6.wire_bytes(o));
                    lemma_prefix_chain(start@, d7@, dst@);
                    assert(d7@ + (*self).7.wire_bytes(o) =~= start@ + ((*self).0.wire_bytes(o) + (*self).1.wire_bytes(o) + (*self).2.wire_bytes(o) + (*self).3.wire_bytes(o) + (*self).4.wire_bytes(o) + (*self).5.wire_bytes(o) + (*self).6.wire_bytes(o) + (*self).7.wire_bytes(o)));
                    lemma_prefix_of_append(start@ + ((*self).0.wire_bytes(o) + (*self).1.wire_bytes(o) + (*self).2.wire_bytes(o) + (*self).3.wire_bytes(o) + (*self).4.wire_bytes(o) + (*self).5.wire_bytes(o) + (*self).6.wire_bytes(o) + (*self).7.wire_bytes(o)), (*self).8.wire_bytes(o));
                    assert((start@ + ((*self).0.wire_bytes(o) + (*self).1.wire_bytes(o) + (*self).2.wire_bytes(o) + (*self).3.wire_bytes(o) + (*self).4.wire_bytes(o) + (*self).5.wire_bytes(o) + (*self).6.wire_bytes(o) + (*self).7.wire_bytes(o))) + (*self).8.wire_bytes(o) =~= start@ + ((*self).0.wire_bytes(o) + (*self).1.wire_bytes(o) + (*self).2.wire_bytes(o) + (*self).3.wire_bytes(o) + (*self).4.wire_bytes(o) + (*self).5.wire_bytes(o) + (*self).6.wire_bytes(o) + (*self).7.wire_bytes(o) + (*self).8.wire_bytes(o)));
                    lemma_prefix_chain(dst@, start@ + ((*self).0.wire_bytes(o) + (*self).1.wire_bytes(o) + (*self).2.wire_bytes(o) + (*self).3.wire_bytes(o) + (*self).4.wire_bytes(o) + (*self).5.wire_bytes(o) + (*self).6.wire_bytes(o) + (*self).7.wire_bytes(o)), start@ + ((*self).0.wire_bytes(o) + (*self).1.wire_bytes(o) + (*self).2.wire_bytes(o) + (*self).3.wire_bytes(o) + (*self).4.wire_bytes(o) + (*self).5.wire_bytes(o) + (*self).6.wire_bytes(o) + (*self).7.wire_bytes(o) + (*self).8.wire_bytes(o)));
                    lemma_prefix_of_append(start@ + ((*self).0.wire_bytes(o) + (*self).1.wire_bytes(o) + (*self).2.wire_bytes(o) + (*self).3.wire_bytes(o) + (*self).4.wire_bytes(o) + (*self).5.wire_bytes(o) + (*self).6.wire_bytes(o) + (*self).7.wire_bytes(o) + (*self).8.wire_bytes(o)), (*self).9.wire_bytes(o));
                    assert((start@ + ((*self).0.wire_bytes(o) + (*self).1.wire_bytes(o) + (*self).2.wire_bytes(o) + (*self).3.wire_bytes(o) + (*self).4.wire_bytes(o) + (*self).5.wire_bytes(o) + (*self).6.wire_bytes(o) + (*self).7.wire_bytes(o) + (*self).8.wire_bytes(o))) + (*self).9.wire_bytes(o) =~= start@ + ((*self).0.wire_bytes(o) + (*self).1.wire_bytes(o) + (*self).2.wire_bytes(o) + (*self).3.wire_bytes(o) + (*self).4.wire_bytes(o) + (*self).5.wire_bytes(o) + (*self).6.wire_bytes(o) + (*self).7.wire_bytes(o) + (*self).8.wire_bytes(o) + (*self).9.wire_bytes(o)));
                    lemma_prefix_chain(dst@, start@ + ((*self).0.wire_bytes(o) + (*self).1.wire_bytes(o) + (*self).2.wire_bytes(o) + (*self).3.wire_bytes(o) + (*self).4.wire_bytes(o) + (*self).5.wire_bytes(o) + (*self).6.wire_bytes(o) + (*self).7.wire_bytes(o) + (*self).8.wire_bytes(o)), start@ + ((*self).0.wire_bytes(o) + (*self).1.wire_bytes(o) + (*self).2.wire_bytes(o) + (*self).3.wire_bytes(o) + (*self).4.wire_bytes(o) + (*self).5.wire_bytes(o) + (*self).6.wire_bytes(o) + (*self).7.wire_bytes(o) + (*self).8.wire_bytes(o) + (*self).9.wire_bytes(o)));
                    lemma_prefix_of_append(start@ + ((*self).0.wire_bytes(o) + (*self).1.wire_bytes(o) + (*self).2.wire_bytes(o) + (*self).3.wire_bytes(o) + (*self).4.wire_bytes(o) + (*self).5.wire_bytes(o) + (*self).6.wire_bytes(o) + (*self).7.wire_bytes(o) + (*self).8.wire_bytes(o) + (*self).9.wire_bytes(o)), (*self).10.wire_bytes(o));
                    assert((start@ + ((*self).0.wire_bytes(o) + (*self).1.wire_bytes(o) + (*self).2.wire_bytes(o) + (*self).3.wire_bytes(o) + (*self).4.wire_bytes(o) + (*self).5.wire_bytes(o) + (*self).6.wire_bytes(o) + (*self).7.wire_bytes(o) + (*self).8.wire_bytes(o) + (*self).9.wire_bytes(o))) + (*self).10.wire_bytes(o) =~= start@ + ((*self).0.wire_bytes(o) + (*self).1.wire_bytes(o) + (*self).2.wire_bytes(o) + (*self).3.wire_bytes(o) + (*self).4.wire_bytes(o) + (*self).5.wire_bytes(o) + (*self).6.wire_bytes(o) + (*self).7.wire_bytes(o) + (*self).8.wire_bytes(o) + (*self).9.wire_bytes(o) + (*self).10.wire_bytes(o)));
                    lemma_prefix_chain(dst@, start@ + ((*self).0.wire_bytes(o) + (*self).1.wire_bytes(o) + (*self).2.wire_bytes(o) + (*self).3.wire_bytes(o) + (*self).4.wire_bytes(o) + (*self).5.wire_bytes(o) + (*self).6.wire_bytes(o) + (*self).7.wire_bytes(o) + (*self).8.wire_bytes(o) + (*self).9.wire_bytes(o)), start@ + ((*self).0.wire_bytes(o) + (*self).1.wire_bytes(o) + (*self).2.wire_bytes(o) + (*self).3.wire_bytes(o) + (*self).4.wire_bytes(o) + (*self).5.wire_bytes(o) + (*self).6.wire_bytes(o) + (*self).7.wire_bytes(o) + (*self).8.wire_bytes(o) + (*self).9.wire_bytes(o) + (*self).10.wire_bytes(o)));
                }
                return Err(e);
            },
        }
        proof {
            assert(dst@ =~= start@ + ((*self).0.wire_bytes(o) + (*self).1.wire_bytes(o) + (*self).2.wire_bytes(o) + (*self).3.wire_bytes(o) + (*self).4.wire_bytes(o) + (*self).5.wire_bytes(o) + (*self).6.wire_bytes(o) + (*self).7.wire_bytes(o)));
        }
        let ghost d8 = *dst;
        match self.8.pack_to(o, dst) {
            Ok(_) => {},
            Err(e) => {
                proof {
                    lemma_prefix_of_append(start@, (*self).0.wire_bytes(o) + (*self).1.wire_bytes(o) + (*self).2.wire_bytes(o) + (*self).3.wire_bytes(o) + (*self).4.wire_bytes(o) + (*self).5.wire_bytes(o) + (*self).6.wire_bytes(o) + (*self).7.wire_bytes(o));
                    lemma_prefix_chain(start@, d8@, dst@);
                    assert(d8@ + (*self).8.wire_bytes(o) =~= start@ + ((*self).0.wire_bytes(o) + (*self).1.wire_bytes(o) + (*self).2.wire_bytes(o) + (*self).3.wire_bytes(o) + (*self).4.wire_bytes(o) + (*self).5.wire_bytes(o) + (*self).6.wire_bytes(o) + (*self).7.wire_bytes(o) + (*self).8.wire_bytes(o)));
                    lemma_prefix_of_append(start@ + ((*self).0.wire_bytes(o) + (*self).1.wire_bytes(o) + (*self).2.wire_bytes(o) + (*self).3.wire_bytes(o) + (*self).4.wire_bytes(o) + (*self).5.wire_bytes(o) + (*self).6.wire_bytes(o) + (*self).7.wire_bytes(o) + (*self).8.wire_bytes(o)), (*self).9.wire_bytes(o));
                    assert((start@ + ((*self).0.wire_bytes(o) + (*self).1.wire_bytes(o) + (*self).2.wire_bytes(o) + (*self).3.wire_bytes(o) + (*self).4.wire_bytes(o) + (*self).5.wire_bytes(o) + (*self).6.wire_bytes(o) + (*self).7.wire_bytes(o) + (*self).8.wire_bytes(o))) + (*self).9.wire_bytes(o) =~= start@ + ((*self).0.wire_bytes(o) + (*self).1.wire_bytes(o) + (*self).2.wire_bytes(o) + (*self).3.wire_bytes(o) + (*self).4.wire_bytes(o) + (*self).5.wire_bytes(o) + (*self).6.wire_bytes(o) + (*self).7.wire_bytes(o) + (*self).8.wire_bytes(o) + (*self).9.wire_bytes(o)));
                    lemma_prefix_chain(dst@, start@ + ((*self).0.wire_bytes(o) + (*self).1.wire_bytes(o) + (*self).2.wire_bytes(o) + (*self).3.wire_bytes(o) + (*self).4.wire_bytes(o) + (*self).5.wire_bytes(o) + (*self).6.wire_bytes(o) + (*self).7.wire_bytes(o) + (*self).8.wire_bytes(o)), start@ + ((*self).0.wire_bytes(o) + (*self).1.wire_bytes(o) + (*self).2.wire_bytes(o) + (*self).3.wire_bytes(o) + (*self).4.wire_bytes(o) + (*self).5.wire_bytes(o) + (*self).6.wire_bytes(o) + (*self).7.wire_bytes(o) + (*self).8.wire_bytes(o) + (*self).9.wire_bytes(o)));
                    lemma_prefix_of_append(start@ + ((*self).0.wire_bytes(o) + (*self).1.wire_bytes(o) + (*self).2.wire_bytes(o) + (*self).3.wire_bytes(o) + (*self).4.wire_bytes(o) + (*self).5.wire_bytes(o) + (*self).6.wire_bytes(o) + (*self).7.wire_bytes(o) + (*self).8.wire_bytes(o) + (*self).9.wire_bytes(o)), (*self).10.wire_bytes(o));
                    assert((start@ + ((*self).0.wire_bytes(o) + (*self).1.wire_bytes(o) + (*self).2.wire_bytes(o) + (*self).3.wire_bytes(o) + (*self).4.wire_bytes(o) + (*self).5.wire_bytes(o) + (*self).6.wire_bytes(o) + (*self).7.wire_bytes(o) + (*self).8.wire_bytes(o) + (*self).9.wire_bytes(o))) + (*self).10.wire_bytes(o) =~= start@ + ((*self).0.wire_bytes(o) + (*self).1.wire_bytes(o) + (*self).2.wire_bytes(o) + (*self).3.wire_bytes(o) + (*self).4.wire_bytes(o) + (*self).5.wire_bytes(o) + (*self).6.wire_bytes(o) + (*self).7.wire_bytes(o) + (*self).8.wire_bytes(o) + (*self).9.wire_bytes(o) + (*self).10.wire_bytes(o)));
                    lemma_prefix_chain(dst@, start@ + ((*self).0.wire_bytes(o) + (*self).1.wire_bytes(o) + (*self).2.wire_bytes(o) + (*self).3.wire_bytes(o) + (*self).4.wire_bytes(o) + (*self).5.wire_bytes(o) + (*self).6.wire_bytes(o) + (*self).7.wire_bytes(o) + (*self).8.wire_bytes(o) + (*self).9.wire_bytes(o)), start@ + ((*self).0.wire_bytes(o) + (*self).1.wire_bytes(o) + (*self).2.wire_bytes(o) + (*self).3.wire_bytes(o) + (*self).4.wire_bytes(o) + (*self).5.wire_bytes(o) + (*self).6.wire_bytes(o) + (*self).7.wire_bytes(o) + (*self).8.wire_bytes(o) + (*self).9.wire_bytes(o) + (*self).10.wire_bytes(o)));
                }
                return Err(e);
            },
        }
        proof {
            assert(dst@ =~= start@ + ((*self).0.wire_bytes(o) + (*self).1.wire_bytes(o) + (*self).2.wire_bytes(o) + (*self).3.wire_bytes(o) + (*self).4.wire_bytes(o) + (*self).5.wire_bytes(o) + (*self).6.wire_bytes(o) + (*self).7.wire_bytes(o) + (*self).8.wire_bytes(o)));
        }
        let ghost d9 = *dst;
        match self.9.pack_to(o, dst) {
            Ok(_) => {},
            Err(e) => {
                proof {
                    lemma_prefix_of_append(start@, (*self).0.wire_bytes(o) + (*self).1.wire_bytes(o) + (*self).2.wire_bytes(o) + (*self).3.wire_bytes(o) + (*self).4.wire_bytes(o) + (*self).5.wire_bytes(o) + (*self).6.wire_bytes(o) + (*self).7.wire_bytes(o) + (*self).8.wire_bytes(o));
                    lemma_prefix_chain(start@, d9@, dst@);
                    assert(d9@ + (*self).9.wire_bytes(o) =~= start@ + ((*self).0.wire_bytes(o) + (*self).1.wire_bytes(o) + (*self).2.wire_bytes(o) + (*self).3.wire_bytes(o) + (*self).4.wire_bytes(o) + (*self).5.wire_bytes(o) + (*self).6.wire_bytes(o) + (*self).7.wire_bytes(o) + (*self).8.wire_bytes(o) + (*self).9.wire_bytes(o)));
                    lemma_prefix_of_append(start@ + ((*self).0.wire_bytes(o) + (*self).1.wire_bytes(o) + (*self).2.wire_bytes(o) + (*self).3.wire_bytes(o) + (*self).4.wire_bytes(o) + (*self).5.wire_bytes(o) + (*self).6.wire_bytes(o) + (*self).7.wire_bytes(o) + (*self).8.wire_bytes(o) + (*self).9.wire_bytes(o)), (*self).10.wire_bytes(o));
                    assert((start@ + ((*self).0.wire_bytes(o) + (*self).1.wire_bytes(o) + (*self).2.wire_bytes(o) + (*self).3.wire_bytes(o) + (*self).4.wire_bytes(o) + (*self).5.wire_bytes(o) + (*self).6.wire_bytes(o) + (*self).7.wire_bytes(o) + (*self).8.wire_bytes(o) + (*self).9.wire_bytes(o))) + (*self).10.wire_bytes(o) =~= start@ + ((*self).0.wire_bytes(o) + (*self).1.wire_bytes(o) + (*self).2.wire_bytes(o) + (*self).3.wire_bytes(o) + (*self).4.wire_bytes(o) + (*self).5.wire_bytes(o) + (*self).6.wire_bytes(o) + (*self).7.wire_bytes(o) + (*self).8.wire_bytes(o) + (*self).9.wire_bytes(o) + (*self).10.wire_bytes(o)));
                    lemma_prefix_chain(dst@, start@ + ((*self).0.wire_bytes(o) + (*self).1.wire_bytes(o) + (*self).2.wire_bytes(o) + (*self).3.wire_bytes(o) + (*self).4.wire_bytes(o) + (*self).5.wire_bytes(o) + (*self).6.wire_bytes(o) + (*self).7.wire_bytes(o) + (*self).8.wire_bytes(o) + (*self).9.wire_bytes(o)), start@ + ((*self).0.wire_bytes(o) + (*self).1.wire_bytes(o) + (*self).2.wire_bytes(o) + (*self).3.wire_bytes(o) + (*self).4.wire_bytes(o) + (*self).5.wire_bytes(o) + (*self).6.wire_bytes(o) + (*self).7.wire_bytes(o) + (*self).8.wire_bytes(o) + (*self).9.wire_bytes(o) + (*self).10.wire_bytes(o)));
                }
                return Err(e);
            },
        }
        proof {
            assert(dst@ =~= start@ + ((*self).0.wire_bytes(o) + (*self).1.wire_bytes(o) + (*self).2.wire_bytes(o) + (*self).3.wire_bytes(o) + (*self).4.wire_bytes(o) + (*self).5.wire_bytes(o) + (*self).6.wire_bytes(o) + (*self).7.wire_bytes(o) + (*self).8.wire_bytes(o) + (*self).9.wire_bytes(o)));
        }
        let ghost d10 = *dst;
        match self.10.pack_to(o, dst) {
            Ok(_) => {},
            Err(e) => {
                proof {
                    lemma_prefix_of_append(start@, (*self).0.wire_bytes(o) + (*self).1.wire_bytes(o) + (*self).2.wire_bytes(o) + (*self).3.wire_bytes(o) + (*self).4.wire_bytes(o) + (*self).5.wire_bytes(o) + (*self).6.wire_bytes(o) + (*self).7.wire_bytes(o) + (*self).8.wire_bytes(o) + (*self).9.wire_bytes(o));
                    lemma_prefix_chain(start@, d10@, dst@);
                    assert(d10@ + (*self).10.wire_bytes(o) =~= start@ + ((*self).0.wire_bytes(o) + (*self).1.wire_bytes(o) + (*self).2.wire_bytes(o) + (*self).3.wire_bytes(o) + (*self).4.wire_bytes(o) + (*self).5.wire_bytes(o) + (*self).6.wire_bytes(o) + (*self).7.wire_bytes(o) + (*self).8.wire_bytes(o) + (*self).9.wire_bytes(o) + (*self).10.wire_bytes(o)));
                }
                return Err(e);
            },
        }
        proof {
            assert(dst@ =~= start@ + ((*self).0.wire_bytes(o) + (*self).1.wire_bytes(o) + (*self).2.wire_bytes(o) + (*self).3.wire_bytes(o) + (*self).4.wire_bytes(o) + (*self).5.wire_bytes(o) + (*self).6.wire_bytes(o) + (*self).7.wire_bytes(o) + (*self).8.wire_bytes(o) + (*self).9.wire_bytes(o) + (*self).10.wire_bytes(o)));
        }
        Ok(())
    }
}

impl<T1: PackTo, T2: PackTo, T3: PackTo, T4: PackTo, T5: PackTo, T6: PackTo, T7: PackTo, T8: PackTo, T9: PackTo, T10: PackTo, T11: PackTo, T12: PackTo> PackTo for (T1, T2, T3, T4, T5, T6, T7, T8, T9, T10, T11, T12) {
    open spec fn wire_width(self) -> nat {
        self.0.wire_width() + self.1.wire_width() + self.2.wire_width() + self.3.wire_width() + self.4.wire_width() + self.5.wire_width() + self.6.wire_width() + self.7.wire_width() + self.8.wire_width() + self.9.wire_width() + self.10.wire_width() + self.11.wire_width()
    }

    open spec fn wire_bytes(self, o: ByteOrder) -> Seq<u8> {
        self.0.wire_bytes(o) + self.1.wire_bytes(o) + self.2.wire_bytes(o) + self.3.wire_bytes(o) + self.4.wire_bytes(o) + self.5.wire_bytes(o) + self.6.wire_bytes(o) + self.7.wire_bytes(o) + self.8.wire_bytes(o) + self.9.wire_bytes(o) + self.10.wire_bytes(o) + self.11.wire_bytes(o)
    }

    proof fn lemma_wire_width(self, o: ByteOrder) {
        self.0.lemma_wire_width(o);
        self.1.lemma_wire_width(o);
        self.2.lemma_wire_width(o);
        self.3.lemma_wire_width(o);
        self.4.lemma_wire_width(o);
        self.5.lemma_wire_width(o);
        self.6.lemma_wire_width(o);
        self.7.lemma_wire_width(o);
        self.8.lemma_wire_width(o);
        self.9.lemma_wire_width(o);
        self.10.lemma_wire_width(o);
        self.11.lemma_wire_width(o);
    }

    #[verifier::spinoff_prover]
    #[verifier::rlimit(100)]
    fn pack_to(&self, o: ByteOrder, dst: &mut Sink) -> (r: Result<(), PackError>) {
        let ghost start = *dst;
        let ghost d0 = *dst;
        match self.0.pack_to(o, dst) {
            Ok(_) => {},
            Err(e) => {
                proof {
                    lemma_prefix_chain(start@, d0@, dst@);
                    assert(d0@ + (*self).0.wire_bytes(o) =~= start@ + ((*self).0.wire_bytes(o)));
                    lemma_prefix_of_append(start@ + ((*self).0.wire_bytes(o)), (*self).1.wire_bytes(o));
                    assert((start@ + ((*self).0.wire_bytes(o))) + (*self).1.wire_bytes(o) =~= start@ + ((*self).0.wire_bytes(o) + (*self).1.wire_bytes(o)));
                    lemma_prefix_chain(dst@, start@ + ((*self).0.wire_bytes(o)), start@ + ((*self).0.wire_bytes(o) + (*self).1.wire_bytes(o)));
                    lemma_prefix_of_append(start@ + ((*self).0.wire_bytes(o) + (*self).1.wire_bytes(o)), (*self).2.wire_bytes(o));
                    assert((start@ + ((*self).0.wire_bytes(o) + (*self).1.wire_bytes(o))) + (*self).2.wire_bytes(o) =~= start@ + ((*self).0.wire_bytes(o) + (*self).1.wire_bytes(o) + (*self).2.wire_bytes(o)));
                    lemma_prefix_chain(dst@, start@ + ((*self).0.wire_bytes(o) + (*self).1.wire_bytes(o)), start@ + ((*self).0.wire_bytes(o) + (*self).1.wire_bytes(o) + (*self).2.wire_bytes(o)));
                    lemma_prefix_of_append(start@ + ((*self).0.wire_bytes(o) + (*self).1.wire_bytes(o) + (*self).2.wire_bytes(o)), (*self).3.wire_bytes(o));
                    assert((start@ + ((*self).0.wire_bytes(o) + (*self).1.wire_bytes(o) + (*self).2.wire_bytes(o))) + (*self).3.wire_bytes(o) =~= start@ + ((*self).0.wire_bytes(o) + (*self).1.wire_bytes(o) + (*self).2.wire_bytes(o) + (*self).3.wire_bytes(o)));
                    lemma_prefix_chain(dst@, start@ + ((*self).0.wire_bytes(o) + (*self).1.wire_bytes(o) + (*self).2.wire_bytes(o)), start@ + ((*self).0.wire_bytes(o) + (*self).1.wire_bytes(o) + (*self).2.wire_bytes(o) + (*self).3.wire_bytes(o)));
                    lemma_prefix_of_append(start@ + ((*self).0.wire_bytes(o) + (*self).1.wire_bytes(o) + (*self).2.wire_bytes(o) + (*self).3.wire_bytes(o)), (*self).4.wire_bytes(o));
                    assert((start@ + ((*self).0.wire_bytes(o) + (*self).1.wire_bytes(o) + (*self).2.wire_bytes(o) + (*self).3.wire_bytes(o))) + (*self).4.wire_bytes(o) =~= start@ + ((*self).0.wire_bytes(o) + (*self).1.wire_bytes(o) + (*self).2.wire_bytes(o) + (*self).3.wire_bytes(o) + (*self).4.wire_bytes(o)));
                    lemma_prefix_chain(dst@, start@ + ((*self).0.wire_bytes(o) + (*self).1.wire_bytes(o) + (*self).2.wire_bytes(o) + (*self).3.wire_bytes(o)), start@ + ((*self).0.wire_bytes(o) + (*self).1.wire_bytes(o) + (*self).2.wire_bytes(o) + (*self).3.wire_bytes(o) + (*self).4.wire_bytes(o)));
                    lemma_prefix_of_append(start@ + ((*self).0.wire_bytes(o) + (*self).1.wire_bytes(o) + (*self).2.wire_bytes(o) + (*self).3.wire_bytes(o) + (*self).4.wire_bytes(o)), (*self).5.wire_bytes(o));
                    assert((start@ + ((*self).0.wire_bytes(o) + (*self).1.wire_bytes(o) + (*self).2.wire_bytes(o) + (*self).3.wire_bytes(o) + (*self).4.wire_bytes(o))) + (*self).5.wire_bytes(o) =~= start@ + ((*self).0.wire_bytes(o) + (*self).1.wire_bytes(o) + (*self).2.wire_bytes(o) + (*self).3.wire_bytes(o) + (*self).4.wire_bytes(o) + (*self).5.wire_bytes(o)));
                    lemma_prefix_chain(dst@, start@ + ((*self).0.wire_bytes(o) + (*self).1.wire_bytes(o) + (*self).2.wire_bytes(o) + (*self).3.wire_bytes(o) + (*self).4.wire_bytes(o)), start@ + ((*self).0.wire_bytes(o) + (*self).1.wire_bytes(o) + (*self).2.wire_bytes(o) + (*self).3.wire_bytes(o) + (*self).4.wire_bytes(o) + (*self).5.wire_bytes(o)));
                    lemma_prefix_of_append(start@ + ((*self).0.wire_bytes(o) + (*self).1.wire_bytes(o) + (*self).2.wire_bytes(o) + (*self).3.wire_bytes(o) + (*self).4.wire_bytes(o) + (*self).5.wire_bytes(o)), (*self).6.wire_bytes(o));
                    assert((start@ + ((*self).0.wire_bytes(o) + (*self).1.wire_bytes(o) + (*self).2.wire_bytes(o) + (*self).3.wire_bytes(o) + (*self).4.wire_bytes(o) + (*self).5.wire_bytes(o))) + (*self).6.wire_bytes(o) =~= start@ + ((*self).0.wire_bytes(o) + (*self).1.wire_bytes(o) + (*self).2.wire_bytes(o) + (*self).3.wire_bytes(o) + (*self).4.wire_bytes(o) + (*self).5.wire_bytes(o) + (*self).6.wire_bytes(o)));
                    lemma_prefix_chain(dst@, start@ + ((*self).0.wire_bytes(o) + (*self).1.wire_bytes(o) + (*self).2.wire_bytes(o) + (*self).3.wire_bytes(o) + (*self).4.wire_bytes(o) + (*self).5.wire_bytes(o)), start@ + ((*self).0.wire_bytes(o) + (*self).1.wire_bytes(o) + (*self).2.wire_bytes(o) + (*self).3.wire_bytes(o) + (*self).4.wire_bytes(o) + (*self).5.wire_bytes(o) + (*self).6.wire_bytes(o)));
                    lemma_prefix_of_append(start@ + ((*self).0.wire_bytes(o) + (*self).1.wire_bytes(o) + (*self).2.wire_bytes(o) + (*self).3.wire_bytes(o) + (*self).4.wire_bytes(o) + (*self).5.wire_bytes(o) + (*self).6.wire_bytes(o)), (*self).7.wire_bytes(o));
                    assert((start@ + ((*self).0.wire_bytes(o) + (*self).1.wire_bytes(o) + (*self).2.wire_bytes(o) + (*self).3.wire_bytes(o) + (*self).4.wire_bytes(o) + (*self).5.wire_bytes(o) + (*self).6.wire_bytes(o))) + (*self).7.wire_bytes(o) =~= start@ + ((*self).0.wire_bytes(o) + (*self).1.wire_bytes(o) + (*self).2.wire_bytes(o) + (*self).3.wire_bytes(o) + (*self).4.wire_bytes(o) + (*self).5.wire_bytes(o) + (*self).6.wire_bytes(o) + (*self).7.wire_bytes(o)));
                    lemma_prefix_chain(dst@, start@ + ((*self).0.wire_bytes(o) + (*self).1.wire_bytes(o) + (*self).2.wire_bytes(o) + (*self).3.wire_bytes(o) + (*self).4.wire_bytes(o) + (*self).5.wire_bytes(o) + (*self).6.wire_bytes(o)), start@ + ((*self).0.wire_bytes(o) + (*self).1.wire_bytes(o) + (*self).2.wire_bytes(o) + (*self).3.wire_bytes(o) + (*self).4.wire_bytes(o) + (*self).5.wire_bytes(o) + (*self).6.wire_bytes(o) + (*self).7.wire_bytes(o)));
                    lemma_prefix_of_append(start@ + ((*self).0.wire_bytes(o) + (*self).1.wire_bytes(o) + (*self).2.wire_bytes(o) + (*self).3.wire_bytes(o) + (*self).4.wire_bytes(o) + (*self).5.wire_bytes(o) + (*self).6.wire_bytes(o) + (*self).7.wire_bytes(o)), (*self).8.wire_bytes(o));
                    assert((start@ + ((*self).0.wire_bytes(o) + (*self).1.wire_bytes(o) + (*self).2.wire_bytes(o) + (*self).3.wire_bytes(o) + (*self).4.wire_bytes(o) + (*self).5.wire_bytes(o) + (*self).6.wire_bytes(o) + (*self).7.wire_bytes(o))) + (*self).8.wire_bytes(o) =~= start@ + ((*self).0.wire_bytes(o) + (*self).1.wire_bytes(o) + (*self).2.wire_bytes(o) + (*self).3.wire_bytes(o) + (*self).4.wire_bytes(o) + (*self).5.wire_bytes(o) + (*self).6.wire_bytes(o) + (*self).7.wire_bytes(o) + (*self).8.wire_bytes(o)));
                    lemma_prefix_chain(dst@, start@ + ((*self).0.wire_bytes(o) + (*self).1.wire_bytes(o) + (*self).2.wire_bytes(o) + (*self).3.wire_bytes(o) + (*self).4.wire_bytes(o) + (*self).5.wire_bytes(o) + (*self).6.wire_bytes(o) + (*self).7.wire_bytes(o)), start@ + ((*self).0.wire_bytes(o) + (*self).1.wire_bytes(o) + (*self).2.wire_bytes(o) + (*self).3.wire_bytes(o) + (*self).4.wire_bytes(o) + (*self).5.wire_bytes(o) + (*self).6.wire_bytes(o) + (*self).7.wire_bytes(o) + (*self).8.wire_bytes(o)));
                    lemma_prefix_of_append(start@ + ((*self).0.wire_bytes(o) + (*self).1.wire_bytes(o) + (*self).2.wire_bytes(o) + (*self).3.wire_bytes(o) + (*self).4.wire_bytes(o) + (*self).5.wire_bytes(o) + (*self).6.wire_bytes(o) + (*self).7.wire_bytes(o) + (*self).8.wire_bytes(o)), (*self).9.wire_bytes(o));
                    assert((start@ + ((*self).0.wire_bytes(o) + (*self).1.wire_bytes(o) + (*self).2.wire_bytes(o) + (*self).3.wire_bytes(o) + (*self).4.wire_bytes(o) + (*self).5.wire_bytes(o) + (*self).6.wire_bytes(o) + (*self).7.wire_bytes(o) + (*self).8.wire_bytes(o))) + (*self).9.wire_bytes(o) =~= start@ + ((*self).0.wire_bytes(o) + (*self).1.wire_bytes(o) + (*self).2.wire_bytes(o) + (*self).3.wire_bytes(o) + (*self).4.wire_bytes(o) + (*self).5.wire_bytes(o) + (*self).6.wire_bytes(o) + (*self).7.wire_bytes(o) + (*self).8.wire_bytes(o) + (*self).9.wire_bytes(o)));
                    lemma_prefix_chain(dst@, start@ + ((*self).0.wire_bytes(o) + (*self).1.wire_bytes(o) + (*self).2.wire_bytes(o) + (*self).3.wire_bytes(o) + (*self).4.wire_bytes(o) + (*self).5.wire_bytes(o) + (*self).6.wire_bytes(o) + (*self).7.wire_bytes(o) + (*self).8.wire_bytes(o)), start@ + ((*self).0.wire_bytes(o) + (*self).1.wire_bytes(o) + (*self).2.wire_bytes(o) + (*self).3.wire_bytes(o) + (*self).4.wire_bytes(o) + (*self).5.wire_bytes(o) + (*self).6.wire_bytes(o) + (*self).7.wire_bytes(o) + (*self).8.wire_bytes(o) + (*self).9.wire_bytes(o)));
                    lemma_prefix_of_append(start@ + ((*self).0.wire_bytes(o) + (*self).1.wire_bytes(o) + (*self).2.wire_bytes(o) + (*self).3.wire_bytes(o) + (*self).4.wire_bytes(o) + (*self).5.wire_bytes(o) + (*self).6.wire_bytes(o) + (*self).7.wire_bytes(o) + (*self).8.wire_bytes(o) + (*self).9.wire_bytes(o)), (*self).10.wire_bytes(o));
                    assert((start@ + ((*self).0.wire_bytes(o) + (*self).1.wire_bytes(o) + (*self).2.wire_bytes(o) + (*self).3.wire_bytes(o) + (*self).4.wire_bytes(o) + (*self).5.wire_bytes(o) + (*self).6.wire_bytes(o) + (*self).7.wire_bytes(o) + (*self).8.wire_bytes(o) + (*self).9.wire_bytes(o))) + (*self).10.wire_bytes(o) =~= start@ + ((*self).0.wire_bytes(o) + (*self).1.wire_bytes(o) + (*self).2.wire_bytes(o) + (*self).3.wire_bytes(o) + (*self).4.wire_bytes(o) + (*self).5.wire_bytes(o) + (*self).6.wire_bytes(o) + (*self).7.wire_bytes(o) + (*self).8.wire_bytes(o) + (*self).9.wire_bytes(o) + (*self).10.wire_bytes(o)));
                    lemma_prefix_chain(dst@, start@ + ((*self).0.wire_bytes(o) + (*self).1.wire_bytes(o) + (*self).2.wire_bytes(o) + (*self).3.wire_bytes(o) + (*self).4.wire_bytes(o) + (*self).5.wire_bytes(o) + (*self).6.wire_bytes(o) + (*self).7.wire_bytes(o) + (*self).8.wire_bytes(o) + (*self).9.wire_bytes(o)), start@ + ((*self).0.wire_bytes(o) + (*self).1.wire_bytes(o) + (*self).2.wire_bytes(o) + (*self).3.wire_bytes(o) + (*self).4.wire_bytes(o) + (*self).5.wire_bytes(o) + (*self).6.wire_bytes(o) + (*self).7.wire_bytes(o) + (*self).8.wire_bytes(o) + (*self).9.wire_bytes(o) + (*self).10.wire_bytes(o)));
                    lemma_prefix_of_append(start@ + ((*self).0.wire_bytes(o) + (*self).1.wire_bytes(o) + (*self).2.wire_bytes(o) + (*self).3.wire_bytes(o) + (*self).4.wire_bytes(o) + (*self).5.wire_bytes(o) + (*self).6.wire_bytes(o) + (*self).7.wire_bytes(o) + (*self).8.wire_bytes(o) + (*self).9.wire_bytes(o) + (*self).10.wire_bytes(o)), (*self).11.wire_bytes(o));
                    assert((start@ + ((*self).0.wire_bytes(o) + (*self).1.wire_bytes(o) + (*self).2.wire_bytes(o) + (*self).3.wire_bytes(o) + (*self).4.wire_bytes(o) + (*self).5.wire_bytes(o) + (*self).6.wire_bytes(o) + (*self).7.wire_bytes(o) + (*self).8.wire_bytes(o) + (*self).9.wire_bytes(o) + (*self).10.wire_bytes(o))) + (*self).11.wire_bytes(o) =~= start@ + ((*self).0.wire_bytes(o) + (*self).1.wire_bytes(o) + (*self).2.wire_bytes(o) + (*self).3.wire_bytes(o) + (*self).4.wire_bytes(o) + (*self).5.wire_bytes(o) + (*self).6.wire_bytes(o) + (*self).7.wire_bytes(o) + (*self).8.wire_bytes(o) + (*self).9.wire_bytes(o) + (*self).10.wire_bytes(o) + (*self).11.wire_bytes(o)));
                    lemma_prefix_chain(dst@, start@ + ((*self).0.wire_bytes(o) + (*self).1.wire_bytes(o) + (*self).2.wire_bytes(o) + (*self).3.wire_bytes(o) + (*self).4.wire_bytes(o) + (*self).5.wire_bytes(o) + (*self).6.wire_bytes(o) + (*self).7.wire_bytes(o) + (*self).8.wire_bytes(o) + (*self).9.wire_bytes(o) + (*self).10.wire_bytes(o)), start@ + ((*self).0.wire_bytes(o) + (*self).1.wire_bytes(o) + (*self).2.wire_bytes(o) + (*self).3.wire_bytes(o) + (*self).4.wire_bytes(o) + (*self).5.wire_bytes(o) + (*self).6.wire_bytes(o) + (*self).7.wire_bytes(o) + (*self).8.wire_bytes(o) + (*self).9.wire_bytes(o) + (*self).10.wire_bytes(o) + (*self).11.wire_bytes(o)));
                }
                return Err(e);
            },
        }
        proof {
            assert(dst@ =~= start@ + ((*self).0.wire_bytes(o)));
        }
        let ghost d1 = *dst;
        match self.1.pack_to(o, dst) {
            Ok(_) => {},
            Err(e) => {
                proof {
                    lemma_prefix_of_append(start@, (*self).0.wire_bytes(o));
                    lemma_prefix_chain(start@, d1@, dst@);
                    assert(d1@ + (*self).1.wire_bytes(o) =~= start@ + ((*self).0.wire_bytes(o) + (*self).1.wire_bytes(o)));
                    lemma_prefix_of_append(start@ + ((*self).0.wire_bytes(o) + (*self).1.wire_bytes(o)), (*self).2.wire_bytes(o));
                    assert((start@ + ((*self).0.wire_bytes(o) + (*self).1.wire_bytes(o))) + (*self).2.wire_bytes(o) =~= start@ + ((*self).0.wire_bytes(o) + (*self).1.wire_bytes(o) + (*self).2.wire_bytes(o)));
                    lemma_prefix_chain(dst@, start@ + ((*self).0.wire_bytes(o) + (*self).1.wire_bytes(o)), start@ + ((*self).0.wire_bytes(o) + (*self).1.wire_bytes(o) + (*self).2.wire_bytes(o)));
                    lemma_prefix_of_append(start@ + ((*self).0.wire_bytes(o) + (*self).1.wire_bytes(o) + (*self).2.wire_bytes(o)), (*self).3.wire_bytes(o));
                    assert((start@ + ((*self).0.wire_bytes(o) + (*self).1.wire_bytes(o) + (*self).2.wire_bytes(o))) + (*self).3.wire_bytes(o) =~= start@ + ((*self).0.wire_bytes(o) + (*self).1.wire_bytes(o) + (*self).2.wire_bytes(o) + (*self).3.wire_bytes(o)));
                    lemma_prefix_chain(dst@, start@ + ((*self).0.wire_bytes(o) + (*self).1.wire_bytes(o) + (*self).2.wire_bytes(o)), start@ + ((*self).0.wire_bytes(o) + (*self).1.wire_bytes(o) + (*self).2.wire_bytes(o) + (*self).3.wire_bytes(o)));
                    lemma_prefix_of_append(start@ + ((*self).0.wire_bytes(o) + (*self).1.wire_bytes(o) + (*self).2.wire_bytes(o) + (*self).3.wire_bytes(o)), (*self).4.wire_bytes(o));
                    assert((start@ + ((*self).0.wire_bytes(o) + (*self).1.wire_bytes(o) + (*self).2.wire_bytes(o) + (*self).3.wire_bytes(o))) + (*self).4.wire_bytes(o) =~= start@ + ((*self).0.wire_bytes(o) + (*self).1.wire_bytes(o) + (*self).2.wire_bytes(o) + (*self).3.wire_bytes(o) + (*self).4.wire_bytes(o)));
                    lemma_prefix_chain(dst@, start@ + ((*self).0.wire_bytes(o) + (*self).1.wire_bytes(o) + (*self).2.wire_bytes(o) + (*self).3.wire_bytes(o)), start@ + ((*self).0.wire_bytes(o) + (*self).1.wire_bytes(o) + (*self).2.wire_bytes(o) + (*self).3.wire_bytes(o) + (*self).4.wire_bytes(o)));
                    lemma_prefix_of_append(start@ + ((*self).0.wire_bytes(o) + (*self).1.wire_bytes(o) + (*self).2.wire_bytes(o) + (*self).3.wire_bytes(o) + (*self).4.wire_bytes(o)), (*self).5.wire_bytes(o));
                    assert((start@ + ((*self).0.wire_bytes(o) + (*self).1.wire_bytes(o) + (*self).2.wire_bytes(o) + (*self).3.wire_bytes(o) + (*self).4.wire_bytes(o))) + (*self).5.wire_bytes(o) =~= start@ + ((*self).0.wire_bytes(o) + (*self).1.wire_bytes(o) + (*self).2.wire_bytes(o) + (*self).3.wire_bytes(o) + (*self).4.wire_bytes(o) + (*self).5.wire_bytes(o)));
                    lemma_prefix_chain(dst@, start@ + ((*self).0.wire_bytes(o) + (*self).1.wire_bytes(o) + (*self).2.wire_bytes(o) + (*self).3.wire_bytes(o) + (*self).4.wire_bytes(o)), start@ + ((*self).0.wire_bytes(o) + (*self).1.wire_bytes(o) + (*self).2.wire_bytes(o) + (*self).3.wire_bytes(o) + (*self).4.wire_bytes(o) + (*self).5.wire_bytes(o)));
                    lemma_prefix_of_append(start@ + ((*self).0.wire_bytes(o) + (*self).1.wire_bytes(o) + (*self).2.wire_bytes(o) + (*self).3.wire_bytes(o) + (*self).4.wire_bytes(o) + (*self).5.wire_bytes(o)), (*self).6.wire_bytes(o));
                    assert((start@ + ((*self).0.wire_bytes(o) + (*self).1.wire_bytes(o) + (*self).2.wire_bytes(o) + (*self).3.wire_bytes(o) + (*self).4.wire_bytes(o) + (*self).5.wire_bytes(o))) + (*self).6.wire_bytes(o) =~= start@ + ((*self).0.wire_bytes(o) + (*self).1.wire_bytes(o) + (*self).2.wire_bytes(o) + (*self).3.wire_bytes(o) + (*self).4.wire_bytes(o) + (*self).5.wire_bytes(o) + (*self).6.wire_bytes(o)));
                    lemma_prefix_chain(dst@, start@ + ((*self).0.wire_bytes(o) + (*self).1.wire_bytes(o) + (*self).2.wire_bytes(o) + (*self).3.wire_bytes(o) + (*self).4.wire_bytes(o) + (*self).5.wire_bytes(o)), start@ + ((*self).0.wire_bytes(o) + (*self).1.wire_bytes(o) + (*self).2.wire_bytes(o) + (*self).3.wire_bytes(o) + (*self).4.wire_bytes(o) + (*self).5.wire_bytes(o) + (*self).6.wire_bytes(o)));
                    lemma_prefix_of_append(start@ + ((*self).0.wire_bytes(o) + (*self).1.wire_bytes(o) + (*self).2.wire_bytes(o) + (*self).3.wire_bytes(o) + (*self).4.wire_bytes(o) + (*self).5.wire_bytes(o) + (*self).6.wire_bytes(o)), (*self).7.wire_bytes(o));
                    assert((start@ + ((*self).0.wire_bytes(o) + (*self).1.wire_bytes(o) + (*self).2.wire_bytes(o) + (*self).3.wire_bytes(o) + (*self).4.wire_bytes(o) + (*self).5.wire_bytes(o) + (*self).6.wire_bytes(o))) + (*self).7.wire_bytes(o) =~= start@ + ((*self).0.wire_bytes(o) + (*self).1.wire_bytes(o) + (*self).2.wire_bytes(o) + (*self).3.wire_bytes(o) + (*self).4.wire_bytes(o) + (*self).5.wire_bytes(o) + (*self).6.wire_bytes(o) + (*self).7.wire_bytes(o)));
                    lemma_prefix_chain(dst@, start@ + ((*self).0.wire_bytes(o) + (*self).1.wire_bytes(o) + (*self).2.wire_bytes(o) + (*self).3.wire_bytes(o) + (*self).4.wire_bytes(o) + (*self).5.wire_bytes(o) + (*self).6.wire_bytes(o)), start@ + ((*self).0.wire_bytes(o) + (*self).1.wire_bytes(o) + (*self).2.wire_bytes(o) + (*self).3.wire_bytes(o) + (*self).4.wire_bytes(o) + (*self).5.wire_bytes(o) + (*self).6.wire_bytes(o) + (*self).7.wire_bytes(o)));
                    lemma_prefix_of_append(start@ + ((*self).0.wire_bytes(o) + (*self).1.wire_bytes(o) + (*self).2.wire_bytes(o) + (*self).3.wire_bytes(o) + (*self).4.wire_bytes(o) + (*self).5.wire_bytes(o) + (*self).6.wire_bytes(o) + (*self).7.wire_bytes(o)), (*self).8.wire_bytes(o));
                    assert((start@ + ((*self).0.wire_bytes(o) + (*self).1.wire_bytes(o) + (*self).2.wire_bytes(o) + (*self).3.wire_bytes(o) + (*self).4.wire_bytes(o) + (*self).5.wire_bytes(o) + (*self).6.wire_bytes(o) + (*self).7.wire_bytes(o))) + (*self).8.wire_bytes(o) =~= start@ + ((*self).0.wire_bytes(o) + (*self).1.wire_bytes(o) + (*self).2.wire_bytes(o) + (*self).3.wire_bytes(o) + (*self).4.wire_bytes(o) + (*self).5.wire_bytes(o) + (*self).6.wire_bytes(o) + (*self).7.wire_bytes(o) + (*self).8.wire_bytes(o)));
                    lemma_prefix_chain(dst@, start@ + ((*self).0.wire_bytes(o) + (*self).1.wire_bytes(o) + (*self).2.wire_bytes(o) + (*self).3.wire_bytes(o) + (*self).4.wire_bytes(o) + (*self).5.wire_bytes(o) + (*self).6.wire_bytes(o) + (*self).7.wire_bytes(o)), start@ + ((*self).0.wire_bytes(o) + (*self).1.wire_bytes(o) + (*self).2.wire_bytes(o) + (*self).3.wire_bytes(o) + (*self).4.wire_bytes(o) + (*self).5.wire_bytes(o) + (*self).6.wire_bytes(o) + (*self).7.wire_bytes(o) + (*self).8.wire_bytes(o)));
                    lemma_prefix_of_append(start@ + ((*self).0.wire_bytes(o) + (*self).1.wire_bytes(o) + (*self).2.wire_bytes(o) + (*self).3.wire_bytes(o) + (*self).4.wire_bytes(o) + (*self).5.wire_bytes(o) + (*self).6.wire_bytes(o) + (*self).7.wire_bytes(o) + (*self).8.wire_bytes(o)), (*self).9.wire_bytes(o));
                    assert((start@ + ((*self).0.wire_bytes(o) + (*self).1.wire_bytes(o) + (*self).2.wire_bytes(o) + (*self).3.wire_bytes(o) + (*self).4.wire_bytes(o) + (*self).5.wire_bytes(o) + (*self).6.wire_bytes(o) + (*self).7.wire_bytes(o) + (*self).8.wire_bytes(o))) + (*self).9.wire_bytes(o) =~= start@ + ((*self).0.wire_bytes(o) + (*self).1.wire_bytes(o) + (*self).2.wire_bytes(o) + (*self).3.wire_bytes(o) + (*self).4.wire_bytes(o) + (*self).5.wire_bytes(o) + (*self).6.wire_bytes(o) + (*self).7.wire_bytes(o) + (*self).8.wire_bytes(o) + (*self).9.wire_bytes(o)));
                    lemma_prefix_chain(dst@, start@ + ((*self).0.wire_bytes(o) + (*self).1.wire_bytes(o) + (*self).2.wire_bytes(o) + (*self).3.wire_bytes(o) + (*self).4.wire_bytes(o) + (*self).5.wire_bytes(o) + (*self).6.wire_bytes(o) + (*self).7.wire_bytes(o) + (*self).8.wire_bytes(o)), start@ + ((*self).0.wire_bytes(o) + (*self).1.wire_bytes(o) + (*self).2.wire_bytes(o) + (*self).3.wire_bytes(o) + (*self).4.wire_bytes(o) + (*self).5.wire_bytes(o) + (*self).6.wire_bytes(o) + (*self).7.wire_bytes(o) + (*self).8.wire_bytes(o) + (*self).9.wire_bytes(o)));
                    lemma_prefix_of_append(start@ + ((*self).0.wire_bytes(o) + (*self).1.wire_bytes(o) + (*self).2.wire_bytes(o) + (*self).3.wire_bytes(o) + (*self).4.wire_bytes(o) + (*self).5.wire_bytes(o) + (*self).6.wire_bytes(o) + (*self).7.wire_bytes(o) + (*self).8.wire_bytes(o) + (*self).9.wire_bytes(o)), (*self).10.wire_bytes(o));
                    assert((start@ + ((*self).0.wire_bytes(o) + (*self).1.wire_bytes(o) + (*self).2.wire_bytes(o) + (*self).3.wire_bytes(o) + (*self).4.wire_bytes(o) + (*self).5.wire_bytes(o) + (*self).6.wire_bytes(o) + (*self).7.wire_bytes(o) + (*self).8.wire_bytes(o) + (*self).9.wire_bytes(o))) + (*self).10.wire_bytes(o) =~= start@ + ((*self).0.wire_bytes(o) + (*self).1.wire_bytes(o) + (*self).2.wire_bytes(o) + (*self).3.wire_bytes(o) + (*self).4.wire_bytes(o) + (*self).5.wire_bytes(o) + (*self).6.wire_bytes(o) + (*self).7.wire_bytes(o) + (*self).8.wire_bytes(o) + (*self).9.wire_bytes(o) + (*self).10.wire_bytes(o)));
                    lemma_prefix_chain(dst@, start@ + ((*self).0.wire_bytes(o) + (*self).1.wire_bytes(o) + (*self).2.wire_bytes(o) + (*self).3.wire_bytes(o) + (*self).4.wire_bytes(o) + (*self).5.wire_bytes(o) + (*self).6.wire_bytes(o) + (*self).7.wire_bytes(o) + (*self).8.wire_bytes(o) + (*self).9.wire_bytes(o)), start@ + ((*self).0.wire_bytes(o) + (*self).1.wire_bytes(o) + (*self).2.wire_bytes(o) + (*self).3.wire_bytes(o) + (*self).4.wire_bytes(o) + (*self).5.wire_bytes(o) + (*self).6.wire_bytes(o) + (*self).7.wire_bytes(o) + (*self).8.wire_bytes(o) + (*self).9.wire_bytes(o) + (*self).10.wire_bytes(o)));
                    lemma_prefix_of_append(start@ + ((*self).0.wire_bytes(o) + (*self).1.wire_bytes(o) + (*self).2.wire_bytes(o) + (*self).3.wire_bytes(o) + (*self).4.wire_bytes(o) + (*self).5.wire_bytes(o) + (*self).6.wire_bytes(o) + (*self).7.wire_bytes(o) + (*self).8.wire_bytes(o) + (*self).9.wire_bytes(o) + (*self).10.wire_bytes(o)), (*self).11.wire_bytes(o));
                    assert((start@ + ((*self).0.wire_bytes(o) + (*self).1.wire_bytes(o) + (*self).2.wire_bytes(o) + (*self).3.wire_bytes(o) + (*self).4.wire_bytes(o) + (*self).5.wire_bytes(o) + (*self).6.wire_bytes(o) + (*self).7.wire_bytes(o) + (*self).8.wire_bytes(o) + (*self).9.wire_bytes(o) + (*self).10.wire_bytes(o))) + (*self).11.wire_bytes(o) =~= start@ + ((*self).0.wire_bytes(o) + (*self).1.wire_bytes(o) + (*self).2.wire_bytes(o) + (*self).3.wire_bytes(o) + (*self).4.wire_bytes(o) + (*self).5.wire_bytes(o) + (*self).6.wire_bytes(o) + (*self).7.wire_bytes(o) + (*self).8.wire_bytes(o) + (*self).9.wire_bytes(o) + (*self).10.wire_bytes(o) + (*self).11.wire_bytes(o)));
                    lemma_prefix_chain(dst@, start@ + ((*self).0.wire_bytes(o) + (*self).1.wire_bytes(o) + (*self).2.wire_bytes(o) + (*self).3.wire_bytes(o) + (*self).4.wire_bytes(o) + (*self).5.wire_bytes(o) + (*self).6.wire_bytes(o) + (*self).7.wire_bytes(o) + (*self).8.wire_bytes(o) + (*self).9.wire_bytes(o) + (*self).10.wire_bytes(o)), start@ + ((*self).0.wire_bytes(o) + (*self).1.wire_bytes(o) + (*self).2.wire_bytes(o) + (*self).3.wire_bytes(o) + (*self).4.wire_bytes(o) + (*self).5.wire_bytes(o) + (*self).6.wire_bytes(o) + (*self).7.wire_bytes(o) + (*self).8.wire_bytes(o) + (*self).9.wire_bytes(o) + (*self).10.wire_bytes(o) + (*self).11.wire_bytes(o)));
                }
                return Err(e);
            },
        }
        proof {
            assert(dst@ =~= start@ + ((*self).0.wire_bytes(o) + (*self).1.wire_bytes(o)));
        }
        let ghost d2 = *dst;
        match self.2.pack_to(o, dst) {
            Ok(_) => {},
            Err(e) => {
                proof {
                    lemma_prefix_of_append(start@, (*self).0.wire_bytes(o) + (*self).1.wire_bytes(o));
                    lemma_prefix_chain(start@, d2@, dst@);
                    assert(d2@ + (*self).2.wire_bytes(o) =~= start@ + ((*self).0.wire_bytes(o) + (*self).1.wire_bytes(o) + (*self).2.wire_bytes(o)));
                    lemma_prefix_of_append(start@ + ((*self).0.wire_bytes(o) + (*self).1.wire_bytes(o) + (*self).2.wire_bytes(o)), (*self).3.wire_bytes(o));
                    assert((start@ + ((*self).0.wire_bytes(o) + (*self).1.wire_bytes(o) + (*self).2.wire_bytes(o))) + (*self).3.wire_bytes(o) =~= start@ + ((*self).0.wire_bytes(o) + (*self).1.wire_bytes(o) + (*self).2.wire_bytes(o) + (*self).3.wire_bytes(o)));
                    lemma_prefix_chain(dst@, start@ + ((*self).0.wire_bytes(o) + (*self).1.wire_bytes(o) + (*self).2.wire_bytes(o)), start@ + ((*self).0.wire_bytes(o) + (*self).1.wire_bytes(o) + (*self).2.wire_bytes(o) + (*self).3.wire_bytes(o)));
                    lemma_prefix_of_append(start@ + ((*self).0.wire_bytes(o) + (*self).1.wire_bytes(o) + (*self).2.wire_bytes(o) + (*self).3.wire_bytes(o)), (*self).4.wire_bytes(o));
                    assert((start@ + ((*self).0.wire_bytes(o) + (*self).1.wire_bytes(o) + (*self).2.wire_bytes(o) + (*self).3.wire_bytes(o))) + (*self).4.wire_bytes(o) =~= start@ + ((*self).0.wire_bytes(o) + (*self).1.wire_bytes(o) + (*self).2.wire_bytes(o) + (*self).3.wire_bytes(o) + (*self).4.wire_bytes(o)));
                    lemma_prefix_chain(dst@, start@ + ((*self).0.wire_bytes(o) + (*self).1.wire_bytes(o) + (*self).2.wire_bytes(o) + (*self).3.wire_bytes(o)), start@ + ((*self).0.wire_bytes(o) + (*self).1.wire_bytes(o) + (*self).2.wire_bytes(o) + (*self).3.wire_bytes(o) + (*self).4.wire_bytes(o)));
                    lemma_prefix_of_append(start@ + ((*self).0.wire_bytes(o) + (*self).1.wire_bytes(o) + (*self).2.wire_bytes(o) + (*self).3.wire_bytes(o) + (*self).4.wire_bytes(o)), (*self).5.wire_bytes(o));
                    assert((start@ + ((*self).0.wire_bytes(o) + (*self).1.wire_bytes(o) + (*self).2.wire_bytes(o) + (*self).3.wire_bytes(o) + (*self).4.wire_bytes(o))) + (*self).5.wire_bytes(o) =~= start@ + ((*self).0.wire_bytes(o) + (*self).1.wire_bytes(o) + (*self).2.wire_bytes(o) + (*self).3.wire_bytes(o) + (*self).4.wire_bytes(o) + (*self).5.wire_bytes(o)));
                    lemma_prefix_chain(dst@, start@ + ((*self).0.wire_bytes(o) + (*self).1.wire_bytes(o) + (*self).2.wire_bytes(o) + (*self).3.wire_bytes(o) + (*self).4.wire_bytes(o)), start@ + ((*self).0.wire_bytes(o) + (*self).1.wire_bytes(o) + (*self).2.wire_bytes(o) + (*self).3.wire_bytes(o) + (*self).4.wire_bytes(o) + (*self).5.wire_bytes(o)));
                    lemma_prefix_of_append(start@ + ((*self).0.wire_bytes(o) + (*self).1.wire_bytes(o) + (*self).2.wire_bytes(o) + (*self).3.wire_bytes(o) + (*self).4.wire_bytes(o) + (*self).5.wire_bytes(o)), (*self).6.wire_bytes(o));
                    assert((start@ + ((*self).0.wire_bytes(o) + (*self).1.wire_bytes(o) + (*self).2.wire_bytes(o) + (*self).3.wire_bytes(o) + (*self).4.wire_bytes(o) + (*self).5.wire_bytes(o))) + (*self).6.wire_bytes(o) =~= start@ + ((*self).0.wire_bytes(o) + (*self).1.wire_bytes(o) + (*self).2.wire_bytes(o) + (*self).3.wire_bytes(o) + (*self).4.wire_bytes(o) + (*self).5.wire_bytes(o) + (*self).6.wire_bytes(o)));
                    lemma_prefix_chain(dst@, start@ + ((*self).0.wire_bytes(o) + (*self).1.wire_bytes(o) + (*self).2.wire_bytes(o) + (*self).3.wire_bytes(o) + (*self).4.wire_bytes(o) + (*self).5.wire_bytes(o)), start@ + ((*self).0.wire_bytes(o) + (*self).1.wire_bytes(o) + (*self).2.wire_bytes(o) + (*self).3.wire_bytes(o) + (*self).4.wire_bytes(o) + (*self).5.wire_bytes(o) + (*self).6.wire_bytes(o)));
                    lemma_prefix_of_append(start@ + ((*self).0.wire_bytes(o) + (*self).1.wire_bytes(o) + (*self).2.wire_bytes(o) + (*self).3.wire_bytes(o) + (*self).4.wire_bytes(o) + (*self).5.wire_bytes(o) + (*self).6.wire_bytes(o)), (*self).7.wire_bytes(o));
                    assert((start@ + ((*self).0.wire_bytes(o) + (*self).1.wire_bytes(o) + (*self).2.wire_bytes(o) + (*self).3.wire_bytes(o) + (*self).4.wire_bytes(o) + (*self).5.wire_bytes(o) + (*self).6.wire_bytes(o))) + (*self).7.wire_bytes(o) =~= start@ + ((*self).0.wire_bytes(o) + (*self).1.wire_bytes(o) + (*self).2.wire_bytes(o) + (*self).3.wire_bytes(o) + (*self).4.wire_bytes(o) + (*self).5.wire_bytes(o) + (*self).6.wire_bytes(o) + (*self).7.wire_bytes(o)));
                    lemma_prefix_chain(dst@, start@ + ((*self).0.wire_bytes(o) + (*self).1.wire_bytes(o) + (*self).2.wire_bytes(o) + (*self).3.wire_bytes(o) + (*self).4.wire_bytes(o) + (*self).5.wire_bytes(o) + (*self).6.wire_bytes(o)), start@ + ((*self).0.wire_bytes(o) + (*self).1.wire_bytes(o) + (*self).2.wire_bytes(o) + (*self).3.wire_bytes(o) + (*self).4.wire_bytes(o) + (*self).5.wire_bytes(o) + (*self).6.wire_bytes(o) + (*self).7.wire_bytes(o)));
                    lemma_prefix_of_append(start@ + ((*self).0.wire_bytes(o) + (*self).1.wire_bytes(o) + (*self).2.wire_bytes(o) + (*self).3.wire_bytes(o) + (*self).4.wire_bytes(o) + (*self).5.wire_bytes(o) + (*self).6.wire_bytes(o) + (*self).7.wire_bytes(o)), (*self).8.wire_bytes(o));
                    assert((start@ + ((*self).0.wire_bytes(o) + (*self).1.wire_bytes(o) + (*self).2.wire_bytes(o) + (*self).3.wire_bytes(o) + (*self).4.wire_bytes(o) + (*self).5.wire_bytes(o) + (*self).6.wire_bytes(o) + (*self).7.wire_bytes(o))) + (*self).8.wire_bytes(o) =~= start@ + ((*self).0.wire_bytes(o) + (*self).1.wire_bytes(o) + (*self).2.wire_bytes(o) + (*self).3.wire_bytes(o) + (*self).4.wire_bytes(o) + (*self).5.wire_bytes(o) + (*self).6.wire_bytes(o) + (*self).7.wire_bytes(o) + (*self).8.wire_bytes(o)));
                    lemma_prefix_chain(dst@, start@ + ((*self).0.wire_bytes(o) + (*self).1.wire_bytes(o) + (*self).2.wire_bytes(o) + (*self).3.wire_bytes(o) + (*self).4.wire_bytes(o) + (*self).5.wire_bytes(o) + (*self).6.wire_bytes(o) + (*self).7.wire_bytes(o)), start@ + ((*self).0.wire_bytes(o) + (*self).1.wire_bytes(o) + (*self).2.wire_bytes(o) + (*self).3.wire_bytes(o) + (*self).4.wire_bytes(o) + (*self).5.wire_bytes(o) + (*self).6.wire_bytes(o) + (*self).7.wire_bytes(o) + (*self).8.wire_bytes(o)));
                    lemma_prefix_of_append(start@ + ((*self).0.wire_bytes(o) + (*self).1.wire_bytes(o) + (*self).2.wire_bytes(o) + (*self).3.wire_bytes(o) + (*self).4.wire_bytes(o) + (*self).5.wire_bytes(o) + (*self).6.wire_bytes(o) + (*self).7.wire_bytes(o) + (*self).8.wire_bytes(o)), (*self).9.wire_bytes(o));
                    assert((start@ + ((*self).0.wire_bytes(o) + (*self).1.wire_bytes(o) + (*self).2.wire_bytes(o) + (*self).3.wire_bytes(o) + (*self).4.wire_bytes(o) + (*self).5.wire_bytes(o) + (*self).6.wire_bytes(o) + (*self).7.wire_bytes(o) + (*self).8.wire_bytes(o))) + (*self).9.wire_bytes(o) =~= start@ + ((*self).0.wire_bytes(o) + (*self).1.wire_bytes(o) + (*self).2.wire_bytes(o) + (*self).3.wire_bytes(o) + (*self).4.wire_bytes(o) + (*self).5.wire_bytes(o) + (*self).6.wire_bytes(o) + (*self).7.wire_bytes(o) + (*self).8.wire_bytes(o) + (*self).9.wire_bytes(o)));
                    lemma_prefix_chain(dst@, start@ + ((*self).0.wire_bytes(o) + (*self).1.wire_bytes(o) + (*self).2.wire_bytes(o) + (*self).3.wire_bytes(o) + (*self).4.wire_bytes(o) + (*self).5.wire_bytes(o) + (*self).6.wire_bytes(o) + (*self).7.wire_bytes(o) + (*self).8.wire_bytes(o)), start@ + ((*self).0.wire_bytes(o) + (*self).1.wire_bytes(o) + (*self).2.wire_bytes(o) + (*self).3.wire_bytes(o) + (*self).4.wire_bytes(o) + (*self).5.wire_bytes(o) + (*self).6.wire_bytes(o) + (*self).7.wire_bytes(o) + (*self).8.wire_bytes(o) + (*self).9.wire_bytes(o)));
                    lemma_prefix_of_append(start@ + ((*self).0.wire_bytes(o) + (*self).1.wire_bytes(o) + (*self).2.wire_bytes(o) + (*self).3.wire_bytes(o) + (*self).4.wire_bytes(o) + (*self).5.wire_bytes(o) + (*self).6.wire_bytes(o) + (*self).7.wire_bytes(o) + (*self).8.wire_bytes(o) + (*self).9.wire_bytes(o)), (*self).10.wire_bytes(o));
                    assert((start@ + ((*self).0.wire_bytes(o) + (*self).1.wire_bytes(o) + (*self).2.wire_bytes(o) + (*self).3.wire_bytes(o) + (*self).4.wire_bytes(o) + (*self).5.wire_bytes(o) + (*self).6.wire_bytes(o) + (*self).7.wire_bytes(o) + (*self).8.wire_bytes(o) + (*self).9.wire_bytes(o))) + (*self).10.wire_bytes(o) =~= start@ + ((*self).0.wire_bytes(o) + (*self).1.wire_bytes(o) + (*self).2.wire_bytes(o) + (*self).3.wire_bytes(o) + (*self).4.wire_bytes(o) + (*self).5.wire_bytes(o) + (*self).6.wire_bytes(o) + (*self).7.wire_bytes(o) + (*self).8.wire_bytes(o) + (*self).9.wire_bytes(o) + (*self).10.wire_bytes(o)));
                    lemma_prefix_chain(dst@, start@ + ((*self).0.wire_bytes(o) + (*self).1.wire_bytes(o) + (*self).2.wire_bytes(o) + (*self).3.wire_bytes(o) + (*self).4.wire_bytes(o) + (*self).5.wire_bytes(o) + (*self).6.wire_bytes(o) + (*self).7.wire_bytes(o) + (*self).8.wire_bytes(o) + (*self).9.wire_bytes(o)), start@ + ((*self).0.wire_bytes(o) + (*self).1.wire_bytes(o) + (*self).2.wire_bytes(o) + (*self).3.wire_bytes(o) + (*self).4.wire_bytes(o) + (*self).5.wire_bytes(o) + (*self).6.wire_bytes(o) + (*self).7.wire_bytes(o) + (*self).8.wire_bytes(o) + (*self).9.wire_bytes(o) + (*self).10.wire_bytes(o)));
                    lemma_prefix_of_append(start@ + ((*self).0.wire_bytes(o) + (*self).1.wire_bytes(o) + (*self).2.wire_bytes(o) + (*self).3.wire_bytes(o) + (*self).4.wire_bytes(o) + (*self).5.wire_bytes(o) + (*self).6.wire_bytes(o) + (*self).7.wire_bytes(o) + (*self).8.wire_bytes(o) + (*self).9.wire_bytes(o) + (*self).10.wire_bytes(o)), (*self).11.wire_bytes(o));
                    assert((start@ + ((*self).0.wire_bytes(o) + (*self).1.wire_bytes(o) + (*self).2.wire_bytes(o) + (*self).3.wire_bytes(o) + (*self).4.wire_bytes(o) + (*self).5.wire_bytes(o) + (*self).6.wire_bytes(o) + (*self).7.wire_bytes(o) + (*self).8.wire_bytes(o) + (*self).9.wire_bytes(o) + (*self).10.wire_bytes(o))) + (*self).11.wire_bytes(o) =~= start@ + ((*self).0.wire_bytes(o) + (*self).1.wire_bytes(o) + (*self).2.wire_bytes(o) + (*self).3.wire_bytes(o) + (*self).4.wire_bytes(o) + (*self).5.wire_bytes(o) + (*self).6.wire_bytes(o) + (*self).7.wire_bytes(o) + (*self).8.wire_bytes(o) + (*self).9.wire_bytes(o) + (*self).10.wire_bytes(o) + (*self).11.wire_bytes(o)));
                    lemma_prefix_chain(dst@, start@ + ((*self).0.wire_bytes(o) + (*self).1.wire_bytes(o) + (*self).2.wire_bytes(o) + (*self).3.wire_bytes(o) + (*self).4.wire_bytes(o) + (*self).5.wire_bytes(o) + (*self).6.wire_bytes(o) + (*self).7.wire_bytes(o) + (*self).8.wire_bytes(o) + (*self).9.wire_bytes(o) + (*self).10.wire_bytes(o)), start@ + ((*self).0.wire_bytes(o) + (*self).1.wire_bytes(o) + (*self).2.wire_bytes(o) + (*self).3.wire_bytes(o) + (*self).4.wire_bytes(o) + (*self).5.wire_bytes(o) + (*self).6.wire_bytes(o) + (*self).7.wire_bytes(o) + (*self).8.wire_bytes(o) + (*self).9.wire_bytes(o) + (*self).10.wire_bytes(o) + (*self).11.wire_bytes(o)));
                }
                return Err(e);
            },
        }
        proof {
            assert(dst@ =~= start@ + ((*self).0.wire_bytes(o) + (*self).1.wire_bytes(o) + (*self).2.wire_bytes(o)));
        }
        let ghost d3 = *dst;
        match self.3.pack_to(o, dst) {
            Ok(_) => {},
            Err(e) => {
                proof {
                    lemma_prefix_of_append(start@, (*self).0.wire_bytes(o) + (*self).1.wire_bytes(o) + (*self).2.wire_bytes(o));
                    lemma_prefix_chain(start@, d3@, dst@);
                    assert(d3@ + (*self).3.wire_bytes(o) =~= start@ + ((*self).0.wire_bytes(o) + (*self).1.wire_bytes(o) + (*self).2.wire_bytes(o) + (*self).3.wire_bytes(o)));
                    lemma_prefix_of_append(start@ + ((*self).0.wire_bytes(o) + (*self).1.wire_bytes(o) + (*self).2.wire_bytes(o) + (*self).3.wire_bytes(o)), (*self).4.wire_bytes(o));
                    assert((start@ + ((*self).0.wire_bytes(o) + (*self).1.wire_bytes(o) + (*self).2.wire_bytes(o) + (*self).3.wire_bytes(o))) + (*self).4.wire_bytes(o) =~= start@ + ((*self).0.wire_bytes(o) + (*self).1.wire_bytes(o) + (*self).2.wire_bytes(o) + (*self).3.wire_bytes(o) + (*self).4.wire_bytes(o)));
                    lemma_prefix_chain(dst@, start@ + ((*self).0.wire_bytes(o) + (*self).1.wire_bytes(o) + (*self).2.wire_bytes(o) + (*self).3.wire_bytes(o)), start@ + ((*self).0.wire_bytes(o) + (*self).1.wire_bytes(o) + (*self).2.wire_bytes(o) + (*self).3.wire_bytes(o) + (*self).4.wire_bytes(o)));
                    lemma_prefix_of_append(start@ + ((*self).0.wire_bytes(o) + (*self).1.wire_bytes(o) + (*self).2.wire_bytes(o) + (*self).3.wire_bytes(o) + (*self).4.wire_bytes(o)), (*self).5.wire_bytes(o));
                    assert((start@ + ((*self).0.wire_bytes(o) + (*self).1.wire_bytes(o) + (*self).2.wire_bytes(o) + (*self).3.wire_bytes(o) + (*self).4.wire_bytes(o))) + (*self).5.wire_bytes(o) =~= start@ + ((*self).0.wire_bytes(o) + (*self).1.wire_bytes(o) + (*self).2.wire_bytes(o) + (*self).3.wire_bytes(o) + (*self).4.wire_bytes(o) + (*self).5.wire_bytes(o)));
                    lemma_prefix_chain(dst@, start@ + ((*self).0.wire_bytes(o) + (*self).1.wire_bytes(o) + (*self).2.wire_bytes(o) + (*self).3.wire_bytes(o) + (*self).4.wire_bytes(o)), start@ + ((*self).0.wire_bytes(o) + (*self).1.wire_bytes(o) + (*self).2.wire_bytes(o) + (*self).3.wire_bytes(o) + (*self).4.wire_bytes(o) + (*self).5.wire_bytes(o)));
                    lemma_prefix_of_append(start@ + ((*self).0.wire_bytes(o) + (*self).1.wire_bytes(o) + (*self).2.wire_bytes(o) + (*self).3.wire_bytes(o) + (*self).4.wire_bytes(o) + (*self).5.wire_bytes(o)), (*self).6.wire_bytes(o));
                    assert((start@ + ((*self).0.wire_bytes(o) + (*self).1.wire_bytes(o) + (*self).2.wire_bytes(o) + (*self).3.wire_bytes(o) + (*self).4.wire_bytes(o) + (*self).5.wire_bytes(o))) + (*self).6.wire_bytes(o) =~= start@ + ((*self).0.wire_bytes(o) + (*self).1.wire_bytes(o) + (*self).2.wire_bytes(o) + (*self).3.wire_bytes(o) + (*self).4.wire_bytes(o) + (*self).5.wire_bytes(o) + (*self).6.wire_bytes(o)));
                    lemma_prefix_chain(dst@, start@ + ((*self).0.wire_bytes(o) + (*self).1.wire_bytes(o) + (*self).2.wire_bytes(o) + (*self).3.wire_bytes(o) + (*self).4.wire_bytes(o) + (*self).5.wire_bytes(o)), start@ + ((*self).0.wire_bytes(o) + (*self).1.wire_bytes(o) + (*self).2.wire_bytes(o) + (*self).3.wire_bytes(o) + (*self).4.wire_bytes(o) + (*self).5.wire_bytes(o) + (*self).6.wire_bytes(o)));
                    lemma_prefix_of_append(start@ + ((*self).0.wire_bytes(o) + (*self).1.wire_bytes(o) + (*self).2.wire_bytes(o) + (*self).3.wire_bytes(o) + (*self).4.wire_bytes(o) + (*self).5.wire_bytes(o) + (*self).6.wire_bytes(o)), (*self).7.wire_bytes(o));
                    assert((start@ + ((*self).0.wire_bytes(o) + (*self).1.wire_bytes(o) + (*self).2.wire_bytes(o) + (*self).3.wire_bytes(o) + (*self).4.wire_bytes(o) + (*self).5.wire_bytes(o) + (*self).6.wire_bytes(o))) + (*self).7.wire_bytes(o) =~= start@ + ((*self).0.wire_bytes(o) + (*self).1.wire_bytes(o) + (*self).2.wire_bytes(o) + (*self).3.wire_bytes(o) + (*self).4.wire_bytes(o) + (*self).5.wire_bytes(o) + (*self).6.wire_bytes(o) + (*self).7.wire_bytes(o)));
                    lemma_prefix_chain(dst@, start@ + ((*self).0.wire_bytes(o) + (*self).1.wire_bytes(o) + (*self).2.wire_bytes(o) + (*self).3.wire_bytes(o) + (*self).4.wire_bytes(o) + (*self).5.wire_bytes(o) + (*self).6.wire_bytes(o)), start@ + ((*self).0.wire_bytes(o) + (*self).1.wire_bytes(o) + (*self).2.wire_bytes(o) + (*self).3.wire_bytes(o) + (*self).4.wire_bytes(o) + (*self).5.wire_bytes(o) + (*self).6.wire_bytes(o) + (*self).7.wire_bytes(o)));
                    lemma_prefix_of_append(start@ + ((*self).0.wire_bytes(o) + (*self).1.wire_bytes(o) + (*self).2.wire_bytes(o) + (*self).3.wire_bytes(o) + (*self).4.wire_bytes(o) + (*self).5.wire_bytes(o) + (*self).6.wire_bytes(o) + (*self).7.wire_bytes(o)), (*self).8.wire_bytes(o));
                    assert((start@ + ((*self).0.wire_bytes(o) + (*self).1.wire_bytes(o) + (*self).2.wire_bytes(o) + (*self).3.wire_bytes(o) + (*self).4.wire_bytes(o) + (*self).5.wire_bytes(o) + (*self).6.wire_bytes(o) + (*self).7.wire_bytes(o))) + (*self).8.wire_bytes(o) =~= start@ + ((*self).0.wire_bytes(o) + (*self).1.wire_bytes(o) + (*self).2.wire_bytes(o) + (*self).3.wire_bytes(o) + (*self).4.wire_bytes(o) + (*self).5.wire_bytes(o) + (*self).6.wire_bytes(o) + (*self).7.wire_bytes(o) + (*self).8.wire_bytes(o)));
                    lemma_prefix_chain(dst@, start@ + ((*self).0.wire_bytes(o) + (*self).1.wire_bytes(o) + (*self).2.wire_bytes(o) + (*self).3.wire_bytes(o) + (*self).4.wire_bytes(o) + (*self).5.wire_bytes(o) + (*self).6.wire_bytes(o) + (*self).7.wire_bytes(o)), start@ + ((*self).0.wire_bytes(o) + (*self).1.wire_bytes(o) + (*self).2.wire_bytes(o) + (*self).3.wire_bytes(o) + (*self).4.wire_bytes(o) + (*self).5.wire_bytes(o) + (*self).6.wire_bytes(o) + (*self).7.wire_bytes(o) + (*self).8.wire_bytes(o)));
                    lemma_prefix_of_append(start@ + ((*self).0.wire_bytes(o) + (*self).1.wire_bytes(o) + (*self).2.wire_bytes(o) + (*self).3.wire_bytes(o) + (*self).4.wire_bytes(o) + (*self).5.wire_bytes(o) + (*self).6.wire_bytes(o) + (*self).7.wire_bytes(o) + (*self).8.wire_bytes(o)), (*self).9.wire_bytes(o));
                    assert((start@ + ((*self).0.wire_bytes(o) + (*self).1.wire_bytes(o) + (*self).2.wire_bytes(o) + (*self).3.wire_bytes(o) + (*self).4.wire_bytes(o) + (*self).5.wire_bytes(o) + (*self).6.wire_bytes(o) + (*self).7.wire_bytes(o) + (*self).8.wire_bytes(o))) + (*self).9.wire_bytes(o) =~= start@ + ((*self).0.wire_bytes(o) + (*self).1.wire_bytes(o) + (*self).2.wire_bytes(o) + (*self).3.wire_bytes(o) + (*self).4.wire_bytes(o) + (*self).5.wire_bytes(o) + (*self).6.wire_bytes(o) + (*self).7.wire_bytes(o) + (*self).8.wire_bytes(o) + (*self).9.wire_bytes(o)));
                    lemma_prefix_chain(dst@, start@ + ((*self).0.wire_bytes(o) + (*self).1.wire_bytes(o) + (*self).2.wire_bytes(o) + (*self).3.wire_bytes(o) + (*self).4.wire_bytes(o) + (*self).5.wire_bytes(o) + (*self).6.wire_bytes(o) + (*self).7.wire_bytes(o) + (*self).8.wire_bytes(o)), start@ + ((*self).0.wire_bytes(o) + (*self).1.wire_bytes(o) + (*self).2.wire_bytes(o) + (*self).3.wire_bytes(o) + (*self).4.wire_bytes(o) + (*self).5.wire_bytes(o) + (*self).6.wire_bytes(o) + (*self).7.wire_bytes(o) + (*self).8.wire_bytes(o) + (*self).9.wire_bytes(o)));
                    lemma_prefix_of_append(start@ + ((*self).0.wire_bytes(o) + (*self).1.wire_bytes(o) + (*self).2.wire_bytes(o) + (*self).3.wire_bytes(o) + (*self).4.wire_bytes(o) + (*self).5.wire_bytes(o) + (*self).6.wire_bytes(o) + (*self).7.wire_bytes(o) + (*self).8.wire_bytes(o) + (*self).9.wire_bytes(o)), (*self).10.wire_bytes(o));
                    assert((start@ + ((*self).0.wire_bytes(o) + (*self).1.wire_bytes(o) + (*self).2.wire_bytes(o) + (*self).3.wire_bytes(o) + (*self).4.wire_bytes(o) + (*self).5.wire_bytes(o) + (*self).6.wire_bytes(o) + (*self).7.wire_bytes(o) + (*self).8.wire_bytes(o) + (*self).9.wire_bytes(o))) + (*self).10.wire_bytes(o) =~= start@ + ((*self).0.wire_bytes(o) + (*self).1.wire_bytes(o) + (*self).2.wire_bytes(o) + (*self).3.wire_bytes(o) + (*self).4.wire_bytes(o) + (*self).5.wire_bytes(o) + (*self).6.wire_bytes(o) + (*self).7.wire_bytes(o) + (*self).8.wire_bytes(o) + (*self).9.wire_bytes(o) + (*self).10.wire_bytes(o)));
                    lemma_prefix_chain(dst@, start@ + ((*self).0.wire_bytes(o) + (*self).1.wire_bytes(o) + (*self).2.wire_bytes(o) + (*self).3.wire_bytes(o) + (*self).4.wire_bytes(o) + (*self).5.wire_bytes(o) + (*self).6.wire_bytes(o) + (*self).7.wire_bytes(o) + (*self).8.wire_bytes(o) + (*self).9.wire_bytes(o)), start@ + ((*self).0.wire_bytes(o) + (*self).1.wire_bytes(o) + (*self).2.wire_bytes(o) + (*self).3.wire_bytes(o) + (*self).4.wire_bytes(o) + (*self).5.wire_bytes(o) + (*self).6.wire_bytes(o) + (*self).7.wire_bytes(o) + (*self).8.wire_bytes(o) + (*self).9.wire_bytes(o) + (*self).10.wire_bytes(o)));
                    lemma_prefix_of_append(start@ + ((*self).0.wire_bytes(o) + (*self).1.wire_bytes(o) + (*self).2.wire_bytes(o) + (*self).3.wire_bytes(o) + (*self).4.wire_bytes(o) + (*self).5.wire_bytes(o) + (*self).6.wire_bytes(o) + (*self).7.wire_bytes(o) + (*self).8.wire_bytes(o) + (*self).9.wire_bytes(o) + (*self).10.wire_bytes(o)), (*self).11.wire_bytes(o));
                    assert((start@ + ((*self).0.wire_bytes(o) + (*self).1.wire_bytes(o) + (*self).2.wire_bytes(o) + (*self).3.wire_bytes(o) + (*self).4.wire_bytes(o) + (*self).5.wire_bytes(o) + (*self).6.wire_bytes(o) + (*self).7.wire_bytes(o) + (*self).8.wire_bytes(o) + (*self).9.wire_bytes(o) + (*self).10.wire_bytes(o))) + (*self).11.wire_bytes(o) =~= start@ + ((*self).0.wire_bytes(o) + (*self).1.wire_bytes(o) + (*self).2.wire_bytes(o) + (*self).3.wire_bytes(o) + (*self).4.wire_bytes(o) + (*self).5.wire_bytes(o) + (*self).6.wire_bytes(o) + (*self).7.wire_bytes(o) + (*self).8.wire_bytes(o) + (*self).9.wire_bytes(o) + (*self).10.wire_bytes(o) + (*self).11.wire_bytes(o)));
                    lemma_prefix_chain(dst@, start@ + ((*self).0.wire_bytes(o) + (*self).1.wire_bytes(o) + (*self).2.wire_bytes(o) + (*self).3.wire_bytes(o) + (*self).4.wire_bytes(o) + (*self).5.wire_bytes(o) + (*self).6.wire_bytes(o) + (*self).7.wire_bytes(o) + (*self).8.wire_bytes(o) + (*self).9.wire_bytes(o) + (*self).10.wire_bytes(o)), start@ + ((*self).0.wire_bytes(o) + (*self).1.wire_bytes(o) + (*self).2.wire_bytes(o) + (*self).3.wire_bytes(o) + (*self).4.wire_bytes(o) + (*self).5.wire_bytes(o) + (*self).6.wire_bytes(o) + (*self).7.wire_bytes(o) + (*self).8.wire_bytes(o) + (*self).9.wire_bytes(o) + (*self).10.wire_bytes(o) + (*self).11.wire_bytes(o)));
                }
                return Err(e);
            },
        }
        proof {
            assert(dst@ =~= start@ + ((*self).0.wire_bytes(o) + (*self).1.wire_bytes(o) + (*self).2.wire_bytes(o) + (*self).3.wire_bytes(o)));
        }
        let ghost d4 = *dst;
        match self.4.pack_to(o, dst) {
            Ok(_) => {},
            Err(e) => {
                proof {
                    lemma_prefix_of_append(start@, (*self).0.wire_bytes(o) + (*self).1.wire_bytes(o) + (*self).2.wire_bytes(o) + (*self).3.wire_bytes(o));
                    lemma_prefix_chain(start@, d4@, dst@);
                    assert(d4@ + (*self).4.wire_bytes(o) =~= start@ + ((*self).0.wire_bytes(o) + (*self).1.wire_bytes(o) + (*self).2.wire_bytes(o) + (*self).3.wire_bytes(o) + (*self).4.wire_bytes(o)));
                    lemma_prefix_of_append(start@ + ((*self).0.wire_bytes(o) + (*self).1.wire_bytes(o) + (*self).2.wire_bytes(o) + (*self).3.wire_bytes(o) + (*self).4.wire_bytes(o)), (*self).5.wire_bytes(o));
                    assert((start@ + ((*self).0.wire_bytes(o) + (*self).1.wire_bytes(o) + (*self).2.wire_bytes(o) + (*self).3.wire_bytes(o) + (*self).4.wire_bytes(o))) + (*self).5.wire_bytes(o) =~= start@ + ((*self).0.wire_bytes(o) + (*self).1.wire_bytes(o) + (*self).2.wire_bytes(o) + (*self).3.wire_bytes(o) + (*self).4.wire_bytes(o) + (*self).5.wire_bytes(o)));
                    lemma_prefix_chain(dst@, start@ + ((*self).0.wire_bytes(o) + (*self).1.wire_bytes(o) + (*self).2.wire_bytes(o) + (*self).3.wire_bytes(o) + (*self).4.wire_bytes(o)), start@ + ((*self).0.wire_bytes(o) + (*self).1.wire_bytes(o) + (*self).2.wire_bytes(o) + (*self).3.wire_bytes(o) + (*self).4.wire_bytes(o) + (*self).5.wire_bytes(o)));
                    lemma_prefix_of_append(start@ + ((*self).0.wire_bytes(o) + (*self).1.wire_bytes(o) + (*self).2.wire_bytes(o) + (*self).3.wire_bytes(o) + (*self).4.wire_bytes(o) + (*self).5.wire_bytes(o)), (*self).6.wire_bytes(o));
                    assert((start@ + ((*self).0.wire_bytes(o) + (*self).1.wire_bytes(o) + (*self).2.wire_bytes(o) + (*self).3.wire_bytes(o) + (*self).4.wire_bytes(o) + (*self).5.wire_bytes(o))) + (*self).6.wire_bytes(o) =~= start@ + ((*self).0.wire_bytes(o) + (*self).1.wire_bytes(o) + (*self).2.wire_bytes(o) + (*self).3.wire_bytes(o) + (*self).4.wire_bytes(o) + (*self).5.wire_bytes(o) + (*self).6.wire_bytes(o)));
                    lemma_prefix_chain(dst@, start@ + ((*self).0.wire_bytes(o) + (*self).1.wire_bytes(o) + (*self).2.wire_bytes(o) + (*self).3.wire_bytes(o) + (*self).4.wire_bytes(o) + (*self).5.wire_bytes(o)), start@ + ((*self).0.wire_bytes(o) + (*self).1.wire_bytes(o) + (*self).2.wire_bytes(o) + (*self).3.wire_bytes(o) + (*self).4.wire_bytes(o) + (*self).5.wire_bytes(o) + (*self).6.wire_bytes(o)));
                    lemma_prefix_of_append(start@ + ((*self).0.wire_bytes(o) + (*self).1.wire_bytes(o) + (*self).2.wire_bytes(o) + (*self).3.wire_bytes(o) + (*self).4.wire_bytes(o) + (*self).5.wire_bytes(o) + (*self).6.wire_bytes(o)), (*self).7.wire_bytes(o));
                    assert((start@ + ((*self).0.wire_bytes(o) + (*self).1.wire_bytes(o) + (*self).2.wire_bytes(o) + (*self).3.wire_bytes(o) + (*self).4.wire_bytes(o) + (*self).5.wire_bytes(o) + (*self).6.wire_bytes(o))) + (*self).7.wire_bytes(o) =~= start@ + ((*self).0.wire_bytes(o) + (*self).1.wire_bytes(o) + (*self).2.wire_bytes(o) + (*self).3.wire_bytes(o) + (*self).4.wire_bytes(o) + (*self).5.wire_bytes(o) + (*self).6.wire_bytes(o) + (*self).7.wire_bytes(o)));
                    lemma_prefix_chain(dst@, start@ + ((*self).0.wire_bytes(o) + (*self).1.wire_bytes(o) + (*self).2.wire_bytes(o) + (*self).3.wire_bytes(o) + (*self).4.wire_bytes(o) + (*self).5.wire_bytes(o) + (*self).6.wire_bytes(o)), start@ + ((*self).0.wire_bytes(o) + (*self).1.wire_bytes(o) + (*self).2.wire_bytes(o) + (*self).3.wire_bytes(o) + (*self).4.wire_bytes(o) + (*self).5.wire_bytes(o) + (*self).6.wire_bytes(o) + (*self).7.wire_bytes(o)));
                    lemma_prefix_of_append(start@ + ((*self).0.wire_bytes(o) + (*self).1.wire_bytes(o) + (*self).2.wire_bytes(o) + (*self).3.wire_bytes(o) + (*self).4.wire_bytes(o) + (*self).5.wire_bytes(o) + (*self).6.wire_bytes(o) + (*self).7.wire_bytes(o)), (*self).8.wire_bytes(o));
                    assert((start@ + ((*self).0.wire_bytes(o) + (*self).1.wire_bytes(o) + (*self).2.wire_bytes(o) + (*self).3.wire_bytes(o) + (*self).4.wire_bytes(o) + (*self).5.wire_bytes(o) + (*self).6.wire_bytes(o) + (*self).7.wire_bytes(o))) + (*self).8.wire_bytes(o) =~= start@ + ((*self).0.wire_bytes(o) + (*self).1.wire_bytes(o) + (*self).2.wire_bytes(o) + (*self).3.wire_bytes(o) + (*self).4.wire_bytes(o) + (*self).5.wire_bytes(o) + (*self).6.wire_bytes(o) + (*self).7.wire_bytes(o) + (*self).8.wire_bytes(o)));
                    lemma_prefix_chain(dst@, start@ + ((*self).0.wire_bytes(o) + (*self).1.wire_bytes(o) + (*self).2.wire_bytes(o) + (*self).3.wire_bytes(o) + (*self).4.wire_bytes(o) + (*self).5.wire_bytes(o) + (*self).6.wire_bytes(o) + (*self).7.wire_bytes(o)), start@ + ((*self).0.wire_bytes(o) + (*self).1.wire_bytes(o) + (*self).2.wire_bytes(o) + (*self).3.wire_bytes(o) + (*self).4.wire_bytes(o) + (*self).5.wire_bytes(o) + (*self).6.wire_bytes(o) + (*self).7.wire_bytes(o) + (*self).8.wire_bytes(o)));
                    lemma_prefix_of_append(start@ + ((*self).0.wire_bytes(o) + (*self).1.wire_bytes(o) + (*self).2.wire_bytes(o) + (*self).3.wire_bytes(o) + (*self).4.wire_bytes(o) + (*self).5.wire_bytes(o) + (*self).6.wire_bytes(o) + (*self).7.wire_bytes(o) + (*self).8.wire_bytes(o)), (*self).9.wire_bytes(o));
                    assert((start@ + ((*self).0.wire_bytes(o) + (*self).1.wire_bytes(o) + (*self).2.wire_bytes(o) + (*self).3.wire_bytes(o) + (*self).4.wire_bytes(o) + (*self).5.wire_bytes(o) + (*self).6.wire_bytes(o) + (*self).7.wire_bytes(o) + (*self).8.wire_bytes(o))) + (*self).9.wire_bytes(o) =~= start@ + ((*self).0.wire_bytes(o) + (*self).1.wire_bytes(o) + (*self).2.wire_bytes(o) + (*self).3.wire_bytes(o) + (*self).4.wire_bytes(o) + (*self).5.wire_bytes(o) + (*self).6.wire_bytes(o) + (*self).7.wire_bytes(o) + (*self).8.wire_bytes(o) + (*self).9.wire_bytes(o)));
                    lemma_prefix_chain(dst@, start@ + ((*self).0.wire_bytes(o) + (*self).1.wire_bytes(o) + (*self).2.wire_bytes(o) + (*self).3.wire_bytes(o) + (*self).4.wire_bytes(o) + (*self).5.wire_bytes(o) + (*self).6.wire_bytes(o) + (*self).7.wire_bytes(o) + (*self).8.wire_bytes(o)), start@ + ((*self).0.wire_bytes(o) + (*self).1.wire_bytes(o) + (*self).2.wire_bytes(o) + (*self).3.wire_bytes(o) + (*self).4.wire_bytes(o) + (*self).5.wire_bytes(o) + (*self).6.wire_bytes(o) + (*self).7.wire_bytes(o) + (*self).8.wire_bytes(o) + (*self).9.wire_bytes(o)));
                    lemma_prefix_of_append(start@ + ((*self).0.wire_bytes(o) + (*self).1.wire_bytes(o) + (*self).2.wire_bytes(o) + (*self).3.wire_bytes(o) + (*self).4.wire_bytes(o) + (*self).5.wire_bytes(o) + (*self).6.wire_bytes(o) + (*self).7.wire_bytes(o) + (*self).8.wire_bytes(o) + (*self).9.wire_bytes(o)), (*self).10.wire_bytes(o));
                    assert((start@ + ((*self).0.wire_bytes(o) + (*self).1.wire_bytes(o) + (*self).2.wire_bytes(o) + (*self).3.wire_bytes(o) + (*self).4.wire_bytes(o) + (*self).5.wire_bytes(o) + (*self).6.wire_bytes(o) + (*self).7.wire_bytes(o) + (*self).8.wire_bytes(o) + (*self).9.wire_bytes(o))) + (*self).10.wire_bytes(o) =~= start@ + ((*self).0.wire_bytes(o) + (*self).1.wire_bytes(o) + (*self).2.wire_bytes(o) + (*self).3.wire_bytes(o) + (*self).4.wire_bytes(o) + (*self).5.wire_bytes(o) + (*self).6.wire_bytes(o) + (*self).7.wire_bytes(o) + (*self).8.wire_bytes(o) + (*self).9.wire_bytes(o) + (*self).10.wire_bytes(o)));
                    lemma_prefix_chain(dst@, start@ + ((*self).0.wire_bytes(o) + (*self).1.wire_bytes(o) + (*self).2.wire_bytes(o) + (*self).3.wire_bytes(o) + (*self).4.wire_bytes(o) + (*self).5.wire_bytes(o) + (*self).6.wire_bytes(o) + (*self).7.wire_bytes(o) + (*self).8.wire_bytes(o) + (*self).9.wire_bytes(o)), start@ + ((*self).0.wire_bytes(o) + (*self).1.wire_bytes(o) + (*self).2.wire_bytes(o) + (*self).3.wire_bytes(o) + (*self).4.wire_bytes(o) + (*self).5.wire_bytes(o) + (*self).6.wire_bytes(o) + (*self).7.wire_bytes(o) + (*self).8.wire_bytes(o) + (*self).9.wire_bytes(o) + (*self).10.wire_bytes(o)));
                    lemma_prefix_of_append(start@ + ((*self).0.wire_bytes(o) + (*self).1.wire_bytes(o) + (*self).2.wire_bytes(o) + (*self).3.wire_bytes(o) + (*self).4.wire_bytes(o) + (*self).5.wire_bytes(o) + (*self).6.wire_bytes(o) + (*self).7.wire_bytes(o) + (*self).8.wire_bytes(o) + (*self).9.wire_bytes(o) + (*self).10.wire_bytes(o)), (*self).11.wire_bytes(o));
                    assert((start@ + ((*self).0.wire_bytes(o) + (*self).1.wire_bytes(o) + (*self).2.wire_bytes(o) + (*self).3.wire_bytes(o) + (*self).4.wire_bytes(o) + (*self).5.wire_bytes(o) + (*self).6.wire_bytes(o) + (*self).7.wire_bytes(o) + (*self).8.wire_bytes(o) + (*self).9.wire_bytes(o) + (*self).10.wire_bytes(o))) + (*self).11.wire_bytes(o) =~= start@ + ((*self).0.wire_bytes(o) + (*self).1.wire_bytes(o) + (*self).2.wire_bytes(o) + (*self).3.wire_bytes(o) + (*self).4.wire_bytes(o) + (*self).5.wire_bytes(o) + (*self).6.wire_bytes(o) + (*self).7.wire_bytes(o) + (*self).8.wire_bytes(o) + (*self).9.wire_bytes(o) + (*self).10.wire_bytes(o) + (*self).11.wire_bytes(o)));
                    lemma_prefix_chain(dst@, start@ + ((*self).0.wire_bytes(o) + (*self).1.wire_bytes(o) + (*self).2.wire_bytes(o) + (*self).3.wire_bytes(o) + (*self).4.wire_bytes(o) + (*self).5.wire_bytes(o) + (*self).6.wire_bytes(o) + (*self).7.wire_bytes(o) + (*self).8.wire_bytes(o) + (*self).9.wire_bytes(o) + (*self).10.wire_bytes(o)), start@ + ((*self).0.wire_bytes(o) + (*self).1.wire_bytes(o) + (*self).2.wire_bytes(o) + (*self).3.wire_bytes(o) + (*self).4.wire_bytes(o) + (*self).5.wire_bytes(o) + (*self).6.wire_bytes(o) + (*self).7.wire_bytes(o) + (*self).8.wire_bytes(o) + (*self).9.wire_bytes(o) + (*self).10.wire_bytes(o) + (*self).11.wire_bytes(o)));
                }
                return Err(e);
            },
        }
        proof {
            assert(dst@ =~= start@ + ((*self).0.wire_bytes(o) + (*self).1.wire_bytes(o) + (*self).2.wire_bytes(o) + (*self).3.wire_bytes(o) + (*self).4.wire_bytes(o)));
        }
        let ghost d5 = *dst;
        match self.5.pack_to(o, dst) {
            Ok(_) => {},
            Err(e) => {
                proof {
                    lemma_prefix_of_append(start@, (*self).0.wire_bytes(o) + (*self).1.wire_bytes(o) + (*self).2.wire_bytes(o) + (*self).3.wire_bytes(o) + (*self).4.wire_bytes(o));
                    lemma_prefix_chain(start@, d5@, dst@);
                    assert(d5@ + (*self).5.wire_bytes(o) =~= start@ + ((*self).0.wire_bytes(o) + (*self).1.wire_bytes(o) + (*self).2.wire_bytes(o) + (*self).3.wire_bytes(o) + (*self).4.wire_bytes(o) + (*self).5.wire_bytes(o)));
                    lemma_prefix_of_append(start@ + ((*self).0.wire_bytes(o) + (*self).1.wire_bytes(o) + (*self).2.wire_bytes(o) + (*self).3.wire_bytes(o) + (*self).4.wire_bytes(o) + (*self).5.wire_bytes(o)), (*self).6.wire_bytes(o));
                    assert((start@ + ((*self).0.wire_bytes(o) + (*self).1.wire_bytes(o) + (*self).2.wire_bytes(o) + (*self).3.wire_bytes(o) + (*self).4.wire_bytes(o) + (*self).5.wire_bytes(o))) + (*self).6.wire_bytes(o) =~= start@ + ((*self).0.wire_bytes(o) + (*self).1.wire_bytes(o) + (*self).2.wire_bytes(o) + (*self).3.wire_bytes(o) + (*self).4.wire_bytes(o) + (*self).5.wire_bytes(o) + (*self).6.wire_bytes(o)));
                    lemma_prefix_chain(dst@, start@ + ((*self).0.wire_bytes(o) + (*self).1.wire_bytes(o) + (*self).2.wire_bytes(o) + (*self).3.wire_bytes(o) + (*self).4.wire_bytes(o) + (*self).5.wire_bytes(o)), start@ + ((*self).0.wire_bytes(o) + (*self).1.wire_bytes(o) + (*self).2.wire_bytes(o) + (*self).3.wire_bytes(o) + (*self).4.wire_bytes(o) + (*self).5.wire_bytes(o) + (*self).6.wire_bytes(o)));
                    lemma_prefix_of_append(start@ + ((*self).0.wire_bytes(o) + (*self).1.wire_bytes(o) + (*self).2.wire_bytes(o) + (*self).3.wire_bytes(o) + (*self).4.wire_bytes(o) + (*self).5.wire_bytes(o) + (*self).6.wire_bytes(o)), (*self).7.wire_bytes(o));
                    assert((start@ + ((*self).0.wire_bytes(o) + (*self).1.wire_bytes(o) + (*self).2.wire_bytes(o) + (*self).3.wire_bytes(o) + (*self).4.wire_bytes(o) + (*self).5.wire_bytes(o) + (*self).6.wire_bytes(o))) + (*self).7.wire_bytes(o) =~= start@ + ((*self).0.wire_bytes(o) + (*self).1.wire_bytes(o) + (*self).2.wire_bytes(o) + (*self).3.wire_bytes(o) + (*self).4.wire_bytes(o) + (*self).5.wire_bytes(o) + (*self).6.wire_bytes(o) + (*self).7.wire_bytes(o)));
                    lemma_prefix_chain(dst@, start@ + ((*self).0.wire_bytes(o) + (*self).1.wire_bytes(o) + (*self).2.wire_bytes(o) + (*self).3.wire_bytes(o) + (*self).4.wire_bytes(o) + (*self).5.wire_bytes(o) + (*self).6.wire_bytes(o)), start@ + ((*self).0.wire_bytes(o) + (*self).1.wire_bytes(o) + (*self).2.wire_bytes(o) + (*self).3.wire_bytes(o) + (*self).4.wire_bytes(o) + (*self).5.wire_bytes(o) + (*self).6.wire_bytes(o) + (*self).7.wire_bytes(o)));
                    lemma_prefix_of_append(start@ + ((*self).0.wire_bytes(o) + (*self).1.wire_bytes(o) + (*self).2.wire_bytes(o) + (*self).3.wire_bytes(o) + (*self).4.wire_bytes(o) + (*self).5.wire_bytes(o) + (*self).6.wire_bytes(o) + (*self).7.wire_bytes(o)), (*self).8.wire_bytes(o));
                    assert((start@ + ((*self).0.wire_bytes(o) + (*self).1.wire_bytes(o) + (*self).2.wire_bytes(o) + (*self).3.wire_bytes(o) + (*self).4.wire_bytes(o) + (*self).5.wire_bytes(o) + (*self).6.wire_bytes(o) + (*self).7.wire_bytes(o))) + (*self).8.wire_bytes(o) =~= start@ + ((*self).0.wire_bytes(o) + (*self).1.wire_bytes(o) + (*self).2.wire_bytes(o) + (*self).3.wire_bytes(o) + (*self).4.wire_bytes(o) + (*self).5.wire_bytes(o) + (*self).6.wire_bytes(o) + (*self).7.wire_bytes(o) + (*self).8.wire_bytes(o)));
                    lemma_prefix_chain(dst@, start@ + ((*self).0.wire_bytes(o) + (*self).1.wire_bytes(o) + (*self).2.wire_bytes(o) + (*self).3.wire_bytes(o) + (*self).4.wire_bytes(o) + (*self).5.wire_bytes(o) + (*self).6.wire_bytes(o) + (*self).7.wire_bytes(o)), start@ + ((*self).0.wire_bytes(o) + (*self).1.wire_bytes(o) + (*self).2.wire_bytes(o) + (*self).3.wire_bytes(o) + (*self).4.wire_bytes(o) + (*self).5.wire_bytes(o) + (*self).6.wire_bytes(o) + (*self).7.wire_bytes(o) + (*self).8.wire_bytes(o)));
                    lemma_prefix_of_append(start@ + ((*self).0.wire_bytes(o) + (*self).1.wire_bytes(o) + (*self).2.wire_bytes(o) + (*self).3.wire_bytes(o) + (*self).4.wire_bytes(o) + (*self).5.wire_bytes(o) + (*self).6.wire_bytes(o) + (*self).7.wire_bytes(o) + (*self).8.wire_bytes(o)), (*self).9.wire_bytes(o));
                    assert((start@ + ((*self).0.wire_bytes(o) + (*self).1.wire_bytes(o) + (*self).2.wire_bytes(o) + (*self).3.wire_bytes(o) + (*self).4.wire_bytes(o) + (*self).5.wire_bytes(o) + (*self).6.wire_bytes(o) + (*self).7.wire_bytes(o) + (*self).8.wire_bytes(o))) + (*self).9.wire_bytes(o) =~= start@ + ((*self).0.wire_bytes(o) + (*self).1.wire_bytes(o) + (*self).2.wire_bytes(o) + (*self).3.wire_bytes(o) + (*self).4.wire_bytes(o) + (*self).5.wire_bytes(o) + (*self).6.wire_bytes(o) + (*self).7.wire_bytes(o) + (*self).8.wire_bytes(o) + (*self).9.wire_bytes(o)));
                    lemma_prefix_chain(dst@, start@ + ((*self).0.wire_bytes(o) + (*self).1.wire_bytes(o) + (*self).2.wire_bytes(o) + (*self).3.wire_bytes(o) + (*self).4.wire_bytes(o) + (*self).5.wire_bytes(o) + (*self).6.wire_bytes(o) + (*self).7.wire_bytes(o) + (*self).8.wire_bytes(o)), start@ + ((*self).0.wire_bytes(o) + (*self).1.wire_bytes(o) + (*self).2.wire_bytes(o) + (*self).3.wire_bytes(o) + (*self).4.wire_bytes(o) + (*self).5.wire_bytes(o) + (*self).6.wire_bytes(o) + (*self).7.wire_bytes(o) + (*self).8.wire_bytes(o) + (*self).9.wire_bytes(o)));
                    lemma_prefix_of_append(start@ + ((*self).0.wire_bytes(o) + (*self).1.wire_bytes(o) + (*self).2.wire_bytes(o) + (*self).3.wire_bytes(o) + (*self).4.wire_bytes(o) + (*self).5.wire_bytes(o) + (*self).6.wire_bytes(o) + (*self).7.wire_bytes(o) + (*self).8.wire_bytes(o) + (*self).9.wire_bytes(o)), (*self).10.wire_bytes(o));
                    assert((start@ + ((*self).0.wire_bytes(o) + (*self).1.wire_bytes(o) + (*self).2.wire_bytes(o) + (*self).3.wire_bytes(o) + (*self).4.wire_bytes(o) + (*self).5.wire_bytes(o) + (*self).6.wire_bytes(o) + (*self).7.wire_bytes(o) + (*self).8.wire_bytes(o) + (*self).9.wire_bytes(o))) + (*self).10.wire_bytes(o) =~= start@ + ((*self).0.wire_bytes(o) + (*self).1.wire_bytes(o) + (*self).2.wire_bytes(o) + (*self).3.wire_bytes(o) + (*self).4.wire_bytes(o) + (*self).5.wire_bytes(o) + (*self).6.wire_bytes(o) + (*self).7.wire_bytes(o) + (*self).8.wire_bytes(o) + (*self).9.wire_bytes(o) + (*self).10.wire_bytes(o)));
                    lemma_prefix_chain(dst@, start@ + ((*self).0.wire_bytes(o) + (*self).1.wire_bytes(o) + (*self).2.wire_bytes(o) + (*self).3.wire_bytes(o) + (*self).4.wire_bytes(o) + (*self).5.wire_bytes(o) + (*self).6.wire_bytes(o) + (*self).7.wire_bytes(o) + (*self).8.wire_bytes(o) + (*self).9.wire_bytes(o)), start@ + ((*self).0.wire_bytes(o) + (*self).1.wire_bytes(o) + (*self).2.wire_bytes(o) + (*self).3.wire_bytes(o) + (*self).4.wire_bytes(o) + (*self).5.wire_bytes(o) + (*self).6.wire_bytes(o) + (*self).7.wire_bytes(o) + (*self).8.wire_bytes(o) + (*self).9.wire_bytes(o) + (*self).10.wire_bytes(o)));
                    lemma_prefix_of_append(start@ + ((*self).0.wire_bytes(o) + (*self).1.wire_bytes(o) + (*self).2.wire_bytes(o) + (*self).3.wire_bytes(o) + (*self).4.wire_bytes(o) + (*self).5.wire_bytes(o) + (*self).6.wire_bytes(o) + (*self).7.wire_bytes(o) + (*self).8.wire_bytes(o) + (*self).9.wire_bytes(o) + (*self).10.wire_bytes(o)), (*self).11.wire_bytes(o));
                    assert((start@ + ((*self).0.wire_bytes(o) + (*self).1.wire_bytes(o) + (*self).2.wire_bytes(o) + (*self).3.wire_bytes(o) + (*self).4.wire_bytes(o) + (*self).5.wire_bytes(o) + (*self).6.wire_bytes(o) + (*self).7.wire_bytes(o) + (*self).8.wire_bytes(o) + (*self).9.wire_bytes(o) + (*self).10.wire_bytes(o))) + (*self).11.wire_bytes(o) =~= start@ + ((*self).0.wire_bytes(o) + (*self).1.wire_bytes(o) + (*self).2.wire_bytes(o) + (*self).3.wire_bytes(o) + (*self).4.wire_bytes(o) + (*self).5.wire_bytes(o) + (*self).6.wire_bytes(o) + (*self).7.wire_bytes(o) + (*self).8.wire_bytes(o) + (*self).9.wire_bytes(o) + (*self).10.wire_bytes(o) + (*self).11.wire_bytes(o)));
                    lemma_prefix_chain(dst@, start@ + ((*self).0.wire_bytes(o) + (*self).1.wire_bytes(o) + (*self).2.wire_bytes(o) + (*self).3.wire_bytes(o) + (*self).4.wire_bytes(o) + (*self).5.wire_bytes(o) + (*self).6.wire_bytes(o) + (*self).7.wire_bytes(o) + (*self).8.wire_bytes(o) + (*self).9.wire_bytes(o) + (*self).10.wire_bytes(o)), start@ + ((*self).0.wire_bytes(o) + (*self).1.wire_bytes(o) + (*self).2.wire_bytes(o) + (*self).3.wire_bytes(o) + (*self).4.wire_bytes(o) + (*self).5.wire_bytes(o) + (*self).6.wire_bytes(o) + (*self).7.wire_bytes(o) + (*self).8.wire_bytes(o) + (*self).9.wire_bytes(o) + (*self).10.wire_bytes(o) + (*self).11.wire_bytes(o)));
                }
                return Err(e);
            },
        }
        proof {
            assert(dst@ =~= start@ + ((*self).0.wire_bytes(o) + (*self).1.wire_bytes(o) + (*self).2.wire_bytes(o) + (*self).3.wire_bytes(o) + (*self).4.wire_bytes(o) + (*self).5.wire_bytes(o)));
        }
        let ghost d6 = *dst;
        match self.6.pack_to(o, dst) {
            Ok(_) => {},
            Err(e) => {
                proof {
                    lemma_prefix_of_append(start@, (*self).0.wire_bytes(o) + (*self).1.wire_bytes(o) + (*self).2.wire_bytes(o) + (*self).3.wire_bytes(o) + (*self).4.wire_bytes(o) + (*self).5.wire_bytes(o));
                    lemma_prefix_chain(start@, d6@, dst@);
                    assert(d6@ + (*self).6.wire_bytes(o) =~= start@ + ((*self).0.wire_bytes(o) + (*self).1.wire_bytes(o) + (*self).2.wire_bytes(o) + (*self).3.wire_bytes(o) + (*self).4.wire_bytes(o) + (*self).5.wire_bytes(o) + (*self).6.wire_bytes(o)));
                    lemma_prefix_of_append(start@ + ((*self).0.wire_bytes(o) + (*self).1.wire_bytes(o) + (*self).2.wire_bytes(o) + (*self).3.wire_bytes(o) + (*self).4.wire_bytes(o) + (*self).5.wire_bytes(o) + (*self).6.wire_bytes(o)), (*self).7.wire_bytes(o));
                    assert((start@ + ((*self).0.wire_bytes(o) + (*self).1.wire_bytes(o) + (*self).2.wire_bytes(o) + (*self).3.wire_bytes(o) + (*self).4.wire_bytes(o) + (*self).5.wire_bytes(o) + (*self).6.wire_bytes(o))) + (*self).7.wire_bytes(o) =~= start@ + ((*self).0.wire_bytes(o) + (*self).1.wire_bytes(o) + (*self).2.wire_bytes(o) + (*self).3.wire_bytes(o) + (*self).4.wire_bytes(o) + (*self).5.wire_bytes(o) + (*self).6.wire_bytes(o) + (*self).7.wire_bytes(o)));
                    lemma_prefix_chain(dst@, start@ + ((*self).0.wire_bytes(o) + (*self).1.wire_bytes(o) + (*self).2.wire_bytes(o) + (*self).3.wire_bytes(o) + (*self).4.wire_bytes(o) + (*self).5.wire_bytes(o) + (*self).6.wire_bytes(o)), start@ + ((*self).0.wire_bytes(o) + (*self).1.wire_bytes(o) + (*self).2.wire_bytes(o) + (*self).3.wire_bytes(o) + (*self).4.wire_bytes(o) + (*self).5.wire_bytes(o) + (*self).6.wire_bytes(o) + (*self).7.wire_bytes(o)));
                    lemma_prefix_of_append(start@ + ((*self).0.wire_bytes(o) + (*self).1.wire_bytes(o) + (*self).2.wire_bytes(o) + (*self).3.wire_bytes(o) + (*self).4.wire_bytes(o) + (*self).5.wire_bytes(o) + (*self).6.wire_bytes(o) + (*self).7.wire_bytes(o)), (*self).8.wire_bytes(o));
                    assert((start@ + ((*self).0.wire_bytes(o) + (*self).1.wire_bytes(o) + (*self).2.wire_bytes(o) + (*self).3.wire_bytes(o) + (*self).4.wire_bytes(o) + (*self).5.wire_bytes(o) + (*self).6.wire_bytes(o) + (*self).7.wire_bytes(o))) + (*self).8.wire_bytes(o) =~= start@ + ((*self).0.wire_bytes(o) + (*self).1.wire_bytes(o) + (*self).2.wire_bytes(o) + (*self).3.wire_bytes(o) + (*self).4.wire_bytes(o) + (*self).5.wire_bytes(o) + (*self).6.wire_bytes(o) + (*self).7.wire_bytes(o) + (*self).8.wire_bytes(o)));
                    lemma_prefix_chain(dst@, start@ + ((*self).0.wire_bytes(o) + (*self).1.wire_bytes(o) + (*self).2.wire_bytes(o) + (*self).3.wire_bytes(o) + (*self).4.wire_bytes(o) + (*self).5.wire_bytes(o) + (*self).6.wire_bytes(o) + (*self).7.wire_bytes(o)), start@ + ((*self).0.wire_bytes(o) + (*self).1.wire_bytes(o) + (*self).2.wire_bytes(o) + (*self).3.wire_bytes(o) + (*self).4.wire_bytes(o) + (*self).5.wire_bytes(o) + (*self).6.wire_bytes(o) + (*self).7.wire_bytes(o) + (*self).8.wire_bytes(o)));
                    lemma_prefix_of_append(start@ + ((*self).0.wire_bytes(o) + (*self).1.wire_bytes(o) + (*self).2.wire_bytes(o) + (*self).3.wire_bytes(o) + (*self).4.wire_bytes(o) + (*self).5.wire_bytes(o) + (*self).6.wire_bytes(o) + (*self).7.wire_bytes(o) + (*self).8.wire_bytes(o)), (*self).9.wire_bytes(o));
                    assert((start@ + ((*self).0.wire_bytes(o) + (*self).1.wire_bytes(o) + (*self).2.wire_bytes(o) + (*self).3.wire_bytes(o) + (*self).4.wire_bytes(o) + (*self).5.wire_bytes(o) + (*self).6.wire_bytes(o) + (*self).7.wire_bytes(o) + (*self).8.wire_bytes(o))) + (*self).9.wire_bytes(o) =~= start@ + ((*self).0.wire_bytes(o) + (*self).1.wire_bytes(o) + (*self).2.wire_bytes(o) + (*self).3.wire_bytes(o) + (*self).4.wire_bytes(o) + (*self).5.wire_bytes(o) + (*self).6.wire_bytes(o) + (*self).7.wire_bytes(o) + (*self).8.wire_bytes(o) + (*self).9.wire_bytes(o)));
                    lemma_prefix_chain(dst@, start@ + ((*self).0.wire_bytes(o) + (*self).1.wire_bytes(o) + (*self).2.wire_bytes(o) + (*self).3.wire_bytes(o) + (*self).4.wire_bytes(o) + (*self).5.wire_bytes(o) + (*self).6.wire_bytes(o) + (*self).7.wire_bytes(o) + (*self).8.wire_bytes(o)), start@ + ((*self).0.wire_bytes(o) + (*self).1.wire_bytes(o) + (*self).2.wire_bytes(o) + (*self).3.wire_bytes(o) + (*self).4.wire_bytes(o) + (*self).5.wire_bytes(o) + (*self).6.wire_bytes(o) + (*self).7.wire_bytes(o) + (*self).8.wire_bytes(o) + (*self).9.wire_bytes(o)));
                    lemma_prefix_of_append(start@ + ((*self).0.wire_bytes(o) + (*self).1.wire_bytes(o) + (*self).2.wire_bytes(o) + (*self).3.wire_bytes(o) + (*self).4.wire_bytes(o) + (*self).5.wire_bytes(o) + (*self).6.wire_bytes(o) + (*self).7.wire_bytes(o) + (*self).8.wire_bytes(o) + (*self).9.wire_bytes(o)), (*self).10.wire_bytes(o));
                    assert((start@ + ((*self).0.wire_bytes(o) + (*self).1.wire_bytes(o) + (*self).2.wire_bytes(o) + (*self).3.wire_bytes(o) + (*self).4.wire_bytes(o) + (*self).5.wire_bytes(o) + (*self).6.wire_bytes(o) + (*self).7.wire_bytes(o) + (*self).8.wire_bytes(o) + (*self).9.wire_bytes(o))) + (*self).10.wire_bytes(o) =~= start@ + ((*self).0.wire_bytes(o) + (*self).1.wire_bytes(o) + (*self).2.wire_bytes(o) + (*self).3.wire_bytes(o) + (*self).4.wire_bytes(o) + (*self).5.wire_bytes(o) + (*self).6.wire_bytes(o) + (*self).7.wire_bytes(o) + (*self).8.wire_bytes(o) + (*self).9.wire_bytes(o) + (*self).10.wire_bytes(o)));
                    lemma_prefix_chain(dst@, start@ + ((*self).0.wire_bytes(o) + (*self).1.wire_bytes(o) + (*self).2.wire_bytes(o) + (*self).3.wire_bytes(o) + (*self).4.wire_bytes(o) + (*self).5.wire_bytes(o) + (*self).6.wire_bytes(o) + (*self).7.wire_bytes(o) + (*self).8.wire_bytes(o) + (*self).9.wire_bytes(o)), start@ + ((*self).0.wire_bytes(o) + (*self).1.wire_bytes(o) + (*self).2.wire_bytes(o) + (*self).3.wire_bytes(o) + (*self).4.wire_bytes(o) + (*self).5.wire_bytes(o) + (*self).6.wire_bytes(o) + (*self).7.wire_bytes(o) + (*self).8.wire_bytes(o) + (*self).9.wire_bytes(o) + (*self).10.wire_bytes(o)));
                    lemma_prefix_of_append(start@ + ((*self).0.wire_bytes(o) + (*self).1.wire_bytes(o) + (*self).2.wire_bytes(o) + (*self).3.wire_bytes(o) + (*self).4.wire_bytes(o) + (*self).5.wire_bytes(o) + (*self).6.wire_bytes(o) + (*self).7.wire_bytes(o) + (*self).8.wire_bytes(o) + (*self).9.wire_bytes(o) + (*self).10.wire_bytes(o)), (*self).11.wire_bytes(o));
                    assert((start@ + ((*self).0.wire_bytes(o) + (*self).1.wire_bytes(o) + (*self).2.wire_bytes(o) + (*self).3.wire_bytes(o) + (*self).4.wire_bytes(o) + (*self).5.wire_bytes(o) + (*self).6.wire_bytes(o) + (*self).7.wire_bytes(o) + (*self).8.wire_bytes(o) + (*self).9.wire_bytes(o) + (*self).10.wire_bytes(o))) + (*self).11.wire_bytes(o) =~= start@ + ((*self).0.wire_bytes(o) + (*self).1.wire_bytes(o) + (*self).2.wire_bytes(o) + (*self).3.wire_bytes(o) + (*self).4.wire_bytes(o) + (*self).5.wire_bytes(o) + (*self).6.wire_bytes(o) + (*self).7.wire_bytes(o) + (*self).8.wire_bytes(o) + (*self).9.wire_bytes(o) + (*self).10.wire_bytes(o) + (*self).11.wire_bytes(o)));
                    lemma_prefix_chain(dst@, start@ + ((*self).0.wire_bytes(o) + (*self).1.wire_bytes(o) + (*self).2.wire_bytes(o) + (*self).3.wire_bytes(o) + (*self).4.wire_bytes(o) + (*self).5.wire_bytes(o) + (*self).6.wire_bytes(o) + (*self).7.wire_bytes(o) + (*self).8.wire_bytes(o) + (*self).9.wire_bytes(o) + (*self).10.wire_bytes(o)), start@ + ((*self).0.wire_bytes(o) + (*self).1.wire_bytes(o) + (*self).2.wire_bytes(o) + (*self).3.wire_bytes(o) + (*self).4.wire_bytes(o) + (*self).5.wire_bytes(o) + (*self).6.wire_bytes(o) + (*self).7.wire_bytes(o) + (*self).8.wire_bytes(o) + (*self).9.wire_bytes(o) + (*self).10.wire_bytes(o) + (*self).11.wire_bytes(o)));
                }
                return Err(e);
            },
        }
        proof {
            assert(dst@ =~= start@ + ((*self).0.wire_bytes(o) + (*self).1.wire_bytes(o) + (*self).2.wire_bytes(o) + (*self).3.wire_bytes(o) + (*self).4.wire_bytes(o) + (*self).5.wire_bytes(o) + (*self).6.wire_bytes(o)));
        }
        let ghost d7 = *dst;
        match self.7.pack_to(o, dst) {
            Ok(_) => {},
            Err(e) => {
                proof {
                    lemma_prefix_of_append(start@, (*self).0.wire_bytes(o) + (*self).1.wire_bytes(o) + (*self).2.wire_bytes(o) + (*self).3.wire_bytes(o) + (*self).4.wire_bytes(o) + (*self).5.wire_bytes(o) + (*self).6.wire_bytes(o));
                    lemma_prefix_chain(start@, d7@, dst@);
                    assert(d7@ + (*self).7.wire_bytes(o) =~= start@ + ((*self).0.wire_bytes(o) + (*self).1.wire_bytes(o) + (*self).2.wire_bytes(o) + (*self).3.wire_bytes(o) + (*self).4.wire_bytes(o) + (*self).5.wire_bytes(o) + (*self).6.wire_bytes(o) + (*self).7.wire_bytes(o)));
                    lemma_prefix_of_append(start@ + ((*self).0.wire_bytes(o) + (*self).1.wire_bytes(o) + (*self).2.wire_bytes(o) + (*self).3.wire_bytes(o) + (*self).4.wire_bytes(o) + (*self).5.wire_bytes(o) + (*self).6.wire_bytes(o) + (*self).7.wire_bytes(o)), (*self).8.wire_bytes(o));
                    assert((start@ + ((*self).0.wire_bytes(o) + (*self).1.wire_bytes(o) + (*self).2.wire_bytes(o) + (*self).3.wire_bytes(o) + (*self).4.wire_bytes(o) + (*self).5.wire_bytes(o) + (*self).6.wire_bytes(o) + (*self).7.wire_bytes(o))) + (*self).8.wire_bytes(o) =~= start@ + ((*self).0.wire_bytes(o) + (*self).1.wire_bytes(o) + (*self).2.wire_bytes(o) + (*self).3.wire_bytes(o) + (*self).4.wire_bytes(o) + (*self).5.wire_bytes(o) + (*self).6.wire_bytes(o) + (*self).7.wire_bytes(o) + (*self).8.wire_bytes(o)));
                    lemma_prefix_chain(dst@, start@ + ((*self).0.wire_bytes(o) + (*self).1.wire_bytes(o) + (*self).2.wire_bytes(o) + (*self).3.wire_bytes(o) + (*self).4.wire_bytes(o) + (*self).5.wire_bytes(o) + (*self).6.wire_bytes(o) + (*self).7.wire_bytes(o)), start@ + ((*self).0.wire_bytes(o) + (*self).1.wire_bytes(o) + (*self).2.wire_bytes(o) + (*self).3.wire_bytes(o) + (*self).4.wire_bytes(o) + (*self).5.wire_bytes(o) + (*self).6.wire_bytes(o) + (*self).7.wire_bytes(o) + (*self).8.wire_bytes(o)));
                    lemma_prefix_of_append(start@ + ((*self).0.wire_bytes(o) + (*self).1.wire_bytes(o) + (*self).2.wire_bytes(o) + (*self).3.wire_bytes(o) + (*self).4.wire_bytes(o) + (*self).5.wire_bytes(o) + (*self).6.wire_bytes(o) + (*self).7.wire_bytes(o) + (*self).8.wire_bytes(o)), (*self).9.wire_bytes(o));
                    assert((start@ + ((*self).0.wire_bytes(o) + (*self).1.wire_bytes(o) + (*self).2.wire_bytes(o) + (*self).3.wire_bytes(o) + (*self).4.wire_bytes(o) + (*self).5.wire_bytes(o) + (*self).6.wire_bytes(o) + (*self).7.wire_bytes(o) + (*self).8.wire_bytes(o))) + (*self).9.wire_bytes(o) =~= start@ + ((*self).0.wire_bytes(o) + (*self).1.wire_bytes(o) + (*self).2.wire_bytes(o) + (*self).3.wire_bytes(o) + (*self).4.wire_bytes(o) + (*self).5.wire_bytes(o) + (*self).6.wire_bytes(o) + (*self).7.wire_bytes(o) + (*self).8.wire_bytes(o) + (*self).9.wire_bytes(o)));
                    lemma_prefix_chain(dst@, start@ + ((*self).0.wire_bytes(o) + (*self).1.wire_bytes(o) + (*self).2.wire_bytes(o) + (*self).3.wire_bytes(o) + (*self).4.wire_bytes(o) + (*self).5.wire_bytes(o) + (*self).6.wire_bytes(o) + (*self).7.wire_bytes(o) + (*self).8.wire_bytes(o)), start@ + ((*self).0.wire_bytes(o) + (*self).1.wire_bytes(o) + (*self).2.wire_bytes(o) + (*self).3.wire_bytes(o) + (*self).4.wire_bytes(o) + (*self).5.wire_bytes(o) + (*self).6.wire_bytes(o) + (*self).7.wire_bytes(o) + (*self).8.wire_bytes(o) + (*self).9.wire_bytes(o)));
                    lemma_prefix_of_append(start@ + ((*self).0.wire_bytes(o) + (*self).1.wire_bytes(o) + (*self).2.wire_bytes(o) + (*self).3.wire_bytes(o) + (*self).4.wire_bytes(o) + (*self).5.wire_bytes(o) + (*self).6.wire_bytes(o) + (*self).7.wire_bytes(o) + (*self).8.wire_bytes(o) + (*self).9.wire_bytes(o)), (*self).10.wire_bytes(o));
                    assert((start@ + ((*self).0.wire_bytes(o) + (*self).1.wire_bytes(o) + (*self).2.wire_bytes(o) + (*self).3.wire_bytes(o) + (*self).4.wire_bytes(o) + (*self).5.wire_bytes(o) + (*self).6.wire_bytes(o) + (*self).7.wire_bytes(o) + (*self).8.wire_bytes(o) + (*self).9.wire_bytes(o))) + (*self).10.wire_bytes(o) =~= start@ + ((*self).0.wire_bytes(o) + (*self).1.wire_bytes(o) + (*self).2.wire_bytes(o) + (*self).3.wire_bytes(o) + (*self).4.wire_bytes(o) + (*self).5.wire_bytes(o) + (*self).6.wire_bytes(o) + (*self).7.wire_bytes(o) + (*self).8.wire_bytes(o) + (*self).9.wire_bytes(o) + (*self).10.wire_bytes(o)));
                    lemma_prefix_chain(dst@, start@ + ((*self).0.wire_bytes(o) + (*self).1.wire_bytes(o) + (*self).2.wire_bytes(o) + (*self).3.wire_bytes(o) + (*self).4.wire_bytes(o) + (*self).5.wire_bytes(o) + (*self).6.wire_bytes(o) + (*self).7.wire_bytes(o) + (*self).8.wire_bytes(o) + (*self).9.wire_bytes(o)), start@ + ((*self).0.wire_bytes(o) + (*self).1.wire_bytes(o) + (*self).2.wire_bytes(o) + (*self).3.wire_bytes(o) + (*self).4.wire_bytes(o) + (*self).5.wire_bytes(o) + (*self).6.wire_bytes(o) + (*self).7.wire_bytes(o) + (*self).8.wire_bytes(o) + (*self).9.wire_bytes(o) + (*self).10.wire_bytes(o)));
                    lemma_prefix_of_append(start@ + ((*self).0.wire_bytes(o) + (*self).1.wire_bytes(o) + (*self).2.wire_bytes(o) + (*self).3.wire_bytes(o) + (*self).4.wire_bytes(o) + (*self).5.wire_bytes(o) + (*self).6.wire_bytes(o) + (*self).7.wire_bytes(o) + (*self).8.wire_bytes(o) + (*self).9.wire_bytes(o) + (*self).10.wire_bytes(o)), (*self).11.wire_bytes(o));
                    assert((start@ + ((*self).0.wire_bytes(o) + (*self).1.wire_bytes(o) + (*self).2.wire_bytes(o) + (*self).3.wire_bytes(o) + (*self).4.wire_bytes(o) + (*self).5.wire_bytes(o) + (*self).6.wire_bytes(o) + (*self).7.wire_bytes(o) + (*self).8.wire_bytes(o) + (*self).9.wire_bytes(o) + (*self).10.wire_bytes(o))) + (*self).11.wire_bytes(o) =~= start@ + ((*self).0.wire_bytes(o) + (*self).1.wire_bytes(o) + (*self).2.wire_bytes(o) + (*self).3.wire_bytes(o) + (*self).4.wire_bytes(o) + (*self).5.wire_bytes(o) + (*self).6.wire_bytes(o) + (*self).7.wire_bytes(o) + (*self).8.wire_bytes(o) + (*self).9.wire_bytes(o) + (*self).10.wire_bytes(o) + (*self).11.wire_bytes(o)));
                    lemma_prefix_chain(dst@, start@ + ((*self).0.wire_bytes(o) + (*self).1.wire_bytes(o) + (*self).2.wire_bytes(o) + (*self).3.wire_bytes(o) + (*self).4.wire_bytes(o) + (*self).5.wire_bytes(o) + (*self).6.wire_bytes(o) + (*self).7.wire_bytes(o) + (*self).8.wire_bytes(o) + (*self).9.wire_bytes(o) + (*self).10.wire_bytes(o)), start@ + ((*self).0.wire_bytes(o) + (*self).1.wire_bytes(o) + (*self).2.wire_bytes(o) + (*self).3.wire_bytes(o) + (*self).4.wire_bytes(o) + (*self).5.wire_bytes(o) + (*self).6.wire_bytes(o) + (*self).7.wire_bytes(o) + (*self).8.wire_bytes(o) + (*self).9.wire_bytes(o) + (*self).10.wire_bytes(o) + (*self).11.wire_bytes(o)));
                }
                return Err(e);
            },
        }
        proof {
            assert(dst@ =~= start@ + ((*self).0.wire_bytes(o) + (*self).1.wire_bytes(o) + (*self).2.wire_bytes(o) + (*self).3.wire_bytes(o) + (*self).4.wire_bytes(o) + (*self).5.wire_bytes(o) + (*self).6.wire_bytes(o) + (*self).7.wire_bytes(o)));
        }
        let ghost d8 = *dst;
        match self.8.pack_to(o, dst) {
            Ok(_) => {},
            Err(e) => {
                proof {
                    lemma_prefix_of_append(start@, (*self).0.wire_bytes(o) + (*self).1.wire_bytes(o) + (*self).2.wire_bytes(o) + (*self).3.wire_bytes(o) + (*self).4.wire_bytes(o) + (*self).5.wire_bytes(o) + (*self).6.wire_bytes(o) + (*self).7.wire_bytes(o));
                    lemma_prefix_chain(start@, d8@, dst@);
                    assert(d8@ + (*self).8.wire_bytes(o) =~= start@ + ((*self).0.wire_bytes(o) + (*self).1.wire_bytes(o) + (*self).2.wire_bytes(o) + (*self).3.wire_bytes(o) + (*self).4.wire_bytes(o) + (*self).5.wire_bytes(o) + (*self).6.wire_bytes(o) + (*self).7.wire_bytes(o) + (*self).8.wire_bytes(o)));
                    lemma_prefix_of_append(start@ + ((*self).0.wire_bytes(o) + (*self).1.wire_bytes(o) + (*self).2.wire_bytes(o) + (*self).3.wire_bytes(o) + (*self).4.wire_bytes(o) + (*self).5.wire_bytes(o) + (*self).6.wire_bytes(o) + (*self).7.wire_bytes(o) + (*self).8.wire_bytes(o)), (*self).9.wire_bytes(o));
                    assert((start@ + ((*self).0.wire_bytes(o) + (*self).1.wire_bytes(o) + (*self).2.wire_bytes(o) + (*self).3.wire_bytes(o) + (*self).4.wire_bytes(o) + (*self).5.wire_bytes(o) + (*self).6.wire_bytes(o) + (*self).7.wire_bytes(o) + (*self).8.wire_bytes(o))) + (*self).9.wire_bytes(o) =~= start@ + ((*self).0.wire_bytes(o) + (*self).1.wire_bytes(o) + (*self).2.wire_bytes(o) + (*self).3.wire_bytes(o) + (*self).4.wire_bytes(o) + (*self).5.wire_bytes(o) + (*self).6.wire_bytes(o) + (*self).7.wire_bytes(o) + (*self).8.wire_bytes(o) + (*self).9.wire_bytes(o)));
                    lemma_prefix_chain(dst@, start@ + ((*self).0.wire_bytes(o) + (*self).1.wire_bytes(o) + (*self).2.wire_bytes(o) + (*self).3.wire_bytes(o) + (*self).4.wire_bytes(o) + (*self).5.wire_bytes(o) + (*self).6.wire_bytes(o) + (*self).7.wire_bytes(o) + (*self).8.wire_bytes(o)), start@ + ((*self).0.wire_bytes(o) + (*self).1.wire_bytes(o) + (*self).2.wire_bytes(o) + (*self).3.wire_bytes(o) + (*self).4.wire_bytes(o) + (*self).5.wire_bytes(o) + (*self).6.wire_bytes(o) + (*self).7.wire_bytes(o) + (*self).8.wire_bytes(o) + (*self).9.wire_bytes(o)));
                    lemma_prefix_of_append(start@ + ((*self).0.wire_bytes(o) + (*self).1.wire_bytes(o) + (*self).2.wire_bytes(o) + (*self).3.wire_bytes(o) + (*self).4.wire_bytes(o) + (*self).5.wire_bytes(o) + (*self).6.wire_bytes(o) + (*self).7.wire_bytes(o) + (*self).8.wire_bytes(o) + (*self).9.wire_bytes(o)), (*self).10.wire_bytes(o));
                    assert((start@ + ((*self).0.wire_bytes(o) + (*self).1.wire_bytes(o) + (*self).2.wire_bytes(o) + (*self).3.wire_bytes(o) + (*self).4.wire_bytes(o) + (*self).5.wire_bytes(o) + (*self).6.wire_bytes(o) + (*self).7.wire_bytes(o) + (*self).8.wire_bytes(o) + (*self).9.wire_bytes(o))) + (*self).10.wire_bytes(o) =~= start@ + ((*self).0.wire_bytes(o) + (*self).1.wire_bytes(o) + (*self).2.wire_bytes(o) + (*self).3.wire_bytes(o) + (*self).4.wire_bytes(o) + (*self).5.wire_bytes(o) + (*self).6.wire_bytes(o) + (*self).7.wire_bytes(o) + (*self).8.wire_bytes(o) + (*self).9.wire_bytes(o) + (*self).10.wire_bytes(o)));
                    lemma_prefix_chain(dst@, start@ + ((*self).0.wire_bytes(o) + (*self).1.wire_bytes(o) + (*self).2.wire_bytes(o) + (*self).3.wire_bytes(o) + (*self).4.wire_bytes(o) + (*self).5.wire_bytes(o) + (*self).6.wire_bytes(o) + (*self).7.wire_bytes(o) + (*self).8.wire_bytes(o) + (*self).9.wire_bytes(o)), start@ + ((*self).0.wire_bytes(o) + (*self).1.wire_bytes(o) + (*self).2.wire_bytes(o) + (*self).3.wire_bytes(o) + (*self).4.wire_bytes(o) + (*self).5.wire_bytes(o) + (*self).6.wire_bytes(o) + (*self).7.wire_bytes(o) + (*self).8.wire_bytes(o) + (*self).9.wire_bytes(o) + (*self).10.wire_bytes(o)));
                    lemma_prefix_of_append(start@ + ((*self).0.wire_bytes(o) + (*self).1.wire_bytes(o) + (*self).2.wire_bytes(o) + (*self).3.wire_bytes(o) + (*self).4.wire_bytes(o) + (*self).5.wire_bytes(o) + (*self).6.wire_bytes(o) + (*self).7.wire_bytes(o) + (*self).8.wire_bytes(o) + (*self).9.wire_bytes(o) + (*self).10.wire_bytes(o)), (*self).11.wire_bytes(o));
                    assert((start@ + ((*self).0.wire_bytes(o) + (*self).1.wire_bytes(o) + (*self).2.wire_bytes(o) + (*self).3.wire_bytes(o) + (*self).4.wire_bytes(o) + (*self).5.wire_bytes(o) + (*self).6.wire_bytes(o) + (*self).7.wire_bytes(o) + (*self).8.wire_bytes(o) + (*self).9.wire_bytes(o) + (*self).10.wire_bytes(o))) + (*self).11.wire_bytes(o) =~= start@ + ((*self).0.wire_bytes(o) + (*self).1.wire_bytes(o) + (*self).2.wire_bytes(o) + (*self).3.wire_bytes(o) + (*self).4.wire_bytes(o) + (*self).5.wire_bytes(o) + (*self).6.wire_bytes(o) + (*self).7.wire_bytes(o) + (*self).8.wire_bytes(o) + (*self).9.wire_bytes(o) + (*self).10.wire_bytes(o) + (*self).11.wire_bytes(o)));
                    lemma_prefix_chain(dst@, start@ + ((*self).0.wire_bytes(o) + (*self).1.wire_bytes(o) + (*self).2.wire_bytes(o) + (*self).3.wire_bytes(o) + (*self).4.wire_bytes(o) + (*self).5.wire_bytes(o) + (*self).6.wire_bytes(o) + (*self).7.wire_bytes(o) + (*self).8.wire_bytes(o) + (*self).9.wire_bytes(o) + (*self).10.wire_bytes(o)), start@ + ((*self).0.wire_bytes(o) + (*self).1.wire_bytes(o) + (*self).2.wire_bytes(o) + (*self).3.wire_bytes(o) + (*self).4.wire_bytes(o) + (*self).5.wire_bytes(o) + (*self).6.wire_bytes(o) + (*self).7.wire_bytes(o) + (*self).8.wire_bytes(o) + (*self).9.wire_bytes(o) + (*self).10.wire_bytes(o) + (*self).11.wire_bytes(o)));
                }
                return Err(e);
            },
        }
        proof {
            assert(dst@ =~= start@ + ((*self).0.wire_bytes(o) + (*self).1.wire_bytes(o) + (*self).2.wire_bytes(o) + (*self).3.wire_bytes(o) + (*self).4.wire_bytes(o) + (*self).5.wire_bytes(o) + (*self).6.wire_bytes(o) + (*self).7.wire_bytes(o) + (*self).8.wire_bytes(o)));
        }
        let ghost d9 = *dst;
        match self.9.pack_to(o, dst) {
            Ok(_) => {},
            Err(e) => {
                proof {
                    lemma_prefix_of_append(start@, (*self).0.wire_bytes(o) + (*self).1.wire_bytes(o) + (*self).2.wire_bytes(o) + (*self).3.wire_bytes(o) + (*self).4.wire_bytes(o) + (*self).5.wire_bytes(o) + (*self).6.wire_bytes(o) + (*self).7.wire_bytes(o) + (*self).8.wire_bytes(o));
                    lemma_prefix_chain(start@, d9@, dst@);
                    assert(d9@ + (*self).9.wire_bytes(o) =~= start@ + ((*self).0.wire_bytes(o) + (*self).1.wire_bytes(o) + (*self).2.wire_bytes(o) + (*self).3.wire_bytes(o) + (*self).4.wire_bytes(o) + (*self).5.wire_bytes(o) + (*self).6.wire_bytes(o) + (*self).7.wire_bytes(o) + (*self).8.wire_bytes(o) + (*self).9.wire_bytes(o)));
                    lemma_prefix_of_append(start@ + ((*self).0.wire_bytes(o) + (*self).1.wire_bytes(o) + (*self).2.wire_bytes(o) + (*self).3.wire_bytes(o) + (*self).4.wire_bytes(o) + (*self).5.wire_bytes(o) + (*self).6.wire_bytes(o) + (*self).7.wire_bytes(o) + (*self).8.wire_bytes(o) + (*self).9.wire_bytes(o)), (*self).10.wire_bytes(o));
                    assert((start@ + ((*self).0.wire_bytes(o) + (*self).1.wire_bytes(o) + (*self).2.wire_bytes(o) + (*self).3.wire_bytes(o) + (*self).4.wire_bytes(o) + (*self).5.wire_bytes(o) + (*self).6.wire_bytes(o) + (*self).7.wire_bytes(o) + (*self).8.wire_bytes(o) + (*self).9.wire_bytes(o))) + (*self).10.wire_bytes(o) =~= start@ + ((*self).0.wire_bytes(o) + (*self).1.wire_bytes(o) + (*self).2.wire_bytes(o) + (*self).3.wire_bytes(o) + (*self).4.wire_bytes(o) + (*self).5.wire_bytes(o) + (*self).6.wire_bytes(o) + (*self).7.wire_bytes(o) + (*self).8.wire_bytes(o) + (*self).9.wire_bytes(o) + (*self).10.wire_bytes(o)));
                    lemma_prefix_chain(dst@, start@ + ((*self).0.wire_bytes(o) + (*self).1.wire_bytes(o) + (*self).2.wire_bytes(o) + (*self).3.wire_bytes(o) + (*self).4.wire_bytes(o) + (*self).5.wire_bytes(o) + (*self).6.wire_bytes(o) + (*self).7.wire_bytes(o) + (*self).8.wire_bytes(o) + (*self).9.wire_bytes(o)), start@ + ((*self).0.wire_bytes(o) + (*self).1.wire_bytes(o) + (*self).2.wire_bytes(o) + (*self).3.wire_bytes(o) + (*self).4.wire_bytes(o) + (*self).5.wire_bytes(o) + (*self).6.wire_bytes(o) + (*self).7.wire_bytes(o) + (*self).8.wire_bytes(o) + (*self).9.wire_bytes(o) + (*self).10.wire_bytes(o)));
                    lemma_prefix_of_append(start@ + ((*self).0.wire_bytes(o) + (*self).1.wire_bytes(o) + (*self).2.wire_bytes(o) + (*self).3.wire_bytes(o) + (*self).4.wire_bytes(o) + (*self).5.wire_bytes(o) + (*self).6.wire_bytes(o) + (*self).7.wire_bytes(o) + (*self).8.wire_bytes(o) + (*self).9.wire_bytes(o) + (*self).10.wire_bytes(o)), (*self).11.wire_bytes(o));
                    assert((start@ + ((*self).0.wire_bytes(o) + (*self).1.wire_bytes(o) + (*self).2.wire_bytes(o) + (*self).3.wire_bytes(o) + (*self).4.wire_bytes(o) + (*self).5.wire_bytes(o) + (*self).6.wire_bytes(o) + (*self).7.wire_bytes(o) + (*self).8.wire_bytes(o) + (*self).9.wire_bytes(o) + (*self).10.wire_bytes(o))) + (*self).11.wire_bytes(o) =~= start@ + ((*self).0.wire_bytes(o) + (*self).1.wire_bytes(o) + (*self).2.wire_bytes(o) + (*self).3.wire_bytes(o) + (*self).4.wire_bytes(o) + (*self).5.wire_bytes(o) + (*self).6.wire_bytes(o) + (*self).7.wire_bytes(o) + (*self).8.wire_bytes(o) + (*self).9.wire_bytes(o) + (*self).10.wire_bytes(o) + (*self).11.wire_bytes(o)));
                    lemma_prefix_chain(dst@, start@ + ((*self).0.wire_bytes(o) + (*self).1.wire_bytes(o) + (*self).2.wire_bytes(o) + (*self).3.wire_bytes(o) + (*self).4.wire_bytes(o) + (*self).5.wire_bytes(o) + (*self).6.wire_bytes(o) + (*self).7.wire_bytes(o) + (*self).8.wire_bytes(o) + (*self).9.wire_bytes(o) + (*self).10.wire_bytes(o)), start@ + ((*self).0.wire_bytes(o) + (*self).1.wire_bytes(o) + (*self).2.wire_bytes(o) + (*self).3.wire_bytes(o) + (*self).4.wire_bytes(o) + (*self).5.wire_bytes(o) + (*self).6.wire_bytes(o) + (*self).7.wire_bytes(o) + (*self).8.wire_bytes(o) + (*self).9.wire_bytes(o) + (*self).10.wire_bytes(o) + (*self).11.wire_bytes(o)));
                }
                return Err(e);
            },
        }
        proof {
            assert(dst@ =~= start@ + ((*self).0.wire_bytes(o) + (*self).1.wire_bytes(o) + (*self).2.wire_bytes(o) + (*self).3.wire_bytes(o) + (*self).4.wire_bytes(o) + (*self).5.wire_bytes(o) + (*self).6.wire_bytes(o) + (*self).7.wire_bytes(o) + (*self).8.wire_bytes(o) + (*self).9.wire_bytes(o)));
        }
        let ghost d10 = *dst;
        match self.10.pack_to(o, dst) {
            Ok(_) => {},
            Err(e) => {
                proof {
                    lemma_prefix_of_append(start@, (*self).0.wire_bytes(o) + (*self).1.wire_bytes(o) + (*self).2.wire_bytes(o) + (*self).3.wire_bytes(o) + (*self).4.wire_bytes(o) + (*self).5.wire_bytes(o) + (*self).6.wire_bytes(o) + (*self).7.wire_bytes(o) + (*self).8.wire_bytes(o) + (*self).9.wire_bytes(o));
                    lemma_prefix_chain(start@, d10@, dst@);
                    assert(d10@ + (*self).10.wire_bytes(o) =~= start@ + ((*self).0.wire_bytes(o) + (*self).1.wire_bytes(o) + (*self).2.wire_bytes(o) + (*self).3.wire_bytes(o) + (*self).4.wire_bytes(o) + (*self).5.wire_bytes(o) + (*self).6.wire_bytes(o) + (*self).7.wire_bytes(o) + (*self).8.wire_bytes(o) + (*self).9.wire_bytes(o) + (*self).10.wire_bytes(o)));
                    lemma_prefix_of_append(start@ + ((*self).0.wire_bytes(o) + (*self).1.wire_bytes(o) + (*self).2.wire_bytes(o) + (*self).3.wire_bytes(o) + (*self).4.wire_bytes(o) + (*self).5.wire_bytes(o) + (*self).6.wire_bytes(o) + (*self).7.wire_bytes(o) + (*self).8.wire_bytes(o) + (*self).9.wire_bytes(o) + (*self).10.wire_bytes(o)), (*self).11.wire_bytes(o));
                    assert((start@ + ((*self).0.wire_bytes(o) + (*self).1.wire_bytes(o) + (*self).2.wire_bytes(o) + (*self).3.wire_bytes(o) + (*self).4.wire_bytes(o) + (*self).5.wire_bytes(o) + (*self).6.wire_bytes(o) + (*self).7.wire_bytes(o) + (*self).8.wire_bytes(o) + (*self).9.wire_bytes(o) + (*self).10.wire_bytes(o))) + (*self).11.wire_bytes(o) =~= start@ + ((*self).0.wire_bytes(o) + (*self).1.wire_bytes(o) + (*self).2.wire_bytes(o) + (*self).3.wire_bytes(o) + (*self).4.wire_bytes(o) + (*self).5.wire_bytes(o) + (*self).6.wire_bytes(o) + (*self).7.wire_bytes(o) + (*self).8.wire_bytes(o) + (*self).9.wire_bytes(o) + (*self).10.wire_bytes(o) + (*self).11.wire_bytes(o)));
                    lemma_prefix_chain(dst@, start@ + ((*self).0.wire_bytes(o) + (*self).1.wire_bytes(o) + (*self).2.wire_bytes(o) + (*self).3.wire_bytes(o) + (*self).4.wire_bytes(o) + (*self).5.wire_bytes(o) + (*self).6.wire_bytes(o) + (*self).7.wire_bytes(o) + (*self).8.wire_bytes(o) + (*self).9.wire_bytes(o) + (*self).10.wire_bytes(o)), start@ + ((*self).0.wire_bytes(o) + (*self).1.wire_bytes(o) + (*self).2.wire_bytes(o) + (*self).3.wire_bytes(o) + (*self).4.wire_bytes(o) + (*self).5.wire_bytes(o) + (*self).6.wire_bytes(o) + (*self).7.wire_bytes(o) + (*self).8.wire_bytes(o) + (*self).9.wire_bytes(o) + (*self).10.wire_bytes(o) + (*self).11.wire_bytes(o)));
                }
                return Err(e);
            },
        }
        proof {
            assert(dst@ =~= start@ + ((*self).0.wire_bytes(o) + (*self).1.wire_bytes(o) + (*self).2.wire_bytes(o) + (*self).3.wire_bytes(o) + (*self).4.wire_bytes(o) + (*self).5.wire_bytes(o) + (*self).6.wire_bytes(o) + (*self).7.wire_bytes(o) + (*self).8.wire_bytes(o) + (*self).9.wire_bytes(o) + (*self).10.wire_bytes(o)));
        }
        let ghost d11 = *dst;
        match self.11.pack_to(o, dst) {
            Ok(_) => {},
            Err(e) => {
                proof {
                    lemma_prefix_of_append(start@, (*self).0.wire_bytes(o) + (*self).1.wire_bytes(o) + (*self).2.wire_bytes(o) + (*self).3.wire_bytes(o) + (*self).4.wire_bytes(o) + (*self).5.wire_bytes(o) + (*self).6.wire_bytes(o) + (*self).7.wire_bytes(o) + (*self).8.wire_bytes(o) + (*self).9.wire_bytes(o) + (*self).10.wire_bytes(o));
                    lemma_prefix_chain(start@, d11@, dst@);
                    assert(d11@ + (*self).11.wire_bytes(o) =~= start@ + ((*self).0.wire_bytes(o) + (*self).1.wire_bytes(o) + (*self).2.wire_bytes(o) + (*self).3.wire_bytes(o) + (*self).4.wire_bytes(o) + (*self).5.wire_bytes(o) + (*self).6.wire_bytes(o) + (*self).7.wire_bytes(o) + (*self).8.wire_bytes(o) + (*self).9.wire_bytes(o) + (*self).10.wire_bytes(o) + (*self).11.wire_bytes(o)));
                }
                return Err(e);
            },
        }
        proof {
            assert(dst@ =~= start@ + ((*self).0.wire_bytes(o) + (*self).1.wire_bytes(o) + (*self).2.wire_bytes(o) + (*self).3.wire_bytes(o) + (*self).4.wire_bytes(o) + (*self).5.wire_bytes(o) + (*self).6.wire_bytes(o) + (*self).7.wire_bytes(o) + (*self).8.wire_bytes(o) + (*self).9.wire_bytes(o) + (*self).10.wire_bytes(o) + (*self).11.wire_bytes(o)));
        }
        Ok(())
    }
}

impl<T1: UnpackFrom> UnpackFrom for (T1,) {
    open spec fn read_width() -> nat {
        T1::read_width()
    }

    open spec fn read_value(o: ByteOrder, b: Seq<u8>) -> Self {
        (
            T1::read_value(o, chunk(b, 0, T1::read_width())),
        )
    }

    open spec fn fill_value() -> Self {
        (T1::fill_value(),)
    }

    fn fill() -> (r: Self) {
        (T1::fill(),)
    }

    #[verifier::spinoff_prover]
    #[verifier::rlimit(100)]
    fn unpack_from(o: ByteOrder, src: &mut Source) -> (r: Result<Self, UnpackError>) {
        let ghost start = *src;
        let ghost w = Self::read_width();
        let ghost s0 = *src;
        proof {
            assert(s0.rest() =~= start.rest().skip(0));
        }
        let x0 = match T1::unpack_from(o, src) {
            Ok(v) => v,
            Err(e) => {
                return Err(e);
            },
        };
        proof {
            Source::lemma_rest_advance(s0, *src, T1::read_width());
            assert(src.rest() =~= start.rest().skip((T1::read_width()) as int));
            assert(x0 == T1::read_value(o, chunk(start.rest(), 0, T1::read_width())));
        }
        proof {
            lemma_chunk_of_take(start.rest(), w as int, 0, T1::read_width());
        }
        Ok((x0,))
    }
}

impl<T1: UnpackFrom, T2: UnpackFrom> UnpackFrom for (T1, T2) {
    open spec fn read_width() -> nat {
        T1::read_width() + T2::read_width()
    }

    open spec fn read_value(o: ByteOrder, b: Seq<u8>) -> Self {
        (
            T1::read_value(o, chunk(b, 0, T1::read_width())),
            T2::read_value(o, chunk(b, (T1::read_width()) as int, T2::read_width())),
        )
    }

    open spec fn fill_value() -> Self {
        (T1::fill_value(), T2::fill_value())
    }

    fn fill() -> (r: Self) {
        (T1::fill(), T2::fill())
    }

    #[verifier::spinoff_prover]
    #[verifier::rlimit(100)]
    fn unpack_from(o: ByteOrder, src: &mut Source) -> (r: Result<Self, UnpackError>) {
        let ghost start = *src;
        let ghost w = Self::read_width();
        let ghost s0 = *src;
        proof {
            assert(s0.rest() =~= start.rest().skip(0));
        }
        let x0 = match T1::unpack_from(o, src) {
            Ok(v) => v,
            Err(e) => {
                return Err(e);
            },
        };
        proof {
            Source::lemma_rest_advance(s0, *src, T1::read_width());
            assert(src.rest() =~= start.rest().skip((T1::read_width()) as int));
            assert(x0 == T1::read_value(o, chunk(start.rest(), 0, T1::read_width())));
        }
        let ghost s1 = *src;
        let x1 = match T2::unpack_from(o, src) {
            Ok(v) => v,
            Err(e) => {
                return Err(e);
            },
        };
        proof {
            Source::lemma_rest_advance(s1, *src, T2::read_width());
            assert(src.rest() =~= start.rest().skip((T1::read_width() + T2::read_width()) as int));
            assert(x1 == T2::read_value(o, chunk(start.rest(), (T1::read_width()) as int, T2::read_width())));
        }
        proof {
            lemma_chunk_of_take(start.rest(), w as int, 0, T1::read_width());
            lemma_chunk_of_take(start.rest(), w as int, (T1::read_width()) as int, T2::read_width());
        }
        Ok((x0, x1))
    }
}

impl<T1: UnpackFrom, T2: UnpackFrom, T3: UnpackFrom> UnpackFrom for (T1, T2, T3) {
    open spec fn read_width() -> nat {
        T1::read_width() + T2::read_width() + T3::read_width()
    }

    open spec fn read_value(o: ByteOrder, b: Seq<u8>) -> Self {
        (
            T1::read_value(o, chunk(b, 0, T1::read_width())),
            T2::read_value(o, chunk(b, (T1::read_width()) as int, T2::read_width())),
            T3::read_value(o, chunk(b, (T1::read_width() + T2::read_width()) as int, T3::read_width())),
        )
    }

    open spec fn fill_value() -> Self {
        (T1::fill_value(), T2::fill_value(), T3::fill_value())
    }

    fn fill() -> (r: Self) {
        (T1::fill(), T2::fill(), T3::fill())
    }

    #[verifier::spinoff_prover]
    #[verifier::rlimit(100)]
    fn unpack_from(o: ByteOrder, src: &mut Source) -> (r: Result<Self, UnpackError>) {
        let ghost start = *src;
        let ghost w = Self::read_width();
        let ghost s0 = *src;
        proof {
            assert(s0.rest() =~= start.rest().skip(0));
        }
        let x0 = match T1::unpack_from(o, src) {
            Ok(v) => v,
            Err(e) => {
                return Err(e);
            },
        };
        proof {
            Source::lemma_rest_advance(s0, *src, T1::read_width());
            assert(src.rest() =~= start.rest().skip((T1::read_width()) as int));
            assert(x0 == T1::read_value(o, chunk(start.rest(), 0, T1::read_width())));
        }
        let ghost s1 = *src;
        let x1 = match T2::unpack_from(o, src) {
            Ok(v) => v,
            Err(e) => {
                return Err(e);
            },
        };
        proof {
            Source::lemma_rest_advance(s1, *src, T2::read_width());
            assert(src.rest() =~= start.rest().skip((T1::read_width() + T2::read_width()) as int));
            assert(x1 == T2::read_value(o, chunk(start.rest(), (T1::read_width()) as int, T2::read_width())));
        }
        let ghost s2 = *src;
        let x2 = match T3::unpack_from(o, src) {
            Ok(v) => v,
            Err(e) => {
                return Err(e);
            },
        };
        proof {
            Source::lemma_rest_advance(s2, *src, T3::read_width());
            assert(src.rest() =~= start.rest().skip((T1::read_width() + T2::read_width() + T3::read_width()) as int));
            assert(x2 == T3::read_value(o, chunk(start.rest(), (T1::read_width() + T2::read_width()) as int, T3::read_width())));
        }
        proof {
            lemma_chunk_of_take(start.rest(), w as int, 0, T1::read_width());
            lemma_chunk_of_take(start.rest(), w as int, (T1::read_width()) as int, T2::read_width());
            lemma_chunk_of_take(start.rest(), w as int, (T1::read_width() + T2::read_width()) as int, T3::read_width());
        }
        Ok((x0, x1, x2))
    }
}

impl<T1: UnpackFrom, T2: UnpackFrom, T3: UnpackFrom, T4: UnpackFrom> UnpackFrom for (T1, T2, T3, T4) {
    open spec fn read_width() -> nat {
        T1::read_width() + T2::read_width() + T3::read_width() + T4::read_width()
    }

    open spec fn read_value(o: ByteOrder, b: Seq<u8>) -> Self {
        (
            T1::read_value(o, chunk(b, 0, T1::read_width())),
            T2::read_value(o, chunk(b, (T1::read_width()) as int, T2::read_width())),
            T3::read_value(o, chunk(b, (T1::read_width() + T2::read_width()) as int, T3::read_width())),
            T4::read_value(o, chunk(b, (T1::read_width() + T2::read_width() + T3::read_width()) as int, T4::read_width())),
        )
    }

    open spec fn fill_value() -> Self {
        (T1::fill_value(), T2::fill_value(), T3::fill_value(), T4::fill_value())
    }

    fn fill() -> (r: Self) {
        (T1::fill(), T2::fill(), T3::fill(), T4::fill())
    }

    #[verifier::spinoff_prover]
    #[verifier::rlimit(100)]
    fn unpack_from(o: ByteOrder, src: &mut Source) -> (r: Result<Self, UnpackError>) {
        let ghost start = *src;
        let ghost w = Self::read_width();
        let ghost s0 = *src;
        proof {
            assert(s0.rest() =~= start.rest().skip(0));
        }
        let x0 = match T1::unpack_from(o, src) {
            Ok(v) => v,
            Err(e) => {
                return Err(e);
            },
        };
        proof {
            Source::lemma_rest_advance(s0, *src, T1::read_width());
            assert(src.rest() =~= start.rest().skip((T1::read_width()) as int));
            assert(x0 == T1::read_value(o, chunk(start.rest(), 0, T1::read_width())));
        }
        let ghost s1 = *src;
        let x1 = match T2::unpack_from(o, src) {
            Ok(v) => v,
            Err(e) => {
                return Err(e);
            },
        };
        proof {
            Source::lemma_rest_advance(s1, *src, T2::read_width());
            assert(src.rest() =~= start.rest().skip((T1::read_width() + T2::read_width()) as int));
            assert(x1 == T2::read_value(o, chunk(start.rest(), (T1::read_width()) as int, T2::read_width())));
        }
        let ghost s2 = *src;
        let x2 = match T3::unpack_from(o, src) {
            Ok(v) => v,
            Err(e) => {
                return Err(e);
            },
        };
        proof {
            Source::lemma_rest_advance(s2, *src, T3::read_width());
            assert(src.rest() =~= start.rest().skip((T1::read_width() + T2::read_width() + T3::read_width()) as int));
            assert(x2 == T3::read_value(o, chunk(start.rest(), (T1::read_width() + T2::read_width()) as int, T3::read_width())));
        }
        let ghost s3 = *src;
        let x3 = match T4::unpack_from(o, src) {
            Ok(v) => v,
            Err(e) => {
                return Err(e);
            },
        };
        proof {
            Source::lemma_rest_advance(s3, *src, T4::read_width());
            assert(src.rest() =~= start.rest().skip((T1::read_width() + T2::read_width() + T3::read_width() + T4::read_width()) as int));
            assert(x3 == T4::read_value(o, chunk(start.rest(), (T1::read_width() + T2::read_width() + T3::read_width()) as int, T4::read_width())));
        }
        proof {
            lemma_chunk_of_take(start.rest(), w as int, 0, T1::read_width());
            lemma_chunk_of_take(start.rest(), w as int, (T1::read_width()) as int, T2::read_width());
            lemma_chunk_of_take(start.rest(), w as int, (T1::read_width() + T2::read_width()) as int, T3::read_width());
            lemma_chunk_of_take(start.rest(), w as int, (T1::read_width() + T2::read_width() + T3::read_width()) as int, T4::read_width());
        }
        Ok((x0, x1, x2, x3))
    }
}

impl<T1: UnpackFrom, T2: UnpackFrom, T3: UnpackFrom, T4: UnpackFrom, T5: UnpackFrom> UnpackFrom for (T1, T2, T3, T4, T5) {
    open spec fn read_width() -> nat {
        T1::read_width() + T2::read_width() + T3::read_width() + T4::read_width() + T5::read_width()
    }

    open spec fn read_value(o: ByteOrder, b: Seq<u8>) -> Self {
        (
            T1::read_value(o, chunk(b, 0, T1::read_width())),
            T2::read_value(o, chunk(b, (T1::read_width()) as int, T2::read_width())),
            T3::read_value(o, chunk(b, (T1::read_width() + T2::read_width()) as int, T3::read_width())),
            T4::read_value(o, chunk(b, (T1::read_width() + T2::read_width() + T3::read_width()) as int, T4::read_width())),
            T5::read_value(o, chunk(b, (T1::read_width() + T2::read_width() + T3::read_width() + T4::read_width()) as int, T5::read_width())),
        )
    }

    open spec fn fill_value() -> Self {
        (T1::fill_value(), T2::fill_value(), T3::fill_value(), T4::fill_value(), T5::fill_value())
    }

    fn fill() -> (r: Self) {
        (T1::fill(), T2::fill(), T3::fill(), T4::fill(), T5::fill())
    }

    #[verifier::spinoff_prover]
    #[verifier::rlimit(100)]
    fn unpack_from(o: ByteOrder, src: &mut Source) -> (r: Result<Self, UnpackError>) {
        let ghost start = *src;
        let ghost w = Self::read_width();
        let ghost s0 = *src;
        proof {
            assert(s0.rest() =~= start.rest().skip(0));
        }
        let x0 = match T1::unpack_from(o, src) {
            Ok(v) => v,
            Err(e) => {
                return Err(e);
            },
        };
        proof {
            Source::lemma_rest_advance(s0, *src, T1::read_width());
            assert(src.rest() =~= start.rest().skip((T1::read_width()) as int));
            assert(x0 == T1::read_value(o, chunk(start.rest(), 0, T1::read_width())));
        }
        let ghost s1 = *src;
        let x1 = match T2::unpack_from(o, src) {
            Ok(v) => v,
            Err(e) => {
                return Err(e);
            },
        };
        proof {
            Source::lemma_rest_advance(s1, *src, T2::read_width());
            assert(src.rest() =~= start.rest().skip((T1::read_width() + T2::read_width()) as int));
            assert(x1 == T2::read_value(o, chunk(start.rest(), (T1::read_width()) as int, T2::read_width())));
        }
        let ghost s2 = *src;
        let x2 = match T3::unpack_from(o, src) {
            Ok(v) => v,
            Err(e) => {
                return Err(e);
            },
        };
        proof {
            Source::lemma_rest_advance(s2, *src, T3::read_width());
            assert(src.rest() =~= start.rest().skip((T1::read_width() + T2::read_width() + T3::read_width()) as int));
            assert(x2 == T3::read_value(o, chunk(start.rest(), (T1::read_width() + T2::read_width()) as int, T3::read_width())));
        }
        let ghost s3 = *src;
        let x3 = match T4::unpack_from(o, src) {
            Ok(v) => v,
            Err(e) => {
                return Err(e);
            },
        };
        proof {
            Source::lemma_rest_advance(s3, *src, T4::read_width());
            assert(src.rest() =~= start.rest().skip((T1::read_width() + T2::read_width() + T3::read_width() + T4::read_width()) as int));
            assert(x3 == T4::read_value(o, chunk(start.rest(), (T1::read_width() + T2::read_width() + T3::read_width()) as int, T4::read_width())));
        }
        let ghost s4 = *src;
        let x4 = match T5::unpack_from(o, src) {
            Ok(v) => v,
            Err(e) => {
                return Err(e);
            },
        };
        proof {
            Source::lemma_rest_advance(s4, *src, T5::read_width());
            assert(src.rest() =~= start.rest().skip((T1::read_width() + T2::read_width() + T3::read_width() + T4::read_width() + T5::read_width()) as int));
            assert(x4 == T5::read_value(o, chunk(start.rest(), (T1::read_width() + T2::read_width() + T3::read_width() + T4::read_width()) as int, T5::read_width())));
        }
        proof {
            lemma_chunk_of_take(start.rest(), w as int, 0, T1::read_width());
            lemma_chunk_of_take(start.rest(), w as int, (T1::read_width()) as int, T2::read_width());
            lemma_chunk_of_take(start.rest(), w as int, (T1::read_width() + T2::read_width()) as int, T3::read_width());
            lemma_chunk_of_take(start.rest(), w as int, (T1::read_width() + T2::read_width() + T3::read_width()) as int, T4::read_width());
            lemma_chunk_of_take(start.rest(), w as int, (T1::read_width() + T2::read_width() + T3::read_width() + T4::read_width()) as int, T5::read_width());
        }
        Ok((x0, x1, x2, x3, x4))
    }
}

impl<T1: UnpackFrom, T2: UnpackFrom, T3: UnpackFrom, T4: UnpackFrom, T5: UnpackFrom, T6: UnpackFrom> UnpackFrom for (T1, T2, T3, T4, T5, T6) {
    open spec fn read_width() -> nat {
        T1::read_width() + T2::read_width() + T3::read_width() + T4::read_width() + T5::read_width() + T6::read_width()
    }

    open spec fn read_value(o: ByteOrder, b: Seq<u8>) -> Self {
        (
            T1::read_value(o, chunk(b, 0, T1::read_width())),
            T2::read_value(o, chunk(b, (T1::read_width()) as int, T2::read_width())),
            T3::read_value(o, chunk(b, (T1::read_width() + T2::read_width()) as int, T3::read_width())),
            T4::read_value(o, chunk(b, (T1::read_width() + T2::read_width() + T3::read_width()) as int, T4::read_width())),
            T5::read_value(o, chunk(b, (T1::read_width() + T2::read_width() + T3::read_width() + T4::read_width()) as int, T5::read_width())),
            T6::read_value(o, chunk(b, (T1::read_width() + T2::read_width() + T3::read_width() + T4::read_width() + T5::read_width()) as int, T6::read_width())),
        )
    }

    open spec fn fill_value() -> Self {
        (T1::fill_value(), T2::fill_value(), T3::fill_value(), T4::fill_value(), T5::fill_value(), T6::fill_value())
    }

    fn fill() -> (r: Self) {
        (T1::fill(), T2::fill(), T3::fill(), T4::fill(), T5::fill(), T6::fill())
    }

    #[verifier::spinoff_prover]
    #[verifier::rlimit(100)]
    fn unpack_from(o: ByteOrder, src: &mut Source) -> (r: Result<Self, UnpackError>) {
        let ghost start = *src;
        let ghost w = Self::read_width();
        let ghost s0 = *src;
        proof {
            assert(s0.rest() =~= start.rest().skip(0));
        }
        let x0 = match T1::unpack_from(o, src) {
            Ok(v) => v,
            Err(e) => {
                return Err(e);
            },
        };
        proof {
            Source::lemma_rest_advance(s0, *src, T1::read_width());
            assert(src.rest() =~= start.rest().skip((T1::read_width()) as int));
            assert(x0 == T1::read_value(o, chunk(start.rest(), 0, T1::read_width())));
        }
        let ghost s1 = *src;
        let x1 = match T2::unpack_from(o, src) {
            Ok(v) => v,
            Err(e) => {
                return Err(e);
            },
        };
        proof {
            Source::lemma_rest_advance(s1, *src, T2::read_width());
            assert(src.rest() =~= start.rest().skip((T1::read_width() + T2::read_width()) as int));
            assert(x1 == T2::read_value(o, chunk(start.rest(), (T1::read_width()) as int, T2::read_width())));
        }
        let ghost s2 = *src;
        let x2 = match T3::unpack_from(o, src) {
            Ok(v) => v,
            Err(e) => {
                return Err(e);
            },
        };
        proof {
            Source::lemma_rest_advance(s2, *src, T3::read_width());
            assert(src.rest() =~= start.rest().skip((T1::read_width() + T2::read_width() + T3::read_width()) as int));
            assert(x2 == T3::read_value(o, chunk(start.rest(), (T1::read_width() + T2::read_width()) as int, T3::read_width())));
        }
        let ghost s3 = *src;
        let x3 = match T4::unpack_from(o, src) {
            Ok(v) => v,
            Err(e) => {
                return Err(e);
            },
        };
        proof {
            Source::lemma_rest_advance(s3, *src, T4::read_width());
            assert(src.rest() =~= start.rest().skip((T1::read_width() + T2::read_width() + T3::read_width() + T4::read_width()) as int));
            assert(x3 == T4::read_value(o, chunk(start.rest(), (T1::read_width() + T2::read_width() + T3::read_width()) as int, T4::read_width())));
        }
        let ghost s4 = *src;
        let x4 = match T5::unpack_from(o, src) {
            Ok(v) => v,
            Err(e) => {
                return Err(e);
            },
        };
        proof {
            Source::lemma_rest_advance(s4, *src, T5::read_width());
            assert(src.rest() =~= start.rest().skip((T1::read_width() + T2::read_width() + T3::read_width() + T4::read_width() + T5::read_width()) as int));
            assert(x4 == T5::read_value(o, chunk(start.rest(), (T1::read_width() + T2::read_width() + T3::read_width() + T4::read_width()) as int, T5::read_width())));
        }
        let ghost s5 = *src;
        let x5 = match T6::unpack_from(o, src) {
            Ok(v) => v,
            Err(e) => {
                return Err(e);
            },
        };
        proof {
            Source::lemma_rest_advance(s5, *src, T6::read_width());
            assert(src.rest() =~= start.rest().skip((T1::read_width() + T2::read_width() + T3::read_width() + T4::read_width() + T5::read_width() + T6::read_width()) as int));
            assert(x5 == T6::read_value(o, chunk(start.rest(), (T1::read_width() + T2::read_width() + T3::read_width() + T4::read_width() + T5::read_width()) as int, T6::read_width())));
        }
        proof {
            lemma_chunk_of_take(start.rest(), w as int, 0, T1::read_width());
            lemma_chunk_of_take(start.rest(), w as int, (T1::read_width()) as int, T2::read_width());
            lemma_chunk_of_take(start.rest(), w as int, (T1::read_width() + T2::read_width()) as int, T3::read_width());
            lemma_chunk_of_take(start.rest(), w as int, (T1::read_width() + T2::read_width() + T3::read_width()) as int, T4::read_width());
            lemma_chunk_of_take(start.rest(), w as int, (T1::read_width() + T2::read_width() + T3::read_width() + T4::read_width()) as int, T5::read_width());
            lemma_chunk_of_take(start.rest(), w as int, (T1::read_width() + T2::read_width() + T3::read_width() + T4::read_width() + T5::read_width()) as int, T6::read_width());
        }
        Ok((x0, x1, x2, x3, x4, x5))
    }
}

impl<T1: UnpackFrom, T2: UnpackFrom, T3: UnpackFrom, T4: UnpackFrom, T5: UnpackFrom, T6: UnpackFrom, T7: UnpackFrom> UnpackFrom for (T1, T2, T3, T4, T5, T6, T7) {
    open spec fn read_width() -> nat {
        T1::read_width() + T2::read_width() + T3::read_width() + T4::read_width() + T5::read_width() + T6::read_width() + T7::read_width()
    }

    open spec fn read_value(o: ByteOrder, b: Seq<u8>) -> Self {
        (
            T1::read_value(o, chunk(b, 0, T1::read_width())),
            T2::read_value(o, chunk(b, (T1::read_width()) as int, T2::read_width())),
            T3::read_value(o, chunk(b, (T1::read_width() + T2::read_width()) as int, T3::read_width())),
            T4::read_value(o, chunk(b, (T1::read_width() + T2::read_width() + T3::read_width()) as int, T4::read_width())),
            T5::read_value(o, chunk(b, (T1::read_width() + T2::read_width() + T3::read_width() + T4::read_width()) as int, T5::read_width())),
            T6::read_value(o, chunk(b, (T1::read_width() + T2::read_width() + T3::read_width() + T4::read_width() + T5::read_width()) as int, T6::read_width())),
            T7::read_value(o, chunk(b, (T1::read_width() + T2::read_width() + T3::read_width() + T4::read_width() + T5::read_width() + T6::read_width()) as int, T7::read_width())),
        )
    }

    open spec fn fill_value() -> Self {
        (T1::fill_value(), T2::fill_value(), T3::fill_value(), T4::fill_value(), T5::fill_value(), T6::fill_value(), T7::fill_value())
    }

    fn fill() -> (r: Self) {
        (T1::fill(), T2::fill(), T3::fill(), T4::fill(), T5::fill(), T6::fill(), T7::fill())
    }

    #[verifier::spinoff_prover]
    #[verifier::rlimit(100)]
    fn unpack_from(o: ByteOrder, src: &mut Source) -> (r: Result<Self, UnpackError>) {
        let ghost start = *src;
        let ghost w = Self::read_width();
        let ghost s0 = *src;
        proof {
            assert(s0.rest() =~= start.rest().skip(0));
        }
        let x0 = match T1::unpack_from(o, src) {
            Ok(v) => v,
            Err(e) => {
                return Err(e);
            },
        };
        proof {
            Source::lemma_rest_advance(s0, *src, T1::read_width());
            assert(src.rest() =~= start.rest().skip((T1::read_width()) as int));
            assert(x0 == T1::read_value(o, chunk(start.rest(), 0, T1::read_width())));
        }
        let ghost s1 = *src;
        let x1 = match T2::unpack_from(o, src) {
            Ok(v) => v,
            Err(e) => {
                return Err(e);
            },
        };
        proof {
            Source::lemma_rest_advance(s1, *src, T2::read_width());
            assert(src.rest() =~= start.rest().skip((T1::read_width() + T2::read_width()) as int));
            assert(x1 == T2::read_value(o, chunk(start.rest(), (T1::read_width()) as int, T2::read_width())));
        }
        let ghost s2 = *src;
        let x2 = match T3::unpack_from(o, src) {
            Ok(v) => v,
            Err(e) => {
                return Err(e);
            },
        };
        proof {
            Source::lemma_rest_advance(s2, *src, T3::read_width());
            assert(src.rest() =~= start.rest().skip((T1::read_width() + T2::read_width() + T3::read_width()) as int));
            assert(x2 == T3::read_value(o, chunk(start.rest(), (T1::read_width() + T2::read_width()) as int, T3::read_width())));
        }
        let ghost s3 = *src;
        let x3 = match T4::unpack_from(o, src) {
            Ok(v) => v,
            Err(e) => {
                return Err(e);
            },
        };
        proof {
            Source::lemma_rest_advance(s3, *src, T4::read_width());
            assert(src.rest() =~= start.rest().skip((T1::read_width() + T2::read_width() + T3::read_width() + T4::read_width()) as int));
            assert(x3 == T4::read_value(o, chunk(start.rest(), (T1::read_width() + T2::read_width() + T3::read_width()) as int, T4::read_width())));
        }
        let ghost s4 = *src;
        let x4 = match T5::unpack_from(o, src) {
            Ok(v) => v,
            Err(e) => {
                return Err(e);
            },
        };
        proof {
            Source::lemma_rest_advance(s4, *src, T5::read_width());
            assert(src.rest() =~= start.rest().skip((T1::read_width() + T2::read_width() + T3::read_width() + T4::read_width() + T5::read_width()) as int));
            assert(x4 == T5::read_value(o, chunk(start.rest(), (T1::read_width() + T2::read_width() + T3::read_width() + T4::read_width()) as int, T5::read_width())));
        }
        let ghost s5 = *src;
        let x5 = match T6::unpack_from(o, src) {
            Ok(v) => v,
            Err(e) => {
                return Err(e);
            },
        };
        proof {
            Source::lemma_rest_advance(s5, *src, T6::read_width());
            assert(src.rest() =~= start.rest().skip((T1::read_width() + T2::read_width() + T3::read_width() + T4::read_width() + T5::read_width() + T6::read_width()) as int));
            assert(x5 == T6::read_value(o, chunk(start.rest(), (T1::read_width() + T2::read_width() + T3::read_width() + T4::read_width() + T5::read_width()) as int, T6::read_width())));
        }
        let ghost s6 = *src;
        let x6 = match T7::unpack_from(o, src) {
            Ok(v) => v,
            Err(e) => {
                return Err(e);
            },
        };
        proof {
            Source::lemma_rest_advance(s6, *src, T7::read_width());
            assert(src.rest() =~= start.rest().skip((T1::read_width() + T2::read_width() + T3::read_width() + T4::read_width() + T5::read_width() + T6::read_width() + T7::read_width()) as int));
            assert(x6 == T7::read_value(o, chunk(start.rest(), (T1::read_width() + T2::read_width() + T3::read_width() + T4::read_width() + T5::read_width() + T6::read_width()) as int, T7::read_width())));
        }
        proof {
            lemma_chunk_of_take(start.rest(), w as int, 0, T1::read_width());
            lemma_chunk_of_take(start.rest(), w as int, (T1::read_width()) as int, T2::read_width());
            lemma_chunk_of_take(start.rest(), w as int, (T1::read_width() + T2::read_width()) as int, T3::read_width());
            lemma_chunk_of_take(start.rest(), w as int, (T1::read_width() + T2::read_width() + T3::read_width()) as int, T4::read_width());
            lemma_chunk_of_take(start.rest(), w as int, (T1::read_width() + T2::read_width() + T3::read_width() + T4::read_width()) as int, T5::read_width());
            lemma_chunk_of_take(start.rest(), w as int, (T1::read_width() + T2::read_width() + T3::read_width() + T4::read_width() + T5::read_width()) as int, T6::read_width());
            lemma_chunk_of_take(start.rest(), w as int, (T1::read_width() + T2::read_width() + T3::read_width() + T4::read_width() + T5::read_width() + T6::read_width()) as int, T7::read_width());
        }
        Ok((x0, x1, x2, x3, x4, x5, x6))
    }
}

impl<T1: UnpackFrom, T2: UnpackFrom, T3: UnpackFrom, T4: UnpackFrom, T5: UnpackFrom, T6: UnpackFrom, T7: UnpackFrom, T8: UnpackFrom> UnpackFrom for (T1, T2, T3, T4, T5, T6, T7, T8) {
    open spec fn read_width() -> nat {
        T1::read_width() + T2::read_width() + T3::read_width() + T4::read_width() + T5::read_width() + T6::read_width() + T7::read_width() + T8::read_width()
    }

    open spec fn read_value(o: ByteOrder, b: Seq<u8>) -> Self {
        (
            T1::read_value(o, chunk(b, 0, T1::read_width())),
            T2::read_value(o, chunk(b, (T1::read_width()) as int, T2::read_width())),
            T3::read_value(o, chunk(b, (T1::read_width() + T2::read_width()) as int, T3::read_width())),
            T4::read_value(o, chunk(b, (T1::read_width() + T2::read_width() + T3::read_width()) as int, T4::read_width())),
            T5::read_value(o, chunk(b, (T1::read_width() + T2::read_width() + T3::read_width() + T4::read_width()) as int, T5::read_width())),
            T6::read_value(o, chunk(b, (T1::read_width() + T2::read_width() + T3::read_width() + T4::read_width() + T5::read_width()) as int, T6::read_width())),
            T7::read_value(o, chunk(b, (T1::read_width() + T2::read_width() + T3::read_width() + T4::read_width() + T5::read_width() + T6::read_width()) as int, T7::read_width())),
            T8::read_value(o, chunk(b, (T1::read_width() + T2::read_width() + T3::read_width() + T4::read_width() + T5::read_width() + T6::read_width() + T7::read_width()) as int, T8::read_width())),
        )
    }

    open spec fn fill_value() -> Self {
        (T1::fill_value(), T2::fill_value(), T3::fill_value(), T4::fill_value(), T5::fill_value(), T6::fill_value(), T7::fill_value(), T8::fill_value())
    }

    fn fill() -> (r: Self) {
        (T1::fill(), T2::fill(), T3::fill(), T4::fill(), T5::fill(), T6::fill(), T7::fill(), T8::fill())
    }

    #[verifier::spinoff_prover]
    #[verifier::rlimit(100)]
    fn unpack_from(o: ByteOrder, src: &mut Source) -> (r: Result<Self, UnpackError>) {
        let ghost start = *src;
        let ghost w = Self::read_width();
        let ghost s0 = *src;
        proof {
            assert(s0.rest() =~= start.rest().skip(0));
        }
        let x0 = match T1::unpack_from(o, src) {
            Ok(v) => v,
            Err(e) => {
                return Err(e);
            },
        };
        proof {
            Source::lemma_rest_advance(s0, *src, T1::read_width());
            assert(src.rest() =~= start.rest().skip((T1::read_width()) as int));
            assert(x0 == T1::read_value(o, chunk(start.rest(), 0, T1::read_width())));
        }
        let ghost s1 = *src;
        let x1 = match T2::unpack_from(o, src) {
            Ok(v) => v,
            Err(e) => {
                return Err(e);
            },
        };
        proof {
            Source::lemma_rest_advance(s1, *src, T2::read_width());
            assert(src.rest() =~= start.rest().skip((T1::read_width() + T2::read_width()) as int));
            assert(x1 == T2::read_value(o, chunk(start.rest(), (T1::read_width()) as int, T2::read_width())));
        }
        let ghost s2 = *src;
        let x2 = match T3::unpack_from(o, src) {
            Ok(v) => v,
            Err(e) => {
                return Err(e);
            },
        };
        proof {
            Source::lemma_rest_advance(s2, *src, T3::read_width());
            assert(src.rest() =~= start.rest().skip((T1::read_width() + T2::read_width() + T3::read_width()) as int));
            assert(x2 == T3::read_value(o, chunk(start.rest(), (T1::read_width() + T2::read_width()) as int, T3::read_width())));
        }
        let ghost s3 = *src;
        let x3 = match T4::unpack_from(o, src) {
            Ok(v) => v,
            Err(e) => {
                return Err(e);
            },
        };
        proof {
            Source::lemma_rest_advance(s3, *src, T4::read_width());
            assert(src.rest() =~= start.rest().skip((T1::read_width() + T2::read_width() + T3::read_width() + T4::read_width()) as int));
            assert(x3 == T4::read_value(o, chunk(start.rest(), (T1::read_width() + T2::read_width() + T3::read_width()) as int, T4::read_width())));
        }
        let ghost s4 = *src;
        let x4 = match T5::unpack_from(o, src) {
            Ok(v) => v,
            Err(e) => {
                return Err(e);
            },
        };
        proof {
            Source::lemma_rest_advance(s4, *src, T5::read_width());
            assert(src.rest() =~= start.rest().skip((T1::read_width() + T2::read_width() + T3::read_width() + T4::read_width() + T5::read_width()) as int));
            assert(x4 == T5::read_value(o, chunk(start.rest(), (T1::read_width() + T2::read_width() + T3::read_width() + T4::read_width()) as int, T5::read_width())));
        }
        let ghost s5 = *src;
        let x5 = match T6::unpack_from(o, src) {
            Ok(v) => v,
            Err(e) => {
                return Err(e);
            },
        };
        proof {
            Source::lemma_rest_advance(s5, *src, T6::read_width());
            assert(src.rest() =~= start.rest().skip((T1::read_width() + T2::read_width() + T3::read_width() + T4::read_width() + T5::read_width() + T6::read_width()) as int));
            assert(x5 == T6::read_value(o, chunk(start.rest(), (T1::read_width() + T2::read_width() + T3::read_width() + T4::read_width() + T5::read_width()) as int, T6::read_width())));
        }
        let ghost s6 = *src;
        let x6 = match T7::unpack_from(o, src) {
            Ok(v) => v,
            Err(e) => {
                return Err(e);
            },
        };
        proof {
            Source::lemma_rest_advance(s6, *src, T7::read_width());
            assert(src.rest() =~= start.rest().skip((T1::read_width() + T2::read_width() + T3::read_width() + T4::read_width() + T5::read_width() + T6::read_width() + T7::read_width()) as int));
            assert(x6 == T7::read_value(o, chunk(start.rest(), (T1::read_width() + T2::read_width() + T3::read_width() + T4::read_width() + T5::read_width() + T6::read_width()) as int, T7::read_width())));
        }
        let ghost s7 = *src;
        let x7 = match T8::unpack_from(o, src) {
            Ok(v) => v,
            Err(e) => {
                return Err(e);
            },
        };
        proof {
            Source::lemma_rest_advance(s7, *src, T8::read_width());
            assert(src.rest() =~= start.rest().skip((T1::read_width() + T2::read_width() + T3::read_width() + T4::read_width() + T5::read_width() + T6::read_width() + T7::read_width() + T8::read_width()) as int));
            assert(x7 == T8::read_value(o, chunk(start.rest(), (T1::read_width() + T2::read_width() + T3::read_width() + T4::read_width() + T5::read_width() + T6::read_width() + T7::read_width()) as int, T8::read_width())));
        }
        proof {
            lemma_chunk_of_take(start.rest(), w as int, 0, T1::read_width());
            lemma_chunk_of_take(start.rest(), w as int, (T1::read_width()) as int, T2::read_width());
            lemma_chunk_of_take(start.rest(), w as int, (T1::read_width() + T2::read_width()) as int, T3::read_width());
            lemma_chunk_of_take(start.rest(), w as int, (T1::read_width() + T2::read_width() + T3::read_width()) as int, T4::read_width());
            lemma_chunk_of_take(start.rest(), w as int, (T1::read_width() + T2::read_width() + T3::read_width() + T4::read_width()) as int, T5::read_width());
            lemma_chunk_of_take(start.rest(), w as int, (T1::read_width() + T2::read_width() + T3::read_width() + T4::read_width() + T5::read_width()) as int, T6::read_width());
            lemma_chunk_of_take(start.rest(), w as int, (T1::read_width() + T2::read_width() + T3::read_width() + T4::read_width() + T5::read_width() + T6::read_width()) as int, T7::read_width());
            lemma_chunk_of_take(start.rest(), w as int, (T1::read_width() + T2::read_width() + T3::read_width() + T4::read_width() + T5::read_width() + T6::read_width() + T7::read_width()) as int, T8::read_width());
        }
        Ok((x0, x1, x2, x3, x4, x5, x6, x7))
    }
}

impl<T1: UnpackFrom, T2: UnpackFrom, T3: UnpackFrom, T4: UnpackFrom, T5: UnpackFrom, T6: UnpackFrom, T7: UnpackFrom, T8: UnpackFrom, T9: UnpackFrom> UnpackFrom for (T1, T2, T3, T4, T5, T6, T7, T8, T9) {
    open spec fn read_width() -> nat {
        T1::read_width() + T2::read_width() + T3::read_width() + T4::read_width() + T5::read_width() + T6::read_width() + T7::read_width() + T8::read_width() + T9::read_width()
    }

    open spec fn read_value(o: ByteOrder, b: Seq<u8>) -> Self {
        (
            T1::read_value(o, chunk(b, 0, T1::read_width())),
            T2::read_value(o, chunk(b, (T1::read_width()) as int, T2::read_width())),
            T3::read_value(o, chunk(b, (T1::read_width() + T2::read_width()) as int, T3::read_width())),
            T4::read_value(o, chunk(b, (T1::read_width() + T2::read_width() + T3::read_width()) as int, T4::read_width())),
            T5::read_value(o, chunk(b, (T1::read_width() + T2::read_width() + T3::read_width() + T4::read_width()) as int, T5::read_width())),
            T6::read_value(o, chunk(b, (T1::read_width() + T2::read_width() + T3::read_width() + T4::read_width() + T5::read_width()) as int, T6::read_width())),
            T7::read_value(o, chunk(b, (T1::read_width() + T2::read_width() + T3::read_width() + T4::read_width() + T5::read_width() + T6::read_width()) as int, T7::read_width())),
            T8::read_value(o, chunk(b, (T1::read_width() + T2::read_width() + T3::read_width() + T4::read_width() + T5::read_width() + T6::read_width() + T7::read_width()) as int, T8::read_width())),
            T9::read_value(o, chunk(b, (T1::read_width() + T2::read_width() + T3::read_width() + T4::read_width() + T5::read_width() + T6::read_width() + T7::read_width() + T8::read_width()) as int, T9::read_width())),
        )
    }

    open spec fn fill_value() -> Self {
        (T1::fill_value(), T2::fill_value(), T3::fill_value(), T4::fill_value(), T5::fill_value(), T6::fill_value(), T7::fill_value(), T8::fill_value(), T9::fill_value())
    }

    fn fill() -> (r: Self) {
        (T1::fill(), T2::fill(), T3::fill(), T4::fill(), T5::fill(), T6::fill(), T7::fill(), T8::fill(), T9::fill())
    }

    #[verifier::spinoff_prover]
    #[verifier::rlimit(100)]
    fn unpack_from(o: ByteOrder, src: &mut Source) -> (r: Result<Self, UnpackError>) {
        let ghost start = *src;
        let ghost w = Self::read_width();
        let ghost s0 = *src;
        proof {
            assert(s0.rest() =~= start.rest().skip(0));
        }
        let x0 = match T1::unpack_from(o, src) {
            Ok(v) => v,
            Err(e) => {
                return Err(e);
            },
        };
        proof {
            Source::lemma_rest_advance(s0, *src, T1::read_width());
            assert(src.rest() =~= start.rest().skip((T1::read_width()) as int));
            assert(x0 == T1::read_value(o, chunk(start.rest(), 0, T1::read_width())));
        }
        let ghost s1 = *src;
        let x1 = match T2::unpack_from(o, src) {
            Ok(v) => v,
            Err(e) => {
                return Err(e);
            },
        };
        proof {
            Source::lemma_rest_advance(s1, *src, T2::read_width());
            assert(src.rest() =~= start.rest().skip((T1::read_width() + T2::read_width()) as int));
            assert(x1 == T2::read_value(o, chunk(start.rest(), (T1::read_width()) as int, T2::read_width())));
        }
        let ghost s2 = *src;
        let x2 = match T3::unpack_from(o, src) {
            Ok(v) => v,
            Err(e) => {
                return Err(e);
            },
        };
        proof {
            Source::lemma_rest_advance(s2, *src, T3::read_width());
            assert(src.rest() =~= start.rest().skip((T1::read_width() + T2::read_width() + T3::read_width()) as int));
            assert(x2 == T3::read_value(o, chunk(start.rest(), (T1::read_width() + T2::read_width()) as int, T3::read_width())));
        }
        let ghost s3 = *src;
        let x3 = match T4::unpack_from(o, src) {
            Ok(v) => v,
            Err(e) => {
                return Err(e);
            },
        };
        proof {
            Source::lemma_rest_advance(s3, *src, T4::read_width());
            assert(src.rest() =~= start.rest().skip((T1::read_width() + T2::read_width() + T3::read_width() + T4::read_width()) as int));
            assert(x3 == T4::read_value(o, chunk(start.rest(), (T1::read_width() + T2::read_width() + T3::read_width()) as int, T4::read_width())));
        }
        let ghost s4 = *src;
        let x4 = match T5::unpack_from(o, src) {
            Ok(v) => v,
            Err(e) => {
                return Err(e);
            },
        };
        proof {
            Source::lemma_rest_advance(s4, *src, T5::read_width());
            assert(src.rest() =~= start.rest().skip((T1::read_width() + T2::read_width() + T3::read_width() + T4::read_width() + T5::read_width()) as int));
            assert(x4 == T5::read_value(o, chunk(start.rest(), (T1::read_width() + T2::read_width() + T3::read_width() + T4::read_width()) as int, T5::read_width())));
        }
        let ghost s5 = *src;
        let x5 = match T6::unpack_from(o, src) {
            Ok(v) => v,
            Err(e) => {
                return Err(e);
            },
        };
        proof {
            Source::lemma_rest_advance(s5, *src, T6::read_width());
            assert(src.rest() =~= start.rest().skip((T1::read_width() + T2::read_width() + T3::read_width() + T4::read_width() + T5::read_width() + T6::read_width()) as int));
            assert(x5 == T6::read_value(o, chunk(start.rest(), (T1::read_width() + T2::read_width() + T3::read_width() + T4::read_width() + T5::read_width()) as int, T6::read_width())));
        }
        let ghost s6 = *src;
        let x6 = match T7::unpack_from(o, src) {
            Ok(v) => v,
            Err(e) => {
                return Err(e);
            },
        };
        proof {
            Source::lemma_rest_advance(s6, *src, T7::read_width());
            assert(src.rest() =~= start.rest().skip((T1::read_width() + T2::read_width() + T3::read_width() + T4::read_width() + T5::read_width() + T6::read_width() + T7::read_width()) as int));
            assert(x6 == T7::read_value(o, chunk(start.rest(), (T1::read_width() + T2::read_width() + T3::read_width() + T4::read_width() + T5::read_width() + T6::read_width()) as int, T7::read_width())));
        }
        let ghost s7 = *src;
        let x7 = match T8::unpack_from(o, src) {
            Ok(v) => v,
            Err(e) => {
                return Err(e);
            },
        };
        proof {
            Source::lemma_rest_advance(s7, *src, T8::read_width());
            assert(src.rest() =~= start.rest().skip((T1::read_width() + T2::read_width() + T3::read_width() + T4::read_width() + T5::read_width() + T6::read_width() + T7::read_width() + T8::read_width()) as int));
            assert(x7 == T8::read_value(o, chunk(start.rest(), (T1::read_width() + T2::read_width() + T3::read_width() + T4::read_width() + T5::read_width() + T6::read_width() + T7::read_width()) as int, T8::read_width())));
        }
        let ghost s8 = *src;
        let x8 = match T9::unpack_from(o, src) {
            Ok(v) => v,
            Err(e) => {
                return Err(e);
            },
        };
        proof {
            Source::lemma_rest_advance(s8, *src, T9::read_width());
            assert(src.rest() =~= start.rest().skip((T1::read_width() + T2::read_width() + T3::read_width() + T4::read_width() + T5::read_width() + T6::read_width() + T7::read_width() + T8::read_width() + T9::read_width()) as int));
            assert(x8 == T9::read_value(o, chunk(start.rest(), (T1::read_width() + T2::read_width() + T3::read_width() + T4::read_width() + T5::read_width() + T6::read_width() + T7::read_width() + T8::read_width()) as int, T9::read_width())));
        }
        proof {
            lemma_chunk_of_take(start.rest(), w as int, 0, T1::read_width());
            lemma_chunk_of_take(start.rest(), w as int, (T1::read_width()) as int, T2::read_width());
            lemma_chunk_of_take(start.rest(), w as int, (T1::read_width() + T2::read_width()) as int, T3::read_width());
            lemma_chunk_of_take(start.rest(), w as int, (T1::read_width() + T2::read_width() + T3::read_width()) as int, T4::read_width());
            lemma_chunk_of_take(start.rest(), w as int, (T1::read_width() + T2::read_width() + T3::read_width() + T4::read_width()) as int, T5::read_width());
            lemma_chunk_of_take(start.rest(), w as int, (T1::read_width() + T2::read_width() + T3::read_width() + T4::read_width() + T5::read_width()) as int, T6::read_width());
            lemma_chunk_of_take(start.rest(), w as int, (T1::read_width() + T2::read_width() + T3::read_width() + T4::read_width() + T5::read_width() + T6::read_width()) as int, T7::read_width());
            lemma_chunk_of_take(start.rest(), w as int, (T1::read_width() + T2::read_width() + T3::read_width() + T4::read_width() + T5::read_width() + T6::read_width() + T7::read_width()) as int, T8::read_width());
            lemma_chunk_of_take(start.rest(), w as int, (T1::read_width() + T2::read_width() + T3::read_width() + T4::read_width() + T5::read_width() + T6::read_width() + T7::read_width() + T8::read_width()) as int, T9::read_width());
        }
        Ok((x0, x1, x2, x3, x4, x5, x6, x7, x8))
    }
}

impl<T1: UnpackFrom, T2: UnpackFrom, T3: UnpackFrom, T4: UnpackFrom, T5: UnpackFrom, T6: UnpackFrom, T7: UnpackFrom, T8: UnpackFrom, T9: UnpackFrom, T10: UnpackFrom> UnpackFrom for (T1, T2, T3, T4, T5, T6, T7, T8, T9, T10) {
    open spec fn read_width() -> nat {
        T1::read_width() + T2::read_width() + T3::read_width() + T4::read_width() + T5::read_width() + T6::read_width() + T7::read_width() + T8::read_width() + T9::read_width() + T10::read_width()
    }

    open spec fn read_value(o: ByteOrder, b: Seq<u8>) -> Self {
        (
            T1::read_value(o, chunk(b, 0, T1::read_width())),
            T2::read_value(o, chunk(b, (T1::read_width()) as int, T2::read_width())),
            T3::read_value(o, chunk(b, (T1::read_width() + T2::read_width()) as int, T3::read_width())),
            T4::read_value(o, chunk(b, (T1::read_width() + T2::read_width() + T3::read_width()) as int, T4::read_width())),
            T5::read_value(o, chunk(b, (T1::read_width() + T2::read_width() + T3::read_width() + T4::read_width()) as int, T5::read_width())),
            T6::read_value(o, chunk(b, (T1::read_width() + T2::read_width() + T3::read_width() + T4::read_width() + T5::read_width()) as int, T6::read_width())),
            T7::read_value(o, chunk(b, (T1::read_width() + T2::read_width() + T3::read_width() + T4::read_width() + T5::read_width() + T6::read_width()) as int, T7::read_width())),
            T8::read_value(o, chunk(b, (T1::read_width() + T2::read_width() + T3::read_width() + T4::read_width() + T5::read_width() + T6::read_width() + T7::read_width()) as int, T8::read_width())),
            T9::read_value(o, chunk(b, (T1::read_width() + T2::read_width() + T3::read_width() + T4::read_width() + T5::read_width() + T6::read_width() + T7::read_width() + T8::read_width()) as int, T9::read_width())),
            T10::read_value(o, chunk(b, (T1::read_width() + T2::read_width() + T3::read_width() + T4::read_width() + T5::read_width() + T6::read_width() + T7::read_width() + T8::read_width() + T9::read_width()) as int, T10::read_width())),
        )
    }

    open spec fn fill_value() -> Self {
        (T1::fill_value(), T2::fill_value(), T3::fill_value(), T4::fill_value(), T5::fill_value(), T6::fill_value(), T7::fill_value(), T8::fill_value(), T9::fill_value(), T10::fill_value())
    }

    fn fill() -> (r: Self) {
        (T1::fill(), T2::fill(), T3::fill(), T4::fill(), T5::fill(), T6::fill(), T7::fill(), T8::fill(), T9::fill(), T10::fill())
    }

    #[verifier::spinoff_prover]
    #[verifier::rlimit(100)]
    fn unpack_from(o: ByteOrder, src: &mut Source) -> (r: Result<Self, UnpackError>) {
        let ghost start = *src;
        let ghost w = Self::read_width();
        let ghost s0 = *src;
        proof {
            assert(s0.rest() =~= start.rest().skip(0));
        }
        let x0 = match T1::unpack_from(o, src) {
            Ok(v) => v,
            Err(e) => {
                return Err(e);
            },
        };
        proof {
            Source::lemma_rest_advance(s0, *src, T1::read_width());
            assert(src.rest() =~= start.rest().skip((T1::read_width()) as int));
            assert(x0 == T1::read_value(o, chunk(start.rest(), 0, T1::read_width())));
        }
        let ghost s1 = *src;
        let x1 = match T2::unpack_from(o, src) {
            Ok(v) => v,
            Err(e) => {
                return Err(e);
            },
        };
        proof {
            Source::lemma_rest_advance(s1, *src, T2::read_width());
            assert(src.rest() =~= start.rest().skip((T1::read_width() + T2::read_width()) as int));
            assert(x1 == T2::read_value(o, chunk(start.rest(), (T1::read_width()) as int, T2::read_width())));
        }
        let ghost s2 = *src;
        let x2 = match T3::unpack_from(o, src) {
            Ok(v) => v,
            Err(e) => {
                return Err(e);
            },
        };
        proof {
            Source::lemma_rest_advance(s2, *src, T3::read_width());
            assert(src.rest() =~= start.rest().skip((T1::read_width() + T2::read_width() + T3::read_width()) as int));
            assert(x2 == T3::read_value(o, chunk(start.rest(), (T1::read_width() + T2::read_width()) as int, T3::read_width())));
        }
        let ghost s3 = *src;
        let x3 = match T4::unpack_from(o, src) {
            Ok(v) => v,
            Err(e) => {
                return Err(e);
            },
        };
        proof {
            Source::lemma_rest_advance(s3, *src, T4::read_width());
            assert(src.rest() =~= start.rest().skip((T1::read_width() + T2::read_width() + T3::read_width() + T4::read_width()) as int));
            assert(x3 == T4::read_value(o, chunk(start.rest(), (T1::read_width() + T2::read_width() + T3::read_width()) as int, T4::read_width())));
        }
        let ghost s4 = *src;
        let x4 = match T5::unpack_from(o, src) {
            Ok(v) => v,
            Err(e) => {
                return Err(e);
            },
        };
        proof {
            Source::lemma_rest_advance(s4, *src, T5::read_width());
            assert(src.rest() =~= start.rest().skip((T1::read_width() + T2::read_width() + T3::read_width() + T4::read_width() + T5::read_width()) as int));
            assert(x4 == T5::read_value(o, chunk(start.rest(), (T1::read_width() + T2::read_width() + T3::read_width() + T4::read_width()) as int, T5::read_width())));
        }
        let ghost s5 = *src;
        let x5 = match T6::unpack_from(o, src) {
            Ok(v) => v,
            Err(e) => {
                return Err(e);
            },
        };
        proof {
            Source::lemma_rest_advance(s5, *src, T6::read_width());
            assert(src.rest() =~= start.rest().skip((T1::read_width() + T2::read_width() + T3::read_width() + T4::read_width() + T5::read_width() + T6::read_width()) as int));
            assert(x5 == T6::read_value(o, chunk(start.rest(), (T1::read_width() + T2::read_width() + T3::read_width() + T4::read_width() + T5::read_width()) as int, T6::read_width())));
        }
        let ghost s6 = *src;
        let x6 = match T7::unpack_from(o, src) {
            Ok(v) => v,
            Err(e) => {
                return Err(e);
            },
        };
        proof {
            Source::lemma_rest_advance(s6, *src, T7::read_width());
            assert(src.rest() =~= start.rest().skip((T1::read_width() + T2::read_width() + T3::read_width() + T4::read_width() + T5::read_width() + T6::read_width() + T7::read_width()) as int));
            assert(x6 == T7::read_value(o, chunk(start.rest(), (T1::read_width() + T2::read_width() + T3::read_width() + T4::read_width() + T5::read_width() + T6::read_width()) as int, T7::read_width())));
        }
        let ghost s7 = *src;
        let x7 = match T8::unpack_from(o, src) {
            Ok(v) => v,
            Err(e) => {
                return Err(e);
            },
        };
        proof {
            Source::lemma_rest_advance(s7, *src, T8::read_width());
            assert(src.rest() =~= start.rest().skip((T1::read_width() + T2::read_width() + T3::read_width() + T4::read_width() + T5::read_width() + T6::read_width() + T7::read_width() + T8::read_width()) as int));
            assert(x7 == T8::read_value(o, chunk(start.rest(), (T1::read_width() + T2::read_width() + T3::read_width() + T4::read_width() + T5::read_width() + T6::read_width() + T7::read_width()) as int, T8::read_width())));
        }
        let ghost s8 = *src;
        let x8 = match T9::unpack_from(o, src) {
            Ok(v) => v,
            Err(e) => {
                return Err(e);
            },
        };
        proof {
            Source::lemma_rest_advance(s8, *src, T9::read_width());
            assert(src.rest() =~= start.rest().skip((T1::read_width() + T2::read_width() + T3::read_width() + T4::read_width() + T5::read_width() + T6::read_width() + T7::read_width() + T8::read_width() + T9::read_width()) as int));
            assert(x8 == T9::read_value(o, chunk(start.rest(), (T1::read_width() + T2::read_width() + T3::read_width() + T4::read_width() + T5::read_width() + T6::read_width() + T7::read_width() + T8::read_width()) as int, T9::read_width())));
        }
        let ghost s9 = *src;
        let x9 = match T10::unpack_from(o, src) {
            Ok(v) => v,
            Err(e) => {
                return Err(e);
            },
        };
        proof {
            Source::lemma_rest_advance(s9, *src, T10::read_width());
            assert(src.rest() =~= start.rest().skip((T1::read_width() + T2::read_width() + T3::read_width() + T4::read_width() + T5::read_width() + T6::read_width() + T7::read_width() + T8::read_width() + T9::read_width() + T10::read_width()) as int));
            assert(x9 == T10::read_value(o, chunk(start.rest(), (T1::read_width() + T2::read_width() + T3::read_width() + T4::read_width() + T5::read_width() + T6::read_width() + T7::read_width() + T8::read_width() + T9::read_width()) as int, T10::read_width())));
        }
        proof {
            lemma_chunk_of_take(start.rest(), w as int, 0, T1::read_width());
            lemma_chunk_of_take(start.rest(), w as int, (T1::read_width()) as int, T2::read_width());
            lemma_chunk_of_take(start.rest(), w as int, (T1::read_width() + T2::read_width()) as int, T3::read_width());
            lemma_chunk_of_take(start.rest(), w as int, (T1::read_width() + T2::read_width() + T3::read_width()) as int, T4::read_width());
            lemma_chunk_of_take(start.rest(), w as int, (T1::read_width() + T2::read_width() + T3::read_width() + T4::read_width()) as int, T5::read_width());
            lemma_chunk_of_take(start.rest(), w as int, (T1::read_width() + T2::read_width() + T3::read_width() + T4::read_width() + T5::read_width()) as int, T6::read_width());
            lemma_chunk_of_take(start.rest(), w as int, (T1::read_width() + T2::read_width() + T3::read_width() + T4::read_width() + T5::read_width() + T6::read_width()) as int, T7::read_width());
            lemma_chunk_of_take(start.rest(), w as int, (T1::read_width() + T2::read_width() + T3::read_width() + T4::read_width() + T5::read_width() + T6::read_width() + T7::read_width()) as int, T8::read_width());
            lemma_chunk_of_take(start.rest(), w as int, (T1::read_width() + T2::read_width() + T3::read_width() + T4::read_width() + T5::read_width() + T6::read_width() + T7::read_width() + T8::read_width()) as int, T9::read_width());
            lemma_chunk_of_take(start.rest(), w as int, (T1::read_width() + T2::read_width() + T3::read_width() + T4::read_width() + T5::read_width() + T6::read_width() + T7::read_width() + T8::read_width() + T9::read_width()) as int, T10::read_width());
        }
        Ok((x0, x1, x2, x3, x4, x5, x6, x7, x8, x9))
    }
}

impl<T1: UnpackFrom, T2: UnpackFrom, T3: UnpackFrom, T4: UnpackFrom, T5: UnpackFrom, T6: UnpackFrom, T7: UnpackFrom, T8: UnpackFrom, T9: UnpackFrom, T10: UnpackFrom, T11: UnpackFrom> UnpackFrom for (T1, T2, T3, T4, T5, T6, T7, T8, T9, T10, T11) {
    open spec fn read_width() -> nat {
        T1::read_width() + T2::read_width() + T3::read_width() + T4::read_width() + T5::read_width() + T6::read_width() + T7::read_width() + T8::read_width() + T9::read_width() + T10::read_width() + T11::read_width()
    }

    open spec fn read_value(o: ByteOrder, b: Seq<u8>) -> Self {
        (
            T1::read_value(o, chunk(b, 0, T1::read_width())),
            T2::read_value(o, chunk(b, (T1::read_width()) as int, T2::read_width())),
            T3::read_value(o, chunk(b, (T1::read_width() + T2::read_width()) as int, T3::read_width())),
            T4::read_value(o, chunk(b, (T1::read_width() + T2::read_width() + T3::read_width()) as int, T4::read_width())),
            T5::read_value(o, chunk(b, (T1::read_width() + T2::read_width() + T3::read_width() + T4::read_width()) as int, T5::read_width())),
            T6::read_value(o, chunk(b, (T1::read_width() + T2::read_width() + T3::read_width() + T4::read_width() + T5::read_width()) as int, T6::read_width())),
            T7::read_value(o, chunk(b, (T1::read_width() + T2::read_width() + T3::read_width() + T4::read_width() + T5::read_width() + T6::read_width()) as int, T7::read_width())),
            T8::read_value(o, chunk(b, (T1::read_width() + T2::read_width() + T3::read_width() + T4::read_width() + T5::read_width() + T6::read_width() + T7::read_width()) as int, T8::read_width())),
            T9::read_value(o, chunk(b, (T1::read_width() + T2::read_width() + T3::read_width() + T4::read_width() + T5::read_width() + T6::read_width() + T7::read_width() + T8::read_width()) as int, T9::read_width())),
            T10::read_value(o, chunk(b, (T1::read_width() + T2::read_width() + T3::read_width() + T4::read_width() + T5::read_width() + T6::read_width() + T7::read_width() + T8::read_width() + T9::read_width()) as int, T10::read_width())),
            T11::read_value(o, chunk(b, (T1::read_width() + T2::read_width() + T3::read_width() + T4::read_width() + T5::read_width() + T6::read_width() + T7::read_width() + T8::read_width() + T9::read_width() + T10::read_width()) as int, T11::read_width())),
        )
    }

    open spec fn fill_value() -> Self {
        (T1::fill_value(), T2::fill_value(), T3::fill_value(), T4::fill_value(), T5::fill_value(), T6::fill_value(), T7::fill_value(), T8::fill_value(), T9::fill_value(), T10::fill_value(), T11::fill_value())
    }

    fn fill() -> (r: Self) {
        (T1::fill(), T2::fill(), T3::fill(), T4::fill(), T5::fill(), T6::fill(), T7::fill(), T8::fill(), T9::fill(), T10::fill(), T11::fill())
    }

    #[verifier::spinoff_prover]
    #[verifier::rlimit(100)]
    fn unpack_from(o: ByteOrder, src: &mut Source) -> (r: Result<Self, UnpackError>) {
        let ghost start = *src;
        let ghost w = Self::read_width();
        let ghost s0 = *src;
        proof {
            assert(s0.rest() =~= start.rest().skip(0));
        }
        let x0 = match T1::unpack_from(o, src) {
            Ok(v) => v,
            Err(e) => {
                return Err(e);
            },
        };
        proof {
            Source::lemma_rest_advance(s0, *src, T1::read_width());
            assert(src.rest() =~= start.rest().skip((T1::read_width()) as int));
            assert(x0 == T1::read_value(o, chunk(start.rest(), 0, T1::read_width())));
        }
        let ghost s1 = *src;
        let x1 = match T2::unpack_from(o, src) {
            Ok(v) => v,
            Err(e) => {
                return Err(e);
            },
        };
        proof {
            Source::lemma_rest_advance(s1, *src, T2::read_width());
            assert(src.rest() =~= start.rest().skip((T1::read_width() + T2::read_width()) as int));
            assert(x1 == T2::read_value(o, chunk(start.rest(), (T1::read_width()) as int, T2::read_width())));
        }
        let ghost s2 = *src;
        let x2 = match T3::unpack_from(o, src) {
            Ok(v) => v,
            Err(e) => {
                return Err(e);
            },
        };
        proof {
            Source::lemma_rest_advance(s2, *src, T3::read_width());
            assert(src.rest() =~= start.rest().skip((T1::read_width() + T2::read_width() + T3::read_width()) as int));
            assert(x2 == T3::read_value(o, chunk(start.rest(), (T1::read_width() + T2::read_width()) as int, T3::read_width())));
        }
        let ghost s3 = *src;
        let x3 = match T4::unpack_from(o, src) {
            Ok(v) => v,
            Err(e) => {
                return Err(e);
            },
        };
        proof {
            Source::lemma_rest_advance(s3, *src, T4::read_width());
            assert(src.rest() =~= start.rest().skip((T1::read_width() + T2::read_width() + T3::read_width() + T4::read_width()) as int));
            assert(x3 == T4::read_value(o, chunk(start.rest(), (T1::read_width() + T2::read_width() + T3::read_width()) as int, T4::read_width())));
        }
        let ghost s4 = *src;
        let x4 = match T5::unpack_from(o, src) {
            Ok(v) => v,
            Err(e) => {
                return Err(e);
            },
        };
        proof {
            Source::lemma_rest_advance(s4, *src, T5::read_width());
            assert(src.rest() =~= start.rest().skip((T1::read_width() + T2::read_width() + T3::read_width() + T4::read_width() + T5::read_width()) as int));
            assert(x4 == T5::read_value(o, chunk(start.rest(), (T1::read_width() + T2::read_width() + T3::read_width() + T4::read_width()) as int, T5::read_width())));
        }
        let ghost s5 = *src;
        let x5 = match T6::unpack_from(o, src) {
            Ok(v) => v,
            Err(e) => {
                return Err(e);
            },
        };
        proof {
            Source::lemma_rest_advance(s5, *src, T6::read_width());
            assert(src.rest() =~= start.rest().skip((T1::read_width() + T2::read_width() + T3::read_width() + T4::read_width() + T5::read_width() + T6::read_width()) as int));
            assert(x5 == T6::read_value(o, chunk(start.rest(), (T1::read_width() + T2::read_width() + T3::read_width() + T4::read_width() + T5::read_width()) as int, T6::read_width())));
        }
        let ghost s6 = *src;
        let x6 = match T7::unpack_from(o, src) {
            Ok(v) => v,
            Err(e) => {
                return Err(e);
            },
        };
        proof {
            Source::lemma_rest_advance(s6, *src, T7::read_width());
            assert(src.rest() =~= start.rest().skip((T1::read_width() + T2::read_width() + T3::read_width() + T4::read_width() + T5::read_width() + T6::read_width() + T7::read_width()) as int));
            assert(x6 == T7::read_value(o, chunk(start.rest(), (T1::read_width() + T2::read_width() + T3::read_width() + T4::read_width() + T5::read_width() + T6::read_width()) as int, T7::read_width())));
        }
        let ghost s7 = *src;
        let x7 = match T8::unpack_from(o, src) {
            Ok(v) => v,
            Err(e) => {
                return Err(e);
            },
        };
        proof {
            Source::lemma_rest_advance(s7, *src, T8::read_width());
            assert(src.rest() =~= start.rest().skip((T1::read_width() + T2::read_width() + T3::read_width() + T4::read_width() + T5::read_width() + T6::read_width() + T7::read_width() + T8::read_width()) as int));
            assert(x7 == T8::read_value(o, chunk(start.rest(), (T1::read_width() + T2::read_width() + T3::read_width() + T4::read_width() + T5::read_width() + T6::read_width() + T7::read_width()) as int, T8::read_width())));
        }
        let ghost s8 = *src;
        let x8 = match T9::unpack_from(o, src) {
            Ok(v) => v,
            Err(e) => {
                return Err(e);
            },
        };
        proof {
            Source::lemma_rest_advance(s8, *src, T9::read_width());
            assert(src.rest() =~= start.rest().skip((T1::read_width() + T2::read_width() + T3::read_width() + T4::read_width() + T5::read_width() + T6::read_width() + T7::read_width() + T8::read_width() + T9::read_width()) as int));
            assert(x8 == T9::read_value(o, chunk(start.rest(), (T1::read_width() + T2::read_width() + T3::read_width() + T4::read_width() + T5::read_width() + T6::read_width() + T7::read_width() + T8::read_width()) as int, T9::read_width())));
        }
        let ghost s9 = *src;
        let x9 = match T10::unpack_from(o, src) {
            Ok(v) => v,
            Err(e) => {
                return Err(e);
            },
        };
        proof {
            Source::lemma_rest_advance(s9, *src, T10::read_width());
            assert(src.rest() =~= start.rest().skip((T1::read_width() + T2::read_width() + T3::read_width() + T4::read_width() + T5::read_width() + T6::read_width() + T7::read_width() + T8::read_width() + T9::read_width() + T10::read_width()) as int));
            assert(x9 == T10::read_value(o, chunk(start.rest(), (T1::read_width() + T2::read_width() + T3::read_width() + T4::read_width() + T5::read_width() + T6::read_width() + T7::read_width() + T8::read_width() + T9::read_width()) as int, T10::read_width())));
        }
        let ghost s10 = *src;
        let x10 = match T11::unpack_from(o, src) {
            Ok(v) => v,
            Err(e) => {
                return Err(e);
            },
        };
        proof {
            Source::lemma_rest_advance(s10, *src, T11::read_width());
            assert(src.rest() =~= start.rest().skip((T1::read_width() + T2::read_width() + T3::read_width() + T4::read_width() + T5::read_width() + T6::read_width() + T7::read_width() + T8::read_width() + T9::read_width() + T10::read_width() + T11::read_width()) as int));
            assert(x10 == T11::read_value(o, chunk(start.rest(), (T1::read_width() + T2::read_width() + T3::read_width() + T4::read_width() + T5::read_width() + T6::read_width() + T7::read_width() + T8::read_width() + T9::read_width() + T10::read_width()) as int, T11::read_width())));
        }
        proof {
            lemma_chunk_of_take(start.rest(), w as int, 0, T1::read_width());
            lemma_chunk_of_take(start.rest(), w as int, (T1::read_width()) as int, T2::read_width());
            lemma_chunk_of_take(start.rest(), w as int, (T1::read_width() + T2::read_width()) as int, T3::read_width());
            lemma_chunk_of_take(start.rest(), w as int, (T1::read_width() + T2::read_width() + T3::read_width()) as int, T4::read_width());
            lemma_chunk_of_take(start.rest(), w as int, (T1::read_width() + T2::read_width() + T3::read_width() + T4::read_width()) as int, T5::read_width());
            lemma_chunk_of_take(start.rest(), w as int, (T1::read_width() + T2::read_width() + T3::read_width() + T4::read_width() + T5::read_width()) as int, T6::read_width());
            lemma_chunk_of_take(start.rest(), w as int, (T1::read_width() + T2::read_width() + T3::read_width() + T4::read_width() + T5::read_width() + T6::read_width()) as int, T7::read_width());
            lemma_chunk_of_take(start.rest(), w as int, (T1::read_width() + T2::read_width() + T3::read_width() + T4::read_width() + T5::read_width() + T6::read_width() + T7::read_width()) as int, T8::read_width());
            lemma_chunk_of_take(start.rest(), w as int, (T1::read_width() + T2::read_width() + T3::read_width() + T4::read_width() + T5::read_width() + T6::read_width() + T7::read_width() + T8::read_width()) as int, T9::read_width());
            lemma_chunk_of_take(start.rest(), w as int, (T1::read_width() + T2::read_width() + T3::read_width() + T4::read_width() + T5::read_width() + T6::read_width() + T7::read_width() + T8::read_width() + T9::read_width()) as int, T10::read_width());
            lemma_chunk_of_take(start.rest(), w as int, (T1::read_width() + T2::read_width() + T3::read_width() + T4::read_width() + T5::read_width() + T6::read_width() + T7::read_width() + T8::read_width() + T9::read_width() + T10::read_width()) as int, T11::read_width());
        }
        Ok((x0, x1, x2, x3, x4, x5, x6, x7, x8, x9, x10))
    }
}

impl<T1: UnpackFrom, T2: UnpackFrom, T3: UnpackFrom, T4: UnpackFrom, T5: UnpackFrom, T6: UnpackFrom, T7: UnpackFrom, T8: UnpackFrom, T9: UnpackFrom, T10: UnpackFrom, T11: UnpackFrom, T12: UnpackFrom> UnpackFrom for (T1, T2, T3, T4, T5, T6, T7, T8, T9, T10, T11, T12) {
    open spec fn read_width() -> nat {
        T1::read_width() + T2::read_width() + T3::read_width() + T4::read_width() + T5::read_width() + T6::read_width() + T7::read_width() + T8::read_width() + T9::read_width() + T10::read_width() + T11::read_width() + T12::read_width()
    }

    open spec fn read_value(o: ByteOrder, b: Seq<u8>) -> Self {
        (
            T1::read_value(o, chunk(b, 0, T1::read_width())),
            T2::read_value(o, chunk(b, (T1::read_width()) as int, T2::read_width())),
            T3::read_value(o, chunk(b, (T1::read_width() + T2::read_width()) as int, T3::read_width())),
            T4::read_value(o, chunk(b, (T1::read_width() + T2::read_width() + T3::read_width()) as int, T4::read_width())),
            T5::read_value(o, chunk(b, (T1::read_width() + T2::read_width() + T3::read_width() + T4::read_width()) as int, T5::read_width())),
            T6::read_value(o, chunk(b, (T1::read_width() + T2::read_width() + T3::read_width() + T4::read_width() + T5::read_width()) as int, T6::read_width())),
            T7::read_value(o, chunk(b, (T1::read_width() + T2::read_width() + T3::read_width() + T4::read_width() + T5::read_width() + T6::read_width()) as int, T7::read_width())),
            T8::read_value(o, chunk(b, (T1::read_width() + T2::read_width() + T3::read_width() + T4::read_width() + T5::read_width() + T6::read_width() + T7::read_width()) as int, T8::read_width())),
            T9::read_value(o, chunk(b, (T1::read_width() + T2::read_width() + T3::read_width() + T4::read_width() + T5::read_width() + T6::read_width() + T7::read_width() + T8::read_width()) as int, T9::read_width())),
            T10::read_value(o, chunk(b, (T1::read_width() + T2::read_width() + T3::read_width() + T4::read_width() + T5::read_width() + T6::read_width() + T7::read_width() + T8::read_width() + T9::read_width()) as int, T10::read_width())),
            T11::read_value(o, chunk(b, (T1::read_width() + T2::read_width() + T3::read_width() + T4::read_width() + T5::read_width() + T6::read_width() + T7::read_width() + T8::read_width() + T9::read_width() + T10::read_width()) as int, T11::read_width())),
            T12::read_value(o, chunk(b, (T1::read_width() + T2::read_width() + T3::read_width() + T4::read_width() + T5::read_width() + T6::read_width() + T7::read_width() + T8::read_width() + T9::read_width() + T10::read_width() + T11::read_width()) as int, T12::read_width())),
        )
    }

    open spec fn fill_value() -> Self {
        (T1::fill_value(), T2::fill_value(), T3::fill_value(), T4::fill_value(), T5::fill_value(), T6::fill_value(), T7::fill_value(), T8::fill_value(), T9::fill_value(), T10::fill_value(), T11::fill_value(), T12::fill_value())
    }

    fn fill() -> (r: Self) {
        (T1::fill(), T2::fill(), T3::fill(), T4::fill(), T5::fill(), T6::fill(), T7::fill(), T8::fill(), T9::fill(), T10::fill(), T11::fill(), T12::fill())
    }

    #[verifier::spinoff_prover]
    #[verifier::rlimit(100)]
    fn unpack_from(o: ByteOrder, src: &mut Source) -> (r: Result<Self, UnpackError>) {
        let ghost start = *src;
        let ghost w = Self::read_width();
        let ghost s0 = *src;
        proof {
            assert(s0.rest() =~= start.rest().skip(0));
        }
        let x0 = match T1::unpack_from(o, src) {
            Ok(v) => v,
            Err(e) => {
                return Err(e);
            },
        };
        proof {
            Source::lemma_rest_advance(s0, *src, T1::read_width());
            assert(src.rest() =~= start.rest().skip((T1::read_width()) as int));
            assert(x0 == T1::read_value(o, chunk(start.rest(), 0, T1::read_width())));
        }
        let ghost s1 = *src;
        let x1 = match T2::unpack_from(o, src) {
            Ok(v) => v,
            Err(e) => {
                return Err(e);
            },
        };
        proof {
            Source::lemma_rest_advance(s1, *src, T2::read_width());
            assert(src.rest() =~= start.rest().skip((T1::read_width() + T2::read_width()) as int));
            assert(x1 == T2::read_value(o, chunk(start.rest(), (T1::read_width()) as int, T2::read_width())));
        }
        let ghost s2 = *src;
        let x2 = match T3::unpack_from(o, src) {
            Ok(v) => v,
            Err(e) => {
                return Err(e);
            },
        };
        proof {
            Source::lemma_rest_advance(s2, *src, T3::read_width());
            assert(src.rest() =~= start.rest().skip((T1::read_width() + T2::read_width() + T3::read_width()) as int));
            assert(x2 == T3::read_value(o, chunk(start.rest(), (T1::read_width() + T2::read_width()) as int, T3::read_width())));
        }
        let ghost s3 = *src;
        let x3 = match T4::unpack_from(o, src) {
            Ok(v) => v,
            Err(e) => {
                return Err(e);
            },
        };
        proof {
            Source::lemma_rest_advance(s3, *src, T4::read_width());
            assert(src.rest() =~= start.rest().skip((T1::read_width() + T2::read_width() + T3::read_width() + T4::read_width()) as int));
            assert(x3 == T4::read_value(o, chunk(start.rest(), (T1::read_width() + T2::read_width() + T3::read_width()) as int, T4::read_width())));
        }
        let ghost s4 = *src;
        let x4 = match T5::unpack_from(o, src) {
            Ok(v) => v,
            Err(e) => {
                return Err(e);
            },
        };
        proof {
            Source::lemma_rest_advance(s4, *src, T5::read_width());
            assert(src.rest() =~= start.rest().skip((T1::read_width() + T2::read_width() + T3::read_width() + T4::read_width() + T5::read_width()) as int));
            assert(x4 == T5::read_value(o, chunk(start.rest(), (T1::read_width() + T2::read_width() + T3::read_width() + T4::read_width()) as int, T5::read_width())));
        }
        let ghost s5 = *src;
        let x5 = match T6::unpack_from(o, src) {
            Ok(v) => v,
            Err(e) => {
                return Err(e);
            },
        };
        proof {
            Source::lemma_rest_advance(s5, *src, T6::read_width());
            assert(src.rest() =~= start.rest().skip((T1::read_width() + T2::read_width() + T3::read_width() + T4::read_width() + T5::read_width() + T6::read_width()) as int));
            assert(x5 == T6::read_value(o, chunk(start.rest(), (T1::read_width() + T2::read_width() + T3::read_width() + T4::read_width() + T5::read_width()) as int, T6::read_width())));
        }
        let ghost s6 = *src;
        let x6 = match T7::unpack_from(o, src) {
            Ok(v) => v,
            Err(e) => {
                return Err(e);
            },
        };
        proof {
            Source::lemma_rest_advance(s6, *src, T7::read_width());
            assert(src.rest() =~= start.rest().skip((T1::read_width() + T2::read_width() + T3::read_width() + T4::read_width() + T5::read_width() + T6::read_width() + T7::read_width()) as int));
            assert(x6 == T7::read_value(o, chunk(start.rest(), (T1::read_width() + T2::read_width() + T3::read_width() + T4::read_width() + T5::read_width() + T6::read_width()) as int, T7::read_width())));
        }
        let ghost s7 = *src;
        let x7 = match T8::unpack_from(o, src) {
            Ok(v) => v,
            Err(e) => {
                return Err(e);
            },
        };
        proof {
            Source::lemma_rest_advance(s7, *src, T8::read_width());
            assert(src.rest() =~= start.rest().skip((T1::read_width() + T2::read_width() + T3::read_width() + T4::read_width() + T5::read_width() + T6::read_width() + T7::read_width() + T8::read_width()) as int));
            assert(x7 == T8::read_value(o, chunk(start.rest(), (T1::read_width() + T2::read_width() + T3::read_width() + T4::read_width() + T5::read_width() + T6::read_width() + T7::read_width()) as int, T8::read_width())));
        }
        let ghost s8 = *src;
        let x8 = match T9::unpack_from(o, src) {
            Ok(v) => v,
            Err(e) => {
                return Err(e);
            },
        };
        proof {
            Source::lemma_rest_advance(s8, *src, T9::read_width());
            assert(src.rest() =~= start.rest().skip((T1::read_width() + T2::read_width() + T3::read_width() + T4::read_width() + T5::read_width() + T6::read_width() + T7::read_width() + T8::read_width() + T9::read_width()) as int));
            assert(x8 == T9::read_value(o, chunk(start.rest(), (T1::read_width() + T2::read_width() + T3::read_width() + T4::read_width() + T5::read_width() + T6::read_width() + T7::read_width() + T8::read_width()) as int, T9::read_width())));
        }
        let ghost s9 = *src;
        let x9 = match T10::unpack_from(o, src) {
            Ok(v) => v,
            Err(e) => {
                return Err(e);
            },
        };
        proof {
            Source::lemma_rest_advance(s9, *src, T10::read_width());
            assert(src.rest() =~= start.rest().skip((T1::read_width() + T2::read_width() + T3::read_width() + T4::read_width() + T5::read_width() + T6::read_width() + T7::read_width() + T8::read_width() + T9::read_width() + T10::read_width()) as int));
            assert(x9 == T10::read_value(o, chunk(start.rest(), (T1::read_width() + T2::read_width() + T3::read_width() + T4::read_width() + T5::read_width() + T6::read_width() + T7::read_width() + T8::read_width() + T9::read_width()) as int, T10::read_width())));
        }
        let ghost s10 = *src;
        let x10 = match T11::unpack_from(o, src) {
            Ok(v) => v,
            Err(e) => {
                return Err(e);
            },
        };
        proof {
            Source::lemma_rest_advance(s10, *src, T11::read_width());
            assert(src.rest() =~= start.rest().skip((T1::read_width() + T2::read_width() + T3::read_width() + T4::read_width() + T5::read_width() + T6::read_width() + T7::read_width() + T8::read_width() + T9::read_width() + T10::read_width() + T11::read_width()) as int));
            assert(x10 == T11::read_value(o, chunk(start.rest(), (T1::read_width() + T2::read_width() + T3::read_width() + T4::read_width() + T5::read_width() + T6::read_width() + T7::read_width() + T8::read_width() + T9::read_width() + T10::read_width()) as int, T11::read_width())));
        }
        let ghost s11 = *src;
        let x11 = match T12::unpack_from(o, src) {
            Ok(v) => v,
            Err(e) => {
                return Err(e);
            },
        };
        proof {
            Source::lemma_rest_advance(s11, *src, T12::read_width());
            assert(src.rest() =~= start.rest().skip((T1::read_width() + T2::read_width() + T3::read_width() + T4::read_width() + T5::read_width() + T6::read_width() + T7::read_width() + T8::read_width() + T9::read_width() + T10::read_width() + T11::read_width() + T12::read_width()) as int));
            assert(x11 == T12::read_value(o, chunk(start.rest(), (T1::read_width() + T2::read_width() + T3::read_width() + T4::read_width() + T5::read_width() + T6::read_width() + T7::read_width() + T8::read_width() + T9::read_width() + T10::read_width() + T11::read_width()) as int, T12::read_width())));
        }
        proof {
            lemma_chunk_of_take(start.rest(), w as int, 0, T1::read_width());
            lemma_chunk_of_take(start.rest(), w as int, (T1::read_width()) as int, T2::read_width());
            lemma_chunk_of_take(start.rest(), w as int, (T1::read_width() + T2::read_width()) as int, T3::read_width());
            lemma_chunk_of_take(start.rest(), w as int, (T1::read_width() + T2::read_width() + T3::read_width()) as int, T4::read_width());
            lemma_chunk_of_take(start.rest(), w as int, (T1::read_width() + T2::read_width() + T3::read_width() + T4::read_width()) as int, T5::read_width());
            lemma_chunk_of_take(start.rest(), w as int, (T1::read_width() + T2::read_width() + T3::read_width() + T4::read_width() + T5::read_width()) as int, T6::read_width());
            lemma_chunk_of_take(start.rest(), w as int, (T1::read_width() + T2::read_width() + T3::read_width() + T4::read_width() + T5::read_width() + T6::read_width()) as int, T7::read_width());
            lemma_chunk_of_take(start.rest(), w as int, (T1::read_width() + T2::read_width() + T3::read_width() + T4::read_width() + T5::read_width() + T6::read_width() + T7::read_width()) as int, T8::read_width());
            lemma_chunk_of_take(start.rest(), w as int, (T1::read_width() + T2::read_width() + T3::read_width() + T4::read_width() + T5::read_width() + T6::read_width() + T7::read_width() + T8::read_width()) as int, T9::read_width());
            lemma_chunk_of_take(start.rest(), w as int, (T1::read_width() + T2::read_width() + T3::read_width() + T4::read_width() + T5::read_width() + T6::read_width() + T7::read_width() + T8::read_width() + T9::read_width()) as int, T10::read_width());
            lemma_chunk_of_take(start.rest(), w as int, (T1::read_width() + T2::read_width() + T3::read_width() + T4::read_width() + T5::read_width() + T6::read_width() + T7::read_width() + T8::read_width() + T9::read_width() + T10::read_width()) as int, T11::read_width());
            lemma_chunk_of_take(start.rest(), w as int, (T1::read_width() + T2::read_width() + T3::read_width() + T4::read_width() + T5::read_width() + T6::read_width() + T7::read_width() + T8::read_width() + T9::read_width() + T10::read_width() + T11::read_width()) as int, T12::read_width());
        }
        Ok((x0, x1, x2, x3, x4, x5, x6, x7, x8, x9, x10, x11))
    }
}

} // verus!
