use vstd::prelude::*;

verus! {

/// Which end of a multi-byte scalar is written first.
///
/// The order is chosen once at the top-level encode or decode call and is
/// handed unchanged to every nested component; it is never re-decided per
/// field.  Single-byte scalars have the same wire form under either order.
#[derive(Clone, Copy, PartialEq, Eq, Structural, Debug)]
pub enum ByteOrder {
    /// Most-significant byte first.
    Big,
    /// Least-significant byte first.
    Little,
}

/// `b` laid out under order `o`: little-endian byte sequences are kept as
/// they are, big-endian ones are the exact reversal.
pub open spec fn oriented(b: Seq<u8>, o: ByteOrder) -> Seq<u8> {
    match o {
        ByteOrder::Big => b.reverse(),
        ByteOrder::Little => b,
    }
}

/// Reverses the byte orientation: turns a little-endian block into the wire
/// form for order `o`, and equally turns a wire block under `o` back into
/// little-endian form.
pub fn orient(b: Vec<u8>, o: ByteOrder) -> (r: Vec<u8>)
    ensures
        r@ == oriented(b@, o),
{
    match o {
        ByteOrder::Big => reverse_bytes(&b),
        ByteOrder::Little => b,
    }
}

/// A copy of `b` with its bytes in the opposite order.
fn reverse_bytes(b: &Vec<u8>) -> (r: Vec<u8>)
    ensures
        r@ == b@.reverse(),
{
    let mut out: Vec<u8> = Vec::new();
    let mut i: usize = b.len();
    while i > 0
        invariant
            i <= b@.len(),
            out@.len() == b@.len() - i,
            forall|j: int| 0 <= j < out@.len() ==> out@[j] == b@[b@.len() - 1 - j],
        decreases i,
    {
        i = i - 1;
        out.push(b[i]);
    }
    proof {
        assert(out@ =~= b@.reverse());
    }
    out
}

} // verus!
