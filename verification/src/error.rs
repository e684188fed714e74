use vstd::prelude::*;

verus! {

/// Failure of an encode: the byte destination rejected a write.
#[derive(Clone, Copy, PartialEq, Eq, Structural, Debug)]
pub enum PackError {
    /// The sink had less room left than the value's wire form needs.
    SinkFull,
}

/// Failure of a decode: the byte origin could not supply a read.
#[derive(Clone, Copy, PartialEq, Eq, Structural, Debug)]
pub enum UnpackError {
    /// The source held fewer bytes than the value's wire form needs.
    ShortRead,
}

} // verus!
