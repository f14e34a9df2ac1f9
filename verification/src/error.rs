use vstd::prelude::*;

verus! {

/// Why an operation on a cell failed.
#[derive(Clone, Copy, Debug, PartialEq, Eq, Structural)]
pub enum CellError {
    /// The remote endpoint was refused or could not be reached, or a remote
    /// write did not succeed. A cell that cannot do what is asked of it gives
    /// this error too: one whose handle was given up, asked for a listener or
    /// for a write, and one whose listener was never started, asked for a
    /// write.
    Connection,
    /// A value could not be encoded, or a payload could not be decoded.
    Serialization,
}

} // verus!
