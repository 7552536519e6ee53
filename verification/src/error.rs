use vstd::prelude::*;

verus! {

/// Error kinds surfaced by the simulator core.  Buffer-level errors abort the
/// current cycle and are handed to the caller of the main loop; a hazard
/// denial is not an error but an ordinary stall.
#[derive(Clone, Copy, Debug, PartialEq, Eq, Structural)]
pub enum SimError {
    /// The vector shape violates `vl * sew <= vlen`.
    ConfigInvalid,
    /// A producer event addressed a non-existent input resource.
    IndexOutOfRange,
    /// A consumer event was applied to a buffer pair whose result is unset.
    NoDestination,
    /// A buffer's resource mix is malformed for the requested query.
    BufferStateViolation,
    /// An instruction that the issue logic maps to no functional unit.
    UnsupportedInstruction,
}

} // verus!
