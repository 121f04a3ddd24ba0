//! Error taxonomy of the protocol layer.

use vstd::prelude::*;

verus! {

/// Everything that can go wrong around the protocol layer. No operation
/// is retried automatically: every device write is attempted exactly once
/// per triggered change.
#[derive(Clone, Copy, PartialEq, Eq, Structural, Debug)]
pub enum ProtocolError {
    /// One or both device endpoints could not be opened for writing.
    /// Fatal to the whole session, surfaced once at startup; the protocol
    /// layer must not run with only one endpoint available.
    DeviceUnavailable,
    /// A frame write did not complete in one full write. Fatal to that
    /// single operation: a short write leaves hardware state undefined,
    /// so it must be surfaced, never silently retried.
    WriteFailure,
    /// A state snapshot could not be saved. Non-fatal: the hardware write
    /// that already happened stands, and hardware and persisted state may
    /// diverge.
    PersistenceFailure,
    /// A persisted snapshot is unreadable. Recovered by substituting the
    /// default state, never fatal to startup.
    ConfigCorrupt,
}

} // verus!
