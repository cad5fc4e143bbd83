use vstd::prelude::*;

verus! {

/// The ways in which a loader operation can fail.
#[derive(Clone, Copy, Debug, PartialEq, Eq, Structural)]
pub enum LoaderError {
    /// A firmware call reported a nonzero status.
    DeviceError,
    /// A seek, narrowing or read fell outside the addressed region.
    RangeError,
    /// A signature was wrong, or a file or partition is missing.
    FormatError,
    /// A fixed-capacity table or buffer has no room left.
    CapacityError,
    /// The trampoline was used out of its lifecycle order.
    StateError,
    /// The hardware cannot be brought into the state the boot needs.
    FatalHardwareError,
}

} // verus!
