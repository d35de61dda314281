use vstd::prelude::*;

verus! {

/// A specific physical device lacks required queue families.
/// Recoverable: the device selector skips the candidate and goes on.
#[derive(Clone, Copy, Debug)]
pub struct SuitabilityError(pub &'static str);

/// Diagnostics were requested but the driver does not offer the expected
/// validation layer. Fatal at startup.
#[derive(Clone, Copy, Debug, PartialEq, Eq, Structural)]
pub struct ConfigurationError;

/// No enumerated physical device passed the suitability checks.
/// Fatal at startup.
#[derive(Clone, Copy, Debug, PartialEq, Eq, Structural)]
pub struct NoSuitableDeviceError;

/// Why one candidate device was rejected during selection.
#[derive(Clone, Copy, Debug, PartialEq, Eq, Structural)]
pub enum DeviceRejection {
    /// The device name does not contain the required vendor tag.
    WrongVendor,
    /// The device lacks a graphics-capable family or a present-capable family.
    MissingQueueFamilies,
}

} // verus!
