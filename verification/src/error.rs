//! The ways in which a negotiation ends without a rendering context.

use vstd::prelude::*;

verus! {

/// Why a negotiation produced nothing. Each kind belongs to one step, and no
/// kind carries a resource: after a failure nothing of the negotiation is left.
#[derive(Clone, Copy, Debug, PartialEq, Eq, Structural)]
pub enum BuildError {
    /// No adapter is compatible with the bound surface under the requested
    /// power preference.
    NoCompatibleAdapter,
    /// The adapter cannot grant the requested features and limits, or the
    /// driver refused to create the device.
    DeviceRequestRefused,
    /// The surface reports no pixel format under the adapter.
    NoSupportedSurfaceFormat,
}

} // verus!
