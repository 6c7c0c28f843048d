//! What a negotiation comes to, as a function of what the platform answers.
//!
//! The requests of a negotiation go out in a fixed order, and each goes out
//! only if the one before it was granted. [`negotiated`] states the result for
//! every combination of answers; the laws below it are proved of that
//! statement, and `RendererStateBuilderWithTarget::negotiate` is proved to
//! return what it gives for some answers.

use vstd::prelude::*;
use crate::error::BuildError;
use crate::surface::{
    configuration_for, preferred_format, Dimension, SurfaceConfiguration, RENDER_ATTACHMENT,
};

verus! {

/// What the platform answers to the requests of one negotiation.
pub ghost struct PlatformAnswers {
    /// An adapter is compatible with the bound surface under the requested
    /// power preference.
    pub adapter_found: bool,
    /// The adapter grants a device with the requested features and limits.
    pub device_granted: bool,
    /// The pixel formats that the surface supports under the adapter, in the
    /// driver's order of preference.
    pub formats: Seq<wgpu::TextureFormat>,
    /// The size that the window has when the surface is configured.
    pub size: Dimension,
}

/// The configuration that a negotiation settles on, or the failure of the
/// first step that the platform refused.
pub open spec fn negotiated(
    present_mode: wgpu::PresentMode,
    alpha_mode: wgpu::CompositeAlphaMode,
    answers: PlatformAnswers,
) -> Result<SurfaceConfiguration, BuildError> {
    if !answers.adapter_found {
        Err(BuildError::NoCompatibleAdapter)
    } else if !answers.device_granted {
        Err(BuildError::DeviceRequestRefused)
    } else {
        match preferred_format(answers.formats) {
            Ok(format) => Ok(configuration_for(format, answers.size, present_mode, alpha_mode)),
            Err(error) => Err(error),
        }
    }
}

/// Ends the negotiation where the platform found no adapter.
pub fn require_adapter(found: Option<wgpu::Adapter>) -> (r: Result<wgpu::Adapter, BuildError>)
    ensures
        r == match found {
            Some(adapter) => Ok::<wgpu::Adapter, BuildError>(adapter),
            None => Err(BuildError::NoCompatibleAdapter),
        },
{
    match found {
        Some(adapter) => Ok(adapter),
        None => Err(BuildError::NoCompatibleAdapter),
    }
}

/// Ends the negotiation where the adapter granted no device.
pub fn require_device(
    granted: Result<(wgpu::Device, wgpu::Queue), wgpu::RequestDeviceError>,
) -> (r: Result<(wgpu::Device, wgpu::Queue), BuildError>)
    ensures
        r == match granted {
            Ok(pair) => Ok::<(wgpu::Device, wgpu::Queue), BuildError>(pair),
            Err(_) => Err(BuildError::DeviceRequestRefused),
        },
{
    match granted {
        Ok(pair) => Ok(pair),
        Err(_) => Err(BuildError::DeviceRequestRefused),
    }
}

/// Where the platform has an adapter, a device and at least one format, the
/// negotiation succeeds, and the surface is configured as wide and as high as
/// the window is at that moment.
pub proof fn lemma_surface_takes_window_size(
    present_mode: wgpu::PresentMode,
    alpha_mode: wgpu::CompositeAlphaMode,
    answers: PlatformAnswers,
)
    requires
        answers.adapter_found,
        answers.device_granted,
        answers.formats.len() > 0,
    ensures
        negotiated(present_mode, alpha_mode, answers) matches Ok(configuration) && {
            &&& configuration.width == answers.size.horizontal
            &&& configuration.height == answers.size.vertical
        },
{
}

/// Without an adapter the negotiation ends as `NoCompatibleAdapter`, whatever
/// the platform would have answered to the later requests: no device, queue
/// or configuration comes of it.
pub proof fn lemma_no_adapter_ends_negotiation(
    present_mode: wgpu::PresentMode,
    alpha_mode: wgpu::CompositeAlphaMode,
    answers: PlatformAnswers,
)
    requires
        !answers.adapter_found,
    ensures
        negotiated(present_mode, alpha_mode, answers) == Err::<SurfaceConfiguration, BuildError>(
            BuildError::NoCompatibleAdapter,
        ),
{
}

/// With an adapter that grants no device the negotiation ends as
/// `DeviceRequestRefused`, whatever the surface supports: the failure holds
/// nothing of the surface.
pub proof fn lemma_refused_device_ends_negotiation(
    present_mode: wgpu::PresentMode,
    alpha_mode: wgpu::CompositeAlphaMode,
    answers: PlatformAnswers,
)
    requires
        answers.adapter_found,
        !answers.device_granted,
    ensures
        negotiated(present_mode, alpha_mode, answers) == Err::<SurfaceConfiguration, BuildError>(
            BuildError::DeviceRequestRefused,
        ),
{
}

/// With an adapter and a device the negotiation settles on the first format
/// of a list that is not empty, whatever follows it in the list, and ends as
/// `NoSupportedSurfaceFormat` on the empty list.
pub proof fn lemma_first_format_is_selected(
    present_mode: wgpu::PresentMode,
    alpha_mode: wgpu::CompositeAlphaMode,
    answers: PlatformAnswers,
)
    requires
        answers.adapter_found,
        answers.device_granted,
    ensures
        answers.formats.len() > 0 ==> (negotiated(present_mode, alpha_mode, answers) matches Ok(
            configuration,
        ) && configuration.format == answers.formats[0]),
        answers.formats.len() == 0 ==> negotiated(present_mode, alpha_mode, answers) == Err::<
            SurfaceConfiguration,
            BuildError,
        >(BuildError::NoSupportedSurfaceFormat),
{
}

/// Two negotiations that ask for the same modes, and get the same answers on
/// the adapter, the device and the formats, end alike: both fail with the same
/// error, or both succeed with the same format, present mode, alpha mode and
/// usage. The window may have changed its size in between; where it has not,
/// the two configurations are equal.
pub proof fn lemma_repeated_negotiation_agrees(
    present_mode: wgpu::PresentMode,
    alpha_mode: wgpu::CompositeAlphaMode,
    first: PlatformAnswers,
    second: PlatformAnswers,
)
    requires
        first.adapter_found == second.adapter_found,
        first.device_granted == second.device_granted,
        first.formats == second.formats,
    ensures
        match (
            negotiated(present_mode, alpha_mode, first),
            negotiated(present_mode, alpha_mode, second),
        ) {
            (Ok(a), Ok(b)) => {
                &&& a.format == b.format
                &&& a.present_mode == b.present_mode
                &&& a.alpha_mode == b.alpha_mode
                &&& a.usage == b.usage
                &&& first.size == second.size ==> a == b
            },
            (Err(a), Err(b)) => a == b,
            _ => false,
        },
{
}

/// A negotiation fails exactly where the platform refuses a request, and
/// where it succeeds, the surface presents in the modes that were asked for
/// and is rendered to. What it settles on can be given to a surface exactly
/// if the window has an area.
pub proof fn lemma_negotiation_fails_where_refused(
    present_mode: wgpu::PresentMode,
    alpha_mode: wgpu::CompositeAlphaMode,
    answers: PlatformAnswers,
)
    ensures
        negotiated(present_mode, alpha_mode, answers) is Err <==> !answers.adapter_found
            || !answers.device_granted || answers.formats.len() == 0,
        negotiated(present_mode, alpha_mode, answers) matches Ok(configuration) ==> {
            &&& configuration.present_mode == present_mode
            &&& configuration.alpha_mode == alpha_mode
            &&& configuration.usage == RENDER_ATTACHMENT
            &&& configuration.wf() <==> answers.size.has_area()
        },
{
}

} // verus!
