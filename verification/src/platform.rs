//! The boundary to `wgpu`, `winit` and `pollster`.
//!
//! The handles and option values of `wgpu` and `winit` are carried as they
//! are: nothing in this library looks inside one. What the platform answers
//! to a request differs from machine to machine, so the requests below
//! promise nothing of what they return, and the functions that call them are
//! proved for every answer.
//!
//! `wgpu` finds a surface and an adapter among those of the instance that
//! made them, and aborts on a handle of another instance. No contract here
//! can tell the instances of two handles apart: that the handles of one call
//! belong together is the caller's to keep, and
//! `RendererStateBuilderWithTarget::negotiate` keeps it for all but the
//! surface that it is given.

use vstd::prelude::*;
use crate::surface::Dimension;

verus! {

/// `wgpu::Instance`: the handle to the backends that were loaded.
#[verifier::external_type_specification]
#[verifier::external_body]
pub struct ExInstance(wgpu::Instance);

/// `wgpu::Surface`: the handle to what a window presents.
#[verifier::external_type_specification]
#[verifier::external_body]
pub struct ExSurface(wgpu::Surface);

/// `wgpu::Adapter`: the handle to a GPU with its driver.
#[verifier::external_type_specification]
#[verifier::external_body]
pub struct ExAdapter(wgpu::Adapter);

/// `wgpu::Device`: the handle to an open connection to an adapter.
#[verifier::external_type_specification]
#[verifier::external_body]
pub struct ExDevice(wgpu::Device);

/// `wgpu::Queue`: the handle to the queue that a device executes.
#[verifier::external_type_specification]
#[verifier::external_body]
pub struct ExQueue(wgpu::Queue);

/// `wgpu::RequestDeviceError`: an adapter's refusal to open a device.
#[verifier::external_type_specification]
#[verifier::external_body]
pub struct ExRequestDeviceError(wgpu::RequestDeviceError);

/// `wgpu::Backends`: a set of backends.
#[verifier::external_type_specification]
#[verifier::external_body]
pub struct ExBackends(wgpu::Backends);

/// `wgpu::Features`: a set of features that a device is to have.
#[verifier::external_type_specification]
#[verifier::external_body]
pub struct ExFeatures(wgpu::Features);

/// `wgpu::Limits`: the limits that a device is to grant.
#[verifier::external_type_specification]
#[verifier::external_body]
pub struct ExLimits(wgpu::Limits);

/// `wgpu::PowerPreference`: which adapter to prefer.
#[verifier::external_type_specification]
#[verifier::external_body]
pub struct ExPowerPreference(wgpu::PowerPreference);

/// `wgpu::PresentMode`: how frames are timed against the display.
#[verifier::external_type_specification]
#[verifier::external_body]
pub struct ExPresentMode(wgpu::PresentMode);

/// `wgpu::CompositeAlphaMode`: how the alpha channel is composited.
#[verifier::external_type_specification]
#[verifier::external_body]
pub struct ExCompositeAlphaMode(wgpu::CompositeAlphaMode);

/// `wgpu::TextureFormat`: a pixel format.
#[verifier::external_type_specification]
#[verifier::external_body]
pub struct ExTextureFormat(wgpu::TextureFormat);

/// `winit::window::Window`: a window of the platform.
#[verifier::external_type_specification]
#[verifier::external_body]
pub struct ExWindow(winit::window::Window);

/// Calls `wgpu::Instance::new`, which loads each backend of `backends` that
/// the machine offers and leaves out the others. Nothing is claimed of the
/// instance.
#[verifier::external_body]
pub(crate) fn create_instance(backends: wgpu::Backends) -> wgpu::Instance {
    wgpu::Instance::new(backends)
}

/// Calls `wgpu::Instance::request_adapter` for an adapter that can present to
/// `surface`, a surface of `instance`, and waits for the answer with
/// `pollster::block_on`. Nothing is claimed of the answer: `None` stands for
/// "no such adapter", and which adapter comes otherwise is the platform's
/// choice.
#[verifier::external_body]
pub(crate) fn request_adapter(
    instance: &wgpu::Instance,
    power_preference: wgpu::PowerPreference,
    force_fallback_adapter: bool,
    surface: &wgpu::Surface,
) -> Option<wgpu::Adapter> {
    let options = wgpu::RequestAdapterOptions {
        power_preference,
        force_fallback_adapter,
        compatible_surface: Some(surface),
    };
    pollster::block_on(instance.request_adapter(&options))
}

/// Calls `wgpu::Adapter::request_device` with `features` and `limits`, without
/// a label and without a trace path, and waits for the answer with
/// `pollster::block_on`. Nothing is claimed of the answer. `wgpu` documents
/// panics for features and limits that the adapter lacks; its native backend
/// in this version answers each of them with the error instead.
#[verifier::external_body]
pub(crate) fn request_device(
    adapter: &wgpu::Adapter,
    features: wgpu::Features,
    limits: wgpu::Limits,
) -> Result<(wgpu::Device, wgpu::Queue), wgpu::RequestDeviceError> {
    let descriptor = wgpu::DeviceDescriptor { label: None, features, limits };
    pollster::block_on(adapter.request_device(&descriptor, None))
}

/// Calls `wgpu::Surface::get_supported_formats` with an adapter of the
/// instance that bound the surface. `wgpu` lists the formats in the driver's
/// order of preference and gives an empty list for an adapter that cannot
/// present to the surface; nothing is claimed of the list here.
#[verifier::external_body]
pub(crate) fn supported_formats(
    surface: &wgpu::Surface,
    adapter: &wgpu::Adapter,
) -> Vec<wgpu::TextureFormat> {
    surface.get_supported_formats(adapter)
}

/// Calls `winit::window::Window::inner_size` and hands on the width and the
/// height that it reports, in physical pixels. Nothing is claimed of them: a
/// window changes its size at any time, and may have no area at all.
#[verifier::external_body]
pub(crate) fn window_size(window: &winit::window::Window) -> Dimension {
    let size = window.inner_size();
    Dimension { horizontal: size.width, vertical: size.height }
}

} // verus!
