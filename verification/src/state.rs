//! The rendering context that a negotiation produces.

use std::sync::Arc;
use vstd::prelude::*;
use crate::surface::SurfaceConfiguration;

verus! {

/// A surface together with the configuration that it presents under.
pub struct RendererStateTarget {
    pub surface: wgpu::Surface,
    pub configuration: SurfaceConfiguration,
}

/// A rendering context: the backend instance, the device, which later holders
/// may share, its queue, and the surface that frames are presented to.
pub struct RendererState {
    pub instance: wgpu::Instance,
    /// Shared, so that several holders on several threads can keep the device.
    pub device: Arc<wgpu::Device>,
    pub queue: wgpu::Queue,
    pub option_target: Option<RendererStateTarget>,
}

impl RendererStateTarget {
    /// The configuration is one that a surface can be given.
    pub open spec fn wf(self) -> bool {
        self.configuration.wf()
    }
}

impl RendererState {
    /// The target, where there is one, is well formed.
    pub open spec fn wf(self) -> bool {
        self.option_target matches Some(target) ==> target.wf()
    }
}

/// What a negotiation has settled: the handles that it acquired, and the
/// configuration that the surface is to be given. The surface has not been
/// given it yet.
pub struct RendererStateNegotiated {
    pub instance: wgpu::Instance,
    pub device: wgpu::Device,
    pub queue: wgpu::Queue,
    pub surface: wgpu::Surface,
    pub configuration: SurfaceConfiguration,
}

impl RendererStateNegotiated {
    /// Makes the rendering context, once the surface has been given the
    /// configuration: the surface and the configuration become its target,
    /// and the device becomes shared.
    pub fn configured(self) -> (r: RendererState)
        requires
            self.configuration.wf(),
        ensures
            r.wf(),
            r.instance == self.instance,
            *r.device == self.device,
            r.queue == self.queue,
            r.option_target == Some(
                RendererStateTarget { surface: self.surface, configuration: self.configuration },
            ),
    {
        RendererState {
            instance: self.instance,
            device: Arc::new(self.device),
            queue: self.queue,
            option_target: Some(
                RendererStateTarget { surface: self.surface, configuration: self.configuration },
            ),
        }
    }
}

} // verus!
