//! What a caller asks of a negotiation, and the negotiation itself.

use vstd::prelude::*;
use crate::error::BuildError;
use crate::negotiation::{negotiated, require_adapter, require_device, PlatformAnswers};
use crate::platform::{
    create_instance, request_adapter, request_device, supported_formats, window_size,
};
use crate::state::RendererStateNegotiated;
use crate::surface::{select_format, Dimension, SurfaceConfiguration, RENDER_ATTACHMENT};

verus! {

/// The window that frames are presented to, and the modes of presenting.
pub struct RendererStateBuilderTarget<'a> {
    pub window: &'a winit::window::Window,
    pub present_mode: wgpu::PresentMode,
    pub alpha_mode: wgpu::CompositeAlphaMode,
}

/// What one negotiation is asked for. A negotiation consumes it.
pub struct RendererStateBuilderWithTarget<'a> {
    pub limits: wgpu::Limits,
    pub backends: wgpu::Backends,
    pub features: wgpu::Features,
    pub power_preference: wgpu::PowerPreference,
    pub target: RendererStateBuilderTarget<'a>,
}

/// The configuration that a negotiation settled on, or its failure.
pub open spec fn settled(result: Result<RendererStateNegotiated, BuildError>) -> Result<
    SurfaceConfiguration,
    BuildError,
> {
    match result {
        Ok(state) => Ok(state.configuration),
        Err(error) => Err(error),
    }
}

impl<'a> RendererStateBuilderWithTarget<'a> {
    /// Selects a backend instance among the backends that the caller accepts.
    /// This cannot fail: an instance without any backend is an instance too,
    /// and no adapter will be found through it.
    pub fn select_instance(&self) -> wgpu::Instance {
        create_instance(self.backends)
    }

    /// Negotiates a rendering context for `surface`. The caller has bound
    /// `surface` to the window of the target through `instance`, which
    /// [`Self::select_instance`] gave, and keeps the window alive for as long
    /// as the surface. Neither can be tested here: `wgpu` aborts on a surface
    /// that `instance` did not bind.
    ///
    /// The adapter is requested for the surface under the power preference,
    /// never a fallback adapter; the device and its queue are requested from
    /// the adapter with the features and limits; the format is the first that
    /// the surface supports under the adapter; the size is that of the window
    /// after the format was settled. The first request that the platform
    /// refuses ends the negotiation, and then `instance` and `surface` are
    /// dropped with everything that was acquired.
    ///
    /// The result is what [`negotiated`] states for some answers of the
    /// platform. The body shows them to be the answers that came; the
    /// contract cannot, since what the platform answers has no name in it. On
    /// success the surface is still to be given the configuration.
    pub fn negotiate(self, instance: wgpu::Instance, surface: wgpu::Surface) -> (r: Result<
        RendererStateNegotiated,
        BuildError,
    >)
        ensures
            exists|answers: PlatformAnswers|
                settled(r) == #[trigger] negotiated(
                    self.target.present_mode,
                    self.target.alpha_mode,
                    answers,
                ),
            r matches Ok(state) ==> {
                &&& state.instance == instance
                &&& state.surface == surface
                &&& state.configuration.usage == RENDER_ATTACHMENT
                &&& state.configuration.present_mode == self.target.present_mode
                &&& state.configuration.alpha_mode == self.target.alpha_mode
            },
    {
        let ghost present_mode = self.target.present_mode;
        let ghost alpha_mode = self.target.alpha_mode;
        let ghost unasked = Dimension { horizontal: 0, vertical: 0 };

        let found = request_adapter(&instance, self.power_preference, false, &surface);
        let adapter = match require_adapter(found) {
            Ok(adapter) => adapter,
            Err(error) => {
                assert(negotiated(
                    present_mode,
                    alpha_mode,
                    PlatformAnswers {
                        adapter_found: false,
                        device_granted: false,
                        formats: Seq::empty(),
                        size: unasked,
                    },
                ) == Err::<SurfaceConfiguration, BuildError>(error));
                return Err(error);
            },
        };

        let granted = request_device(&adapter, self.features, self.limits);
        let (device, queue) = match require_device(granted) {
            Ok(pair) => pair,
            Err(error) => {
                assert(negotiated(
                    present_mode,
                    alpha_mode,
                    PlatformAnswers {
                        adapter_found: true,
                        device_granted: false,
                        formats: Seq::empty(),
                        size: unasked,
                    },
                ) == Err::<SurfaceConfiguration, BuildError>(error));
                return Err(error);
            },
        };

        let formats = supported_formats(&surface, &adapter);
        let format = match select_format(formats.as_slice()) {
            Ok(format) => format,
            Err(error) => {
                assert(negotiated(
                    present_mode,
                    alpha_mode,
                    PlatformAnswers {
                        adapter_found: true,
                        device_granted: true,
                        formats: formats@,
                        size: unasked,
                    },
                ) == Err::<SurfaceConfiguration, BuildError>(error));
                return Err(error);
            },
        };

        let size = window_size(self.target.window);
        let configuration = SurfaceConfiguration::new(
            format,
            size,
            self.target.present_mode,
            self.target.alpha_mode,
        );
        assert(negotiated(
            present_mode,
            alpha_mode,
            PlatformAnswers { adapter_found: true, device_granted: true, formats: formats@, size },
        ) == Ok::<SurfaceConfiguration, BuildError>(configuration));
        Ok(RendererStateNegotiated { instance, device, queue, surface, configuration })
    }
}

} // verus!
