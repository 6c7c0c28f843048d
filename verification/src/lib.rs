//! Negotiation of a GPU rendering context for a window.
//!
//! A negotiation runs six steps in a fixed order: it selects a backend
//! instance, binds a surface to the window, acquires an adapter, acquires a
//! device with its queue, settles the surface's pixel format, and configures
//! the surface. The first step that the platform refuses ends the negotiation
//! with the [`error::BuildError`] of that step.
//!
//! Two of the steps stay with the caller: binding the surface, which is
//! `unsafe` in `wgpu`, and handing the settled configuration to the surface,
//! on which `wgpu` aborts when the driver rejects it. Everything between them
//! is [`builder::RendererStateBuilderWithTarget::negotiate`].

pub mod builder;
pub mod error;
pub mod negotiation;
pub mod platform;
pub mod state;
pub mod surface;
