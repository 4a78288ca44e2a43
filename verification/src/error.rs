use vstd::prelude::*;

verus! {

/// The GPU resource whose creation failed, named so that a fatal error
/// identifies the failing call site.
#[derive(Clone, Copy, Debug, PartialEq, Eq, Structural)]
pub enum ResourceKind {
    Factory,
    Device,
    Swapchain,
    RenderTargetView,
    DepthStencilView,
    VertexShader,
    InputLayout,
    PixelShader,
    VertexBuffer,
    IndexBuffer,
}

/// Every failure the core can report. All of them are fatal: a half-built
/// pipeline cannot safely render, and silently skipping data would produce
/// wrong geometry.
#[derive(Clone, Copy, Debug, PartialEq, Eq, Structural)]
pub enum Error {
    /// Device, swapchain, view, shader or buffer creation failed.
    ResourceCreationFailure(ResourceKind),
    /// An index element width or a vertex attribute channel the core does
    /// not implement.
    UnsupportedFormat,
    /// A mesh document with a dangling reference, a missing buffer view,
    /// an out-of-range byte window, or no index data at all.
    MalformedDocument,
    /// The swapchain refused to present the finished frame.
    PresentFailure,
}

} // verus!
