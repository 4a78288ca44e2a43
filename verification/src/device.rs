use vstd::prelude::*;
use crate::error::Error;
use crate::error::ResourceKind;
use crate::frame::ONE_BITS;
use crate::model::ZERO_BITS;

verus! {

/// Fixed pixel width of the window surface in this scope.
pub const DEFAULT_WIDTH: u32 = 1280;

/// Fixed pixel height of the window surface in this scope.
pub const DEFAULT_HEIGHT: u32 = 720;

/// The pixel formats this core asks of the GPU.
#[derive(Clone, Copy, Debug, PartialEq, Eq, Structural)]
pub enum PixelFormat {
    /// 8-bit blue, green, red, alpha; the back-buffer format.
    B8G8R8A8Unorm,
    /// Combined 24-bit depth and 8-bit stencil; the depth-buffer format.
    D24UnormS8Uint,
    /// Three 32-bit float components; the position channel format.
    R32G32B32Float,
}

/// How the swap chain hands finished frames to the surface. Only the
/// flip-discard presentation model is used.
#[derive(Clone, Copy, Debug, PartialEq, Eq, Structural)]
pub enum SwapEffect {
    FlipDiscard,
}

/// How the back buffer is scaled to the surface. Never scaled here.
#[derive(Clone, Copy, Debug, PartialEq, Eq, Structural)]
pub enum ScalingMode {
    Unscaled,
}

/// How the surface's alpha channel is composed. Ignored here.
#[derive(Clone, Copy, Debug, PartialEq, Eq, Structural)]
pub enum AlphaMode {
    Ignore,
}

/// How the logical device is created: hardware acceleration with
/// validation instrumentation and extended color-format support.
#[derive(Clone, Copy, Debug, PartialEq, Eq, Structural)]
pub struct DeviceRequest {
    pub hardware: bool,
    pub debug_layer: bool,
    pub bgra_support: bool,
    pub factory_debug: bool,
}

/// The swap chain asked of the surface: double-buffered, single-sampled,
/// non-stereo, flip-discard, unscaled, alpha ignored.
#[derive(Clone, Copy, Debug, PartialEq, Eq, Structural)]
pub struct SwapchainConfig {
    pub width: u32,
    pub height: u32,
    pub format: PixelFormat,
    pub stereo: bool,
    pub sample_count: u32,
    pub sample_quality: u32,
    pub render_target_usage: bool,
    pub buffer_count: u32,
    pub scaling: ScalingMode,
    pub swap_effect: SwapEffect,
    pub alpha_mode: AlphaMode,
    pub flags: u32,
}

/// The depth buffer allocated beside the back buffer: same size, no mip
/// levels, single slice, single sample, bound as depth-stencil.
#[derive(Clone, Copy, Debug, PartialEq, Eq, Structural)]
pub struct DepthBufferConfig {
    pub width: u32,
    pub height: u32,
    pub mip_levels: u32,
    pub array_size: u32,
    pub format: PixelFormat,
    pub sample_count: u32,
    pub sample_quality: u32,
    pub depth_stencil_binding: bool,
}

/// The viewport: the full back-buffer rectangle with the unit depth
/// range. The depth bounds are 32-bit float bit patterns.
#[derive(Clone, Copy, Debug, PartialEq, Eq, Structural)]
pub struct ViewportConfig {
    pub top_left_x: u32,
    pub top_left_y: u32,
    pub width: u32,
    pub height: u32,
    pub min_depth_bits: u32,
    pub max_depth_bits: u32,
}

/// The named input channels a vertex layout can bind.
#[derive(Clone, Copy, Debug, PartialEq, Eq, Structural)]
pub enum InputSemantic {
    Position,
}

/// The single vertex input element: a three-component 32-bit-float
/// position at offset zero, stepped per vertex.
#[derive(Clone, Copy, Debug, PartialEq, Eq, Structural)]
pub struct InputElementConfig {
    pub semantic: InputSemantic,
    pub semantic_index: u32,
    pub format: PixelFormat,
    pub input_slot: u32,
    pub aligned_byte_offset: u32,
    pub per_vertex: bool,
    pub instance_step_rate: u32,
}

pub open spec fn spec_device_request() -> DeviceRequest {
    DeviceRequest { hardware: true, debug_layer: true, bgra_support: true, factory_debug: true }
}

pub open spec fn spec_swapchain_config() -> SwapchainConfig {
    SwapchainConfig {
        width: DEFAULT_WIDTH,
        height: DEFAULT_HEIGHT,
        format: PixelFormat::B8G8R8A8Unorm,
        stereo: false,
        sample_count: 1,
        sample_quality: 0,
        render_target_usage: true,
        buffer_count: 2,
        scaling: ScalingMode::Unscaled,
        swap_effect: SwapEffect::FlipDiscard,
        alpha_mode: AlphaMode::Ignore,
        flags: 0,
    }
}

pub open spec fn spec_depth_buffer_config() -> DepthBufferConfig {
    DepthBufferConfig {
        width: DEFAULT_WIDTH,
        height: DEFAULT_HEIGHT,
        mip_levels: 1,
        array_size: 1,
        format: PixelFormat::D24UnormS8Uint,
        sample_count: 1,
        sample_quality: 0,
        depth_stencil_binding: true,
    }
}

pub open spec fn spec_viewport_config() -> ViewportConfig {
    ViewportConfig {
        top_left_x: 0,
        top_left_y: 0,
        width: DEFAULT_WIDTH,
        height: DEFAULT_HEIGHT,
        min_depth_bits: ZERO_BITS,
        max_depth_bits: ONE_BITS,
    }
}

pub open spec fn spec_input_element_config() -> InputElementConfig {
    InputElementConfig {
        semantic: InputSemantic::Position,
        semantic_index: 0,
        format: PixelFormat::R32G32B32Float,
        input_slot: 0,
        aligned_byte_offset: 0,
        per_vertex: true,
        instance_step_rate: 0,
    }
}

/// How the factory, device and context are to be created.
pub fn device_request() -> (c: DeviceRequest)
    ensures
        c == spec_device_request(),
{
    DeviceRequest { hardware: true, debug_layer: true, bgra_support: true, factory_debug: true }
}

/// The swap-chain description bound to the window surface.
pub fn swapchain_config() -> (c: SwapchainConfig)
    ensures
        c == spec_swapchain_config(),
{
    SwapchainConfig {
        width: DEFAULT_WIDTH,
        height: DEFAULT_HEIGHT,
        format: PixelFormat::B8G8R8A8Unorm,
        stereo: false,
        sample_count: 1,
        sample_quality: 0,
        render_target_usage: true,
        buffer_count: 2,
        scaling: ScalingMode::Unscaled,
        swap_effect: SwapEffect::FlipDiscard,
        alpha_mode: AlphaMode::Ignore,
        flags: 0,
    }
}

/// The description of the depth texture allocated for the depth-stencil
/// view.
pub fn depth_buffer_config() -> (c: DepthBufferConfig)
    ensures
        c == spec_depth_buffer_config(),
{
    DepthBufferConfig {
        width: DEFAULT_WIDTH,
        height: DEFAULT_HEIGHT,
        mip_levels: 1,
        array_size: 1,
        format: PixelFormat::D24UnormS8Uint,
        sample_count: 1,
        sample_quality: 0,
        depth_stencil_binding: true,
    }
}

/// The viewport covering the full back buffer with the unit depth range.
pub fn viewport_config() -> (c: ViewportConfig)
    ensures
        c == spec_viewport_config(),
{
    ViewportConfig {
        top_left_x: 0,
        top_left_y: 0,
        width: DEFAULT_WIDTH,
        height: DEFAULT_HEIGHT,
        min_depth_bits: ZERO_BITS,
        max_depth_bits: ONE_BITS,
    }
}

/// The input-layout element fed to the vertex shader's signature.
pub fn input_element_config() -> (c: InputElementConfig)
    ensures
        c == spec_input_element_config(),
{
    InputElementConfig {
        semantic: InputSemantic::Position,
        semantic_index: 0,
        format: PixelFormat::R32G32B32Float,
        input_slot: 0,
        aligned_byte_offset: 0,
        per_vertex: true,
        instance_step_rate: 0,
    }
}

/// The GPU resource lifecycle manager: every handle a frame needs, owned
/// together. The handle types are whatever the GPU layer supplies; the
/// core only guarantees they are all present at once.
pub struct DeviceResources<F, D, C, S, R, V, VS, PS, IL> {
    pub device: D,
    pub context: C,
    pub swapchain: S,
    pub factory: F,
    pub viewport: ViewportConfig,
    pub dsv: V,
    pub rtv: R,
    pub vs: VS,
    pub ps: PS,
    pub il: IL,
}

/// The creation step that failed first, in the order the steps run:
/// factory, device with its context, swapchain, render-target view,
/// depth-stencil view, vertex shader, input layout, pixel shader.
pub open spec fn first_missing_part(
    factory_ok: bool,
    device_ok: bool,
    context_ok: bool,
    swapchain_ok: bool,
    rtv_ok: bool,
    dsv_ok: bool,
    vs_ok: bool,
    il_ok: bool,
    ps_ok: bool,
) -> ResourceKind {
    if !factory_ok {
        ResourceKind::Factory
    } else if !device_ok || !context_ok {
        ResourceKind::Device
    } else if !swapchain_ok {
        ResourceKind::Swapchain
    } else if !rtv_ok {
        ResourceKind::RenderTargetView
    } else if !dsv_ok {
        ResourceKind::DepthStencilView
    } else if !vs_ok {
        ResourceKind::VertexShader
    } else if !il_ok {
        ResourceKind::InputLayout
    } else {
        ResourceKind::PixelShader
    }
}

impl<F, D, C, S, R, V, VS, PS, IL> DeviceResources<F, D, C, S, R, V, VS, PS, IL> {
    /// Assemble the resources from the outcome of each creation step:
    /// all-or-nothing. Every step must have yielded its object, in which
    /// case the result owns exactly those objects; otherwise the whole
    /// construction fails naming the first step that did not, and no
    /// partially-initialized instance exists.
    pub fn from_parts(
        factory: Option<F>,
        device: Option<D>,
        context: Option<C>,
        swapchain: Option<S>,
        viewport: ViewportConfig,
        rtv: Option<R>,
        dsv: Option<V>,
        vs: Option<VS>,
        il: Option<IL>,
        ps: Option<PS>,
    ) -> (r: Result<Self, Error>)
        ensures
            r is Ok <==> (factory is Some && device is Some && context is Some
                && swapchain is Some && rtv is Some && dsv is Some && vs is Some && il is Some
                && ps is Some),
            r matches Ok(d) ==> Some(d.factory) == factory && Some(d.device) == device && Some(
                d.context,
            ) == context && Some(d.swapchain) == swapchain && d.viewport == viewport && Some(d.rtv)
                == rtv && Some(d.dsv) == dsv && Some(d.vs) == vs && Some(d.il) == il && Some(d.ps)
                == ps,
            r matches Err(e) ==> e == Error::ResourceCreationFailure(
                first_missing_part(
                    factory is Some,
                    device is Some,
                    context is Some,
                    swapchain is Some,
                    rtv is Some,
                    dsv is Some,
                    vs is Some,
                    il is Some,
                    ps is Some,
                ),
            ),
    {
        let factory = match factory {
            Some(x) => x,
            None => {
                return Err(Error::ResourceCreationFailure(ResourceKind::Factory));
            },
        };
        let device = match device {
            Some(x) => x,
            None => {
                return Err(Error::ResourceCreationFailure(ResourceKind::Device));
            },
        };
        let context = match context {
            Some(x) => x,
            None => {
                return Err(Error::ResourceCreationFailure(ResourceKind::Device));
            },
        };
        let swapchain = match swapchain {
            Some(x) => x,
            None => {
                return Err(Error::ResourceCreationFailure(ResourceKind::Swapchain));
            },
        };
        let rtv = match rtv {
            Some(x) => x,
            None => {
                return Err(Error::ResourceCreationFailure(ResourceKind::RenderTargetView));
            },
        };
        let dsv = match dsv {
            Some(x) => x,
            None => {
                return Err(Error::ResourceCreationFailure(ResourceKind::DepthStencilView));
            },
        };
        let vs = match vs {
            Some(x) => x,
            None => {
                return Err(Error::ResourceCreationFailure(ResourceKind::VertexShader));
            },
        };
        let il = match il {
            Some(x) => x,
            None => {
                return Err(Error::ResourceCreationFailure(ResourceKind::InputLayout));
            },
        };
        let ps = match ps {
            Some(x) => x,
            None => {
                return Err(Error::ResourceCreationFailure(ResourceKind::PixelShader));
            },
        };
        Ok(DeviceResources { device, context, swapchain, factory, viewport, dsv, rtv, vs, ps, il })
    }
}

} // verus!
