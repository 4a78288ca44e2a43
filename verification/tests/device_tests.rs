use render_core::AlphaMode;
use render_core::DepthBufferConfig;
use render_core::DeviceResources;
use render_core::Error;
use render_core::InputSemantic;
use render_core::PixelFormat;
use render_core::ResourceKind;
use render_core::ScalingMode;
use render_core::SwapEffect;
use render_core::DEFAULT_HEIGHT;
use render_core::DEFAULT_WIDTH;
use render_core::depth_buffer_config;
use render_core::device_request;
use render_core::input_element_config;
use render_core::swapchain_config;
use render_core::viewport_config;

type TestResources = DeviceResources<i32, i32, i32, i32, i32, i32, i32, i32, i32>;

fn all_parts() -> [Option<i32>; 9] {
    [Some(1), Some(2), Some(3), Some(4), Some(5), Some(6), Some(7), Some(8), Some(9)]
}

fn assemble(parts: [Option<i32>; 9]) -> Result<TestResources, Error> {
    let [factory, device, context, swapchain, rtv, dsv, vs, il, ps] = parts;
    DeviceResources::from_parts(
        factory,
        device,
        context,
        swapchain,
        viewport_config(),
        rtv,
        dsv,
        vs,
        il,
        ps,
    )
}

#[test]
fn construction_with_every_part_succeeds() {
    let d = assemble(all_parts()).expect("all parts present");
    assert_eq!(d.factory, 1);
    assert_eq!(d.device, 2);
    assert_eq!(d.context, 3);
    assert_eq!(d.swapchain, 4);
    assert_eq!(d.rtv, 5);
    assert_eq!(d.dsv, 6);
    assert_eq!(d.vs, 7);
    assert_eq!(d.il, 8);
    assert_eq!(d.ps, 9);
    assert_eq!(d.viewport, viewport_config());
}

#[test]
fn construction_fails_atomically_naming_each_part() {
    let kinds = [
        ResourceKind::Factory,
        ResourceKind::Device,
        ResourceKind::Device,
        ResourceKind::Swapchain,
        ResourceKind::RenderTargetView,
        ResourceKind::DepthStencilView,
        ResourceKind::VertexShader,
        ResourceKind::InputLayout,
        ResourceKind::PixelShader,
    ];
    for (i, kind) in kinds.iter().enumerate() {
        let mut parts = all_parts();
        parts[i] = None;
        match assemble(parts) {
            Ok(_) => panic!("a missing part must fail the whole construction"),
            Err(e) => assert_eq!(e, Error::ResourceCreationFailure(*kind)),
        }
    }
}

#[test]
fn first_failing_step_is_named() {
    let mut parts = all_parts();
    parts[3] = None; // swapchain
    parts[8] = None; // pixel shader
    assert!(matches!(
        assemble(parts),
        Err(Error::ResourceCreationFailure(ResourceKind::Swapchain))
    ));
}

#[test]
fn swapchain_description_values() {
    let c = swapchain_config();
    assert_eq!(c.width, DEFAULT_WIDTH);
    assert_eq!(c.height, DEFAULT_HEIGHT);
    assert_eq!((c.width, c.height), (1280, 720));
    assert_eq!(c.format, PixelFormat::B8G8R8A8Unorm);
    assert!(!c.stereo);
    assert_eq!(c.sample_count, 1);
    assert_eq!(c.sample_quality, 0);
    assert!(c.render_target_usage);
    assert_eq!(c.buffer_count, 2);
    assert_eq!(c.scaling, ScalingMode::Unscaled);
    assert_eq!(c.swap_effect, SwapEffect::FlipDiscard);
    assert_eq!(c.alpha_mode, AlphaMode::Ignore);
    assert_eq!(c.flags, 0);
}

#[test]
fn depth_buffer_description_values() {
    let c: DepthBufferConfig = depth_buffer_config();
    assert_eq!((c.width, c.height), (DEFAULT_WIDTH, DEFAULT_HEIGHT));
    assert_eq!(c.mip_levels, 1);
    assert_eq!(c.array_size, 1);
    assert_eq!(c.format, PixelFormat::D24UnormS8Uint);
    assert_eq!((c.sample_count, c.sample_quality), (1, 0));
    assert!(c.depth_stencil_binding);
}

#[test]
fn viewport_covers_back_buffer_with_unit_depth() {
    let c = viewport_config();
    assert_eq!((c.top_left_x, c.top_left_y), (0, 0));
    assert_eq!((c.width, c.height), (DEFAULT_WIDTH, DEFAULT_HEIGHT));
    assert_eq!(c.min_depth_bits, 0.0f32.to_bits());
    assert_eq!(c.max_depth_bits, 1.0f32.to_bits());
}

#[test]
fn input_layout_names_one_position_element() {
    let c = input_element_config();
    assert_eq!(c.semantic, InputSemantic::Position);
    assert_eq!(c.semantic_index, 0);
    assert_eq!(c.format, PixelFormat::R32G32B32Float);
    assert_eq!(c.input_slot, 0);
    assert_eq!(c.aligned_byte_offset, 0);
    assert!(c.per_vertex);
    assert_eq!(c.instance_step_rate, 0);
}

#[test]
fn device_request_asks_for_hardware_debug_and_bgra() {
    let r = device_request();
    assert!(r.hardware);
    assert!(r.debug_layer);
    assert!(r.bgra_support);
    assert!(r.factory_debug);
}
