use render_core::Error;
use render_core::IndexFormat;
use render_core::Model;
use render_core::Phase;
use render_core::RenderCommand;
use render_core::Topology;
use render_core::WindowEvent;
use render_core::check_present;
use render_core::handle_event;
use render_core::paint_commands;
use render_core::ESCAPE_CODE;
use render_core::ONE_BITS;
use render_core::VERTEX_STRIDE;

#[test]
fn one_bits_is_float_one() {
    assert_eq!(ONE_BITS, 1.0f32.to_bits());
}

#[test]
fn paint_sequence_for_default_triangle() {
    let m = Model::default_triangle();
    let cmds = paint_commands(&m);
    assert_eq!(cmds.len(), 12);
    assert_eq!(
        cmds[0],
        RenderCommand::ClearDepth { depth_bits: 1.0f32.to_bits(), stencil: 0 }
    );
    assert_eq!(
        cmds[1],
        RenderCommand::ClearTarget {
            r_bits: 1.0f32.to_bits(),
            g_bits: 0.0f32.to_bits(),
            b_bits: 1.0f32.to_bits(),
            a_bits: 1.0f32.to_bits(),
        }
    );
    assert_eq!(cmds[2], RenderCommand::BindVertexShader);
    assert_eq!(cmds[3], RenderCommand::BindPixelShader);
    assert_eq!(cmds[4], RenderCommand::BindInputLayout);
    assert_eq!(cmds[5], RenderCommand::SetTopology { topology: Topology::TriangleList });
    assert_eq!(cmds[6], RenderCommand::BindRenderTargets);
    assert_eq!(cmds[7], RenderCommand::SetViewports);
    assert_eq!(
        cmds[8],
        RenderCommand::BindVertexBuffer { stride: VERTEX_STRIDE, offset: 0 }
    );
    assert_eq!(
        cmds[9],
        RenderCommand::BindIndexBuffer { format: IndexFormat::Full, offset: 0 }
    );
    assert_eq!(cmds[10], RenderCommand::DrawIndexed { count: 3, start: 0, base_vertex: 0 });
    assert_eq!(cmds[11], RenderCommand::Present { sync_interval: 1 });
}

#[test]
fn paint_issues_each_step_once_in_order() {
    let m = Model::default_triangle();
    let r = handle_event(Phase::Idle, WindowEvent::Paint, &m);
    assert!(matches!(r.next, Phase::Idle));
    assert!(!r.quit);
    let clears_depth: Vec<usize> = positions(&r.commands, |c| {
        matches!(c, RenderCommand::ClearDepth { .. })
    });
    let clears_target: Vec<usize> = positions(&r.commands, |c| {
        matches!(c, RenderCommand::ClearTarget { .. })
    });
    let draws: Vec<usize> = positions(&r.commands, |c| {
        matches!(c, RenderCommand::DrawIndexed { .. })
    });
    let presents: Vec<usize> = positions(&r.commands, |c| {
        matches!(c, RenderCommand::Present { .. })
    });
    assert_eq!(clears_depth.len(), 1);
    assert_eq!(clears_target.len(), 1);
    assert_eq!(draws.len(), 1);
    assert_eq!(presents.len(), 1);
    assert!(clears_depth[0] < clears_target[0]);
    assert!(clears_target[0] < draws[0]);
    assert!(draws[0] < presents[0]);
}

fn positions(cmds: &[RenderCommand], pred: impl Fn(&RenderCommand) -> bool) -> Vec<usize> {
    let mut out = Vec::new();
    for (i, c) in cmds.iter().enumerate() {
        if pred(c) {
            out.push(i);
        }
    }
    out
}

#[test]
fn repeated_paints_produce_identical_frames() {
    let m = Model::default_triangle();
    let first = handle_event(Phase::Idle, WindowEvent::Paint, &m);
    let second = handle_event(first.next, WindowEvent::Paint, &m);
    assert_eq!(first.commands, second.commands);
    assert!(matches!(second.next, Phase::Idle));
}

#[test]
fn destroy_closes_and_quits() {
    let m = Model::default_triangle();
    let r = handle_event(Phase::Idle, WindowEvent::Destroy, &m);
    assert!(matches!(r.next, Phase::Closed));
    assert!(r.quit);
    assert!(r.commands.is_empty());
}

#[test]
fn paint_after_close_issues_nothing() {
    let m = Model::default_triangle();
    let closed = handle_event(Phase::Idle, WindowEvent::Destroy, &m);
    let r = handle_event(closed.next, WindowEvent::Paint, &m);
    assert!(matches!(r.next, Phase::Closed));
    assert!(r.commands.is_empty());
    assert!(!r.quit);
}

#[test]
fn escape_key_requests_quit() {
    let m = Model::default_triangle();
    let r = handle_event(Phase::Idle, WindowEvent::KeyDown { code: ESCAPE_CODE }, &m);
    assert!(r.quit);
    assert!(r.commands.is_empty());
    assert!(matches!(r.next, Phase::Idle));
}

#[test]
fn other_keys_are_ignored() {
    let m = Model::default_triangle();
    let r = handle_event(Phase::Idle, WindowEvent::KeyDown { code: 0x41 }, &m);
    assert!(!r.quit);
    assert!(r.commands.is_empty());
}

#[test]
fn unrelated_events_are_ignored() {
    let m = Model::default_triangle();
    let r = handle_event(Phase::Idle, WindowEvent::Other, &m);
    assert!(!r.quit);
    assert!(r.commands.is_empty());
    assert!(matches!(r.next, Phase::Idle));
}

#[test]
fn failed_present_is_fatal() {
    assert_eq!(check_present(false), Err(Error::PresentFailure));
    assert_eq!(check_present(true), Ok(()));
}
