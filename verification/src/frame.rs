use vstd::prelude::*;
use crate::error::Error;
use crate::geometry::IndexFormat;
use crate::geometry::VERTEX_STRIDE;
use crate::model::Model;

verus! {

/// Bit pattern of the 32-bit value one.
pub const ONE_BITS: u32 = 0x3F80_0000;

/// Key code of the escape key, which quits the program.
pub const ESCAPE_CODE: u32 = 0x1B;

/// The only primitive topology this core draws.
#[derive(Clone, Copy, Debug, PartialEq, Eq, Structural)]
pub enum Topology {
    TriangleList,
}

/// One GPU command of a frame, in the order the immediate context receives
/// them. Component values that the GPU takes as 32-bit floating point are
/// carried as bit patterns.
#[derive(Clone, Copy, Debug, PartialEq, Eq, Structural)]
pub enum RenderCommand {
    /// Clear the depth-stencil view to the given depth and stencil.
    ClearDepth { depth_bits: u32, stencil: u8 },
    /// Clear the render-target view to the given color.
    ClearTarget { r_bits: u32, g_bits: u32, b_bits: u32, a_bits: u32 },
    BindVertexShader,
    BindPixelShader,
    BindInputLayout,
    SetTopology { topology: Topology },
    /// Bind the render-target and depth-stencil view pair.
    BindRenderTargets,
    SetViewports,
    /// Bind the model's vertex buffer at the given stride and offset.
    BindVertexBuffer { stride: u32, offset: u32 },
    /// Bind the model's index buffer with its recorded format.
    BindIndexBuffer { format: IndexFormat, offset: u32 },
    /// Issue an indexed draw for the model's recorded index count.
    DrawIndexed { count: u32, start: u32, base_vertex: i32 },
    /// Present the finished frame at the given sync interval.
    Present { sync_interval: u32 },
}

/// The exact command sequence one paint notification produces for a model:
/// clear depth to one and stencil to zero, clear the target to the fixed
/// magenta color, bind the pipeline, bind the model's buffers, draw its
/// recorded index count, and present synchronized to the vertical blank.
pub open spec fn paint_sequence(m: Model) -> Seq<RenderCommand> {
    seq![
        RenderCommand::ClearDepth { depth_bits: ONE_BITS, stencil: 0 },
        RenderCommand::ClearTarget {
            r_bits: ONE_BITS,
            g_bits: 0,
            b_bits: ONE_BITS,
            a_bits: ONE_BITS,
        },
        RenderCommand::BindVertexShader,
        RenderCommand::BindPixelShader,
        RenderCommand::BindInputLayout,
        RenderCommand::SetTopology { topology: Topology::TriangleList },
        RenderCommand::BindRenderTargets,
        RenderCommand::SetViewports,
        RenderCommand::BindVertexBuffer { stride: VERTEX_STRIDE, offset: 0 },
        RenderCommand::BindIndexBuffer { format: m.index_format, offset: 0 },
        RenderCommand::DrawIndexed { count: m.num_indices, start: 0, base_vertex: 0 },
        RenderCommand::Present { sync_interval: 1 },
    ]
}

/// Build the command list one paint notification issues for this model.
pub fn paint_commands(model: &Model) -> (cmds: Vec<RenderCommand>)
    ensures
        cmds@ == paint_sequence(*model),
{
    let mut cmds: Vec<RenderCommand> = Vec::new();
    cmds.push(RenderCommand::ClearDepth { depth_bits: ONE_BITS, stencil: 0 });
    cmds.push(
        RenderCommand::ClearTarget {
            r_bits: ONE_BITS,
            g_bits: 0,
            b_bits: ONE_BITS,
            a_bits: ONE_BITS,
        },
    );
    cmds.push(RenderCommand::BindVertexShader);
    cmds.push(RenderCommand::BindPixelShader);
    cmds.push(RenderCommand::BindInputLayout);
    cmds.push(RenderCommand::SetTopology { topology: Topology::TriangleList });
    cmds.push(RenderCommand::BindRenderTargets);
    cmds.push(RenderCommand::SetViewports);
    cmds.push(RenderCommand::BindVertexBuffer { stride: VERTEX_STRIDE, offset: 0 });
    cmds.push(RenderCommand::BindIndexBuffer { format: model.index_format, offset: 0 });
    cmds.push(RenderCommand::DrawIndexed { count: model.num_indices, start: 0, base_vertex: 0 });
    cmds.push(RenderCommand::Present { sync_interval: 1 });
    proof {
        assert(cmds@ =~= paint_sequence(*model));
    }
    cmds
}

/// One clear-depth, one clear-target, one draw and one present stand in
/// every frame's command sequence, in that order, whatever the model; no
/// command creates or destroys a resource, so the object identities a
/// frame uses are the ones it was given, every frame.
pub proof fn lemma_paint_sequence_shape(m: Model)
    ensures
        paint_sequence(m).len() == 12,
        forall|i: int|
            0 <= i < 12 ==> ((paint_sequence(m)[i] is ClearDepth) <==> i == 0),
        forall|i: int|
            0 <= i < 12 ==> ((paint_sequence(m)[i] is ClearTarget) <==> i == 1),
        forall|i: int|
            0 <= i < 12 ==> ((paint_sequence(m)[i] is DrawIndexed) <==> i == 10),
        forall|i: int|
            0 <= i < 12 ==> ((paint_sequence(m)[i] is Present) <==> i == 11),
{
    let s = paint_sequence(m);
    assert(s[0] is ClearDepth);
    assert(s[1] is ClearTarget);
    assert(s[2] is BindVertexShader);
    assert(s[3] is BindPixelShader);
    assert(s[4] is BindInputLayout);
    assert(s[5] is SetTopology);
    assert(s[6] is BindRenderTargets);
    assert(s[7] is SetViewports);
    assert(s[8] is BindVertexBuffer);
    assert(s[9] is BindIndexBuffer);
    assert(s[10] is DrawIndexed);
    assert(s[11] is Present);
}

/// The steady states of the frame loop: waiting for the next notification,
/// or closed for good after a destroy notification.
#[derive(Clone, Copy, Debug, PartialEq, Eq, Structural)]
pub enum Phase {
    Idle,
    Closed,
}

/// A notification from the windowing layer.
#[derive(Clone, Copy, Debug, PartialEq, Eq, Structural)]
pub enum WindowEvent {
    Paint,
    Destroy,
    KeyDown { code: u32 },
    Other,
}

/// What the core decides for one notification: the next phase, the GPU
/// commands to issue, and whether to ask the message loop to quit.
pub struct EventResponse {
    pub next: Phase,
    pub commands: Vec<RenderCommand>,
    pub quit: bool,
}

/// Decide one windowing notification. A paint notification while idle
/// produces exactly one frame's command sequence and stays idle, so
/// repeated paints repeat the identical sequence; a destroy notification
/// closes for good and requests quit; painting after close issues nothing;
/// the escape key requests quit; everything else is ignored.
pub fn handle_event(phase: Phase, event: WindowEvent, model: &Model) -> (r: EventResponse)
    ensures
        event is Destroy ==> r.next is Closed && r.quit && r.commands@ == Seq::<
            RenderCommand,
        >::empty(),
        event is Paint && phase is Idle ==> r.next is Idle && !r.quit && r.commands@
            == paint_sequence(*model),
        event is Paint && phase is Closed ==> r.next is Closed && !r.quit && r.commands@ == Seq::<
            RenderCommand,
        >::empty(),
        event matches WindowEvent::KeyDown { code } ==> r.next == phase && r.commands@ == Seq::<
            RenderCommand,
        >::empty() && (r.quit <==> code == ESCAPE_CODE),
        event is Other ==> r.next == phase && !r.quit && r.commands@ == Seq::<
            RenderCommand,
        >::empty(),
{
    match event {
        WindowEvent::Destroy => EventResponse {
            next: Phase::Closed,
            commands: Vec::new(),
            quit: true,
        },
        WindowEvent::Paint => match phase {
            Phase::Idle => EventResponse {
                next: Phase::Idle,
                commands: paint_commands(model),
                quit: false,
            },
            Phase::Closed => EventResponse {
                next: Phase::Closed,
                commands: Vec::new(),
                quit: false,
            },
        },
        WindowEvent::KeyDown { code } => EventResponse {
            next: phase,
            commands: Vec::new(),
            quit: code == ESCAPE_CODE,
        },
        WindowEvent::Other => EventResponse { next: phase, commands: Vec::new(), quit: false },
    }
}

/// Judge a present result: a non-success present is fatal, since this
/// scope treats it as a terminal device condition.
pub fn check_present(succeeded: bool) -> (r: Result<(), Error>)
    ensures
        r is Ok <==> succeeded,
        r matches Err(e) ==> e == Error::PresentFailure,
{
    if succeeded {
        Ok(())
    } else {
        Err(Error::PresentFailure)
    }
}

} // verus!
