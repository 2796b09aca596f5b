//! The per-tick frame lifecycle: a small state machine driven once per
//! tick by three ordered stages — begin the frame, draw, end the frame —
//! and the exact run of GPU commands each stage must issue.
//!
//! The stages themselves talk to the GPU through an unverified shell; this
//! module decides what they do. Each decision function returns the ordered
//! run of commands to issue, so the shell executes plans instead of
//! choosing on its own.

use vstd::prelude::*;
use crate::sprites::SpritesBuffer;
use crate::sprites::SPRITE_BYTES;

verus! {

/// Vertices one sprite expands to: a quad built from two triangles.
pub const VERTICES_PER_SPRITE: usize = 6;

/// Phases of the frame lifecycle within one tick.
#[derive(Clone, Copy, PartialEq, Eq, Structural, Debug)]
pub enum FramePhase {
    /// No command buffer is held.
    Idle,
    /// A command buffer is held but no render pass is open: the swapchain
    /// had no image this tick, so draw stages must do nothing.
    FrameOpen,
    /// A command buffer is held and a render pass is open.
    PassOpen,
}

/// One GPU command of a stage's plan. The unverified shell executes them
/// in order against the real device.
#[derive(Clone, Copy, PartialEq, Eq, Structural, Debug)]
pub enum GpuOp {
    /// Open the render pass on the acquired swapchain image, clearing it.
    BeginRenderPass,
    /// Map the transfer buffer and fill it with the instance byte image.
    MapTransferBuffer,
    /// Copy this many bytes from the transfer buffer into the storage
    /// buffer inside a copy pass.
    UploadToStorage { size: u32 },
    /// Bind the sprite graphics pipeline.
    BindPipeline,
    /// Bind the storage buffer to the vertex stage.
    BindStorageBuffer,
    /// Bind the sprite texture and sampler to the fragment stage.
    BindSamplers,
    /// Push the camera matrix into the vertex uniform slot.
    PushCameraUniform,
    /// Issue one instanced draw of this many vertices.
    DrawInstances { vertices: u32 },
    /// Close the render pass.
    EndRenderPass,
    /// Submit the command buffer, releasing the swapchain image.
    SubmitCommandBuffer,
}

/// The clear colour the render pass loads the swapchain image with, one
/// 32-bit pattern per channel; alpha is always fully opaque. Owned by the
/// device context and read by the begin stage each tick.
#[derive(Clone, Copy, PartialEq, Eq, Structural, Debug)]
pub struct ClearColor {
    pub r: u32,
    pub g: u32,
    pub b: u32,
}

impl ClearColor {
    /// Replaces the clear colour: a pure mutation, no GPU call.
    pub fn set_color(&mut self, r: u32, g: u32, b: u32)
        ensures
            *final(self) == (ClearColor { r, g, b }),
    {
        self.r = r;
        self.g = g;
        self.b = b;
    }
}

/// Transient per-tick frame state: which scarce GPU resources the tick
/// currently holds. Created by the begin stage, read by draw stages,
/// cleared by the end stage.
pub struct FrameState {
    command_buffer_open: bool,
    render_pass_open: bool,
}

impl FrameState {
    /// A command buffer has been acquired and not yet submitted.
    pub closed spec fn spec_has_command_buffer(self) -> bool {
        self.command_buffer_open
    }

    /// A render pass is open on this tick's swapchain image.
    pub closed spec fn spec_has_render_pass(self) -> bool {
        self.render_pass_open
    }

    /// A render pass can only be open inside a frame that holds a command
    /// buffer.
    pub open spec fn wf(self) -> bool {
        self.spec_has_render_pass() ==> self.spec_has_command_buffer()
    }

    /// The lifecycle phase this state is in.
    pub open spec fn phase(self) -> FramePhase {
        if self.spec_has_render_pass() {
            FramePhase::PassOpen
        } else if self.spec_has_command_buffer() {
            FramePhase::FrameOpen
        } else {
            FramePhase::Idle
        }
    }

    /// Whether the draw stages may record into an open render pass.
    pub fn has_render_pass(&self) -> (r: bool)
        ensures
            r == self.spec_has_render_pass(),
    {
        self.render_pass_open
    }

    /// Whether a command buffer is held and awaiting submission.
    pub fn has_command_buffer(&self) -> (r: bool)
        ensures
            r == self.spec_has_command_buffer(),
    {
        self.command_buffer_open
    }
}

/// Opens the frame once the begin stage has acquired a command buffer and
/// asked the swapchain for an image. With an image the pass opens and the
/// tick will draw; without one (a minimized window) the frame stays open
/// with no pass, and every later stage must leave the pass alone.
pub fn begin_frame(swapchain_image_acquired: bool) -> (state: FrameState)
    ensures
        state.wf(),
        state.spec_has_command_buffer(),
        state.spec_has_render_pass() == swapchain_image_acquired,
        state.phase() == if swapchain_image_acquired {
            FramePhase::PassOpen
        } else {
            FramePhase::FrameOpen
        },
{
    FrameState { command_buffer_open: true, render_pass_open: swapchain_image_acquired }
}

/// The exact command run of a draw stage with live instances: fill and
/// upload the instance bytes, bind pipeline, storage and samplers, push
/// the camera, then one instanced draw.
pub open spec fn spec_draw_sequence(count: int) -> Seq<GpuOp> {
    seq![
        GpuOp::MapTransferBuffer,
        GpuOp::UploadToStorage { size: (SPRITE_BYTES * count) as u32 },
        GpuOp::BindPipeline,
        GpuOp::BindStorageBuffer,
        GpuOp::BindSamplers,
        GpuOp::PushCameraUniform,
        GpuOp::DrawInstances { vertices: (VERTICES_PER_SPRITE * count) as u32 },
    ]
}

/// Plans the draw stage. With no open render pass, or with zero live
/// instances, the stage issues no command at all — no map, no copy, no
/// bind, no draw — and succeeds; otherwise it issues exactly the draw
/// sequence sized for the live count.
pub fn draw_ops(state: &FrameState, buffer: &SpritesBuffer) -> (ops: Vec<GpuOp>)
    requires
        state.wf(),
        buffer.wf(),
    ensures
        !state.spec_has_render_pass() || buffer.spec_count() == 0 ==> ops@ == Seq::<
            GpuOp,
        >::empty(),
        state.spec_has_render_pass() && buffer.spec_count() > 0 ==> ops@ == spec_draw_sequence(
            buffer.spec_count(),
        ),
{
    let mut ops: Vec<GpuOp> = Vec::new();
    if !state.has_render_pass() {
        return ops;
    }
    let n = buffer.count();
    if n == 0 {
        return ops;
    }
    let upload_size: u32 = (n * SPRITE_BYTES) as u32;
    let vertices: u32 = (n * VERTICES_PER_SPRITE) as u32;
    ops.push(GpuOp::MapTransferBuffer);
    ops.push(GpuOp::UploadToStorage { size: upload_size });
    ops.push(GpuOp::BindPipeline);
    ops.push(GpuOp::BindStorageBuffer);
    ops.push(GpuOp::BindSamplers);
    ops.push(GpuOp::PushCameraUniform);
    ops.push(GpuOp::DrawInstances { vertices });
    proof {
        assert(ops@ =~= spec_draw_sequence(buffer.spec_count()));
    }
    ops
}

/// How many submissions a command run performs.
pub open spec fn spec_count_submits(ops: Seq<GpuOp>) -> int
    decreases ops.len(),
{
    if ops.len() == 0 {
        0
    } else {
        (if ops[0] is SubmitCommandBuffer {
            1int
        } else {
            0int
        }) + spec_count_submits(ops.drop_first())
    }
}

/// Plans the end stage and returns the frame to idle. An open render pass
/// is closed first; the command buffer is submitted in every case — also
/// when no pass was ever open — exactly once, never zero times and never
/// twice, since submission is what releases the acquired swapchain image.
pub fn end_frame(state: &mut FrameState) -> (ops: Vec<GpuOp>)
    requires
        old(state).wf(),
        old(state).spec_has_command_buffer(),
    ensures
        final(state).wf(),
        final(state).phase() == FramePhase::Idle,
        old(state).spec_has_render_pass() ==> ops@ == seq![
            GpuOp::EndRenderPass,
            GpuOp::SubmitCommandBuffer,
        ],
        !old(state).spec_has_render_pass() ==> ops@ == seq![GpuOp::SubmitCommandBuffer],
        spec_count_submits(ops@) == 1,
{
    let mut ops: Vec<GpuOp> = Vec::new();
    if state.has_render_pass() {
        ops.push(GpuOp::EndRenderPass);
    }
    ops.push(GpuOp::SubmitCommandBuffer);
    state.command_buffer_open = false;
    state.render_pass_open = false;
    proof {
        if old(state).spec_has_render_pass() {
            assert(ops@ =~= seq![GpuOp::EndRenderPass, GpuOp::SubmitCommandBuffer]);
        } else {
            assert(ops@ =~= seq![GpuOp::SubmitCommandBuffer]);
        }
        lemma_count_submits_concrete(ops@);
    }
    ops
}

/// Unfolds the submission count for the two concrete end-stage runs.
proof fn lemma_count_submits_concrete(ops: Seq<GpuOp>)
    requires
        ops == seq![GpuOp::EndRenderPass, GpuOp::SubmitCommandBuffer] || ops == seq![
            GpuOp::SubmitCommandBuffer,
        ],
    ensures
        spec_count_submits(ops) == 1,
{
    let single = seq![GpuOp::SubmitCommandBuffer];
    assert(single.drop_first() =~= Seq::<GpuOp>::empty());
    assert(spec_count_submits(Seq::<GpuOp>::empty()) == 0);
    assert(spec_count_submits(single) == 1);
    let both = seq![GpuOp::EndRenderPass, GpuOp::SubmitCommandBuffer];
    assert(both.drop_first() =~= single);
    assert(spec_count_submits(both) == 1);
}

} // verus!
