use render_core::frame::begin_frame;
use render_core::frame::draw_ops;
use render_core::frame::end_frame;
use render_core::frame::GpuOp;
use render_core::frame::VERTICES_PER_SPRITE;
use render_core::sprites::Sprite;
use render_core::sprites::SpritesBuffer;
use render_core::sprites::Vec3Bits;
use render_core::sprites::SPRITE_BYTES;

fn spawn(buf: &mut SpritesBuffer, n: usize) {
    for i in 0..n {
        Sprite::new(Vec3Bits { x: i as u32, y: 0, z: 0 }, buf);
    }
}

#[test]
fn begin_with_image_opens_the_pass() {
    let state = begin_frame(true);
    assert!(state.has_command_buffer());
    assert!(state.has_render_pass());
}

#[test]
fn begin_without_image_keeps_the_pass_closed() {
    let state = begin_frame(false);
    assert!(state.has_command_buffer());
    assert!(!state.has_render_pass());
}

#[test]
fn zero_instances_draw_nothing() {
    let state = begin_frame(true);
    let buf = SpritesBuffer::new(16);
    let ops = draw_ops(&state, &buf);
    assert!(ops.is_empty());
}

#[test]
fn no_pass_draws_nothing_even_with_instances() {
    let state = begin_frame(false);
    let mut buf = SpritesBuffer::new(16);
    spawn(&mut buf, 3);
    let ops = draw_ops(&state, &buf);
    assert!(ops.is_empty());
}

#[test]
fn draw_plan_is_sized_for_the_live_count() {
    let state = begin_frame(true);
    let mut buf = SpritesBuffer::new(16);
    spawn(&mut buf, 2);
    let ops = draw_ops(&state, &buf);
    assert_eq!(
        ops,
        vec![
            GpuOp::MapTransferBuffer,
            GpuOp::UploadToStorage { size: (2 * SPRITE_BYTES) as u32 },
            GpuOp::BindPipeline,
            GpuOp::BindStorageBuffer,
            GpuOp::BindSamplers,
            GpuOp::PushCameraUniform,
            GpuOp::DrawInstances { vertices: (2 * VERTICES_PER_SPRITE) as u32 },
        ]
    );
}

#[test]
fn end_with_open_pass_closes_then_submits_once() {
    let mut state = begin_frame(true);
    let ops = end_frame(&mut state);
    assert_eq!(ops, vec![GpuOp::EndRenderPass, GpuOp::SubmitCommandBuffer]);
    let submits = ops.iter().filter(|op| matches!(op, GpuOp::SubmitCommandBuffer)).count();
    assert_eq!(submits, 1);
    assert!(!state.has_command_buffer());
    assert!(!state.has_render_pass());
}

#[test]
fn end_with_null_pass_still_submits_exactly_once() {
    let mut state = begin_frame(false);
    let ops = end_frame(&mut state);
    assert_eq!(ops, vec![GpuOp::SubmitCommandBuffer]);
    let submits = ops.iter().filter(|op| matches!(op, GpuOp::SubmitCommandBuffer)).count();
    assert_eq!(submits, 1);
    assert!(!state.has_command_buffer());
    assert!(!state.has_render_pass());
}
