use quartet::camera::{AspectState, CameraState, EPSILON, INITIAL_PHI, INITIAL_THETA};
use quartet::renderer::{
    begin_frame, draw_frame, DrawCommand, FrameDecision, FramePlan, Renderer, SurfaceError,
};
use quartet::surface::{PixelFormat, PresentMode, SurfaceConfig};
use quartet::user_interface::{Action, Lifecycle, Notification, UserInterface};
use quartet::widget::{PanelInteraction, Widget};

fn drawn_frame(clear: [u32; 4]) -> Vec<DrawCommand> {
    vec![
        DrawCommand::WriteCamera,
        DrawCommand::BeginPass { clear },
        DrawCommand::SetPipeline,
        DrawCommand::SetBindGroup,
        DrawCommand::SetVertexBuffer,
        DrawCommand::SetIndexBuffer,
        DrawCommand::DrawIndexed { count: 12 },
        DrawCommand::Overlay,
        DrawCommand::EndPass,
        DrawCommand::Submit,
        DrawCommand::Present,
    ]
}

#[test]
fn acquired_texture_is_drawn() {
    assert_eq!(begin_frame(Ok(())), FrameDecision::Draw);
}

#[test]
fn timeout_skips_the_frame() {
    assert_eq!(begin_frame(Err(SurfaceError::Timeout)), FrameDecision::Skip);
}

#[test]
fn outdated_surface_skips_the_frame() {
    assert_eq!(begin_frame(Err(SurfaceError::Outdated)), FrameDecision::Skip);
}

#[test]
fn lost_surface_skips_the_frame() {
    assert_eq!(begin_frame(Err(SurfaceError::Lost)), FrameDecision::Skip);
}

#[test]
fn unexplained_failure_skips_the_frame() {
    assert_eq!(begin_frame(Err(SurfaceError::Other)), FrameDecision::Skip);
}

#[test]
fn out_of_memory_halts_the_drawing() {
    assert_eq!(begin_frame(Err(SurfaceError::OutOfMemory)), FrameDecision::Halt);
}

#[test]
fn drawn_frame_lists_its_commands_in_order() {
    let clear = [1, 2, 3, 4];
    let mut expected = drawn_frame(clear);
    expected[6] = DrawCommand::DrawIndexed { count: 36 };
    assert_eq!(draw_frame(clear, 36), expected);
}

#[test]
fn geometry_is_drawn_before_the_overlay_in_one_pass() {
    let commands = draw_frame([0, 0, 0, 0], 12);
    let place = |wanted: fn(&DrawCommand) -> bool| -> Vec<usize> {
        commands.iter().enumerate().filter(|(_, c)| wanted(c)).map(|(i, _)| i).collect()
    };
    let begin = place(|c| matches!(c, DrawCommand::BeginPass { .. }));
    let geometry = place(|c| matches!(c, DrawCommand::DrawIndexed { .. }));
    let overlay = place(|c| matches!(c, DrawCommand::Overlay));
    let end = place(|c| matches!(c, DrawCommand::EndPass));
    assert_eq!((begin.len(), geometry.len(), overlay.len(), end.len()), (1, 1, 1, 1));
    assert!(begin[0] < geometry[0] && geometry[0] < overlay[0] && overlay[0] < end[0]);
    assert_eq!(commands.first(), Some(&DrawCommand::WriteCamera));
    assert_eq!(commands.last(), Some(&DrawCommand::Present));
}

#[test]
fn new_renderer_configures_the_surface_for_the_window() {
    let renderer = Renderer::new(1280, 720);
    assert_eq!(
        *renderer.get_widget_required(),
        SurfaceConfig {
            width: 1280,
            height: 720,
            format: PixelFormat::Rgba8UnormSrgb,
            present_mode: PresentMode::Fifo,
            desired_maximum_frame_latency: 2,
        }
    );
    assert_eq!(renderer.draw_count(), 12);
    assert_eq!(
        renderer.camera().state(),
        CameraState { theta: INITIAL_THETA, phi: INITIAL_PHI }
    );
    assert_eq!(renderer.camera().aspect_state(), AspectState { width: 1, height: 1 });
}

#[test]
fn renderer_resize_to_zero_width_keeps_both_dimensions_positive() {
    let mut renderer = Renderer::new(640, 480);
    renderer.resize(0, 480);
    let conf = *renderer.get_widget_required();
    assert_eq!((conf.width, conf.height), (1, 480));
    assert_eq!(renderer.camera().aspect_state(), AspectState { width: 1, height: 480 });
}

#[test]
fn renderer_resize_to_zero_height_keeps_both_dimensions_positive() {
    let mut renderer = Renderer::new(640, 480);
    renderer.resize(640, 0);
    let conf = *renderer.get_widget_required();
    assert_eq!((conf.width, conf.height), (640, 1));
    assert_eq!(renderer.camera().aspect_state(), AspectState { width: 640, height: 1 });
}

#[test]
fn renderer_resize_forwards_the_size_to_the_camera() {
    let mut renderer = Renderer::new(640, 480);
    renderer.move_camera(1.0f64.to_bits(), 2.0f64.to_bits());
    renderer.resize(1920, 1080);
    assert_eq!(renderer.camera().aspect_state(), AspectState { width: 1920, height: 1080 });
    assert_eq!(
        renderer.camera().state(),
        CameraState { theta: 2.0f64.to_bits(), phi: 1.0f64.to_bits() }
    );
    assert_eq!(renderer.get_widget_required().format, PixelFormat::Rgba8UnormSrgb);
}

#[test]
fn moving_the_camera_clamps_and_leaves_the_surface() {
    let mut renderer = Renderer::new(640, 480);
    renderer.move_camera((-3.0f64).to_bits(), (-500.0f64).to_bits());
    assert_eq!(renderer.camera().state(), CameraState { theta: EPSILON, phi: EPSILON });
    let conf = *renderer.get_widget_required();
    assert_eq!((conf.width, conf.height), (640, 480));
    assert_eq!(renderer.draw_count(), 12);
}

#[test]
fn buffers_hold_the_tetrahedron() {
    let renderer = Renderer::new(640, 480);
    let numbers: Vec<[f32; 3]> =
        vec![[0.0, 0.0, 0.0], [1.0, 0.0, 0.0], [0.0, 1.0, 0.0], [0.0, 0.0, 1.0]];
    let indices: Vec<[u32; 3]> = vec![[0, 2, 1], [0, 3, 2], [0, 1, 3], [1, 2, 3]];
    let vertex_image: &[u8] = bytemuck::cast_slice(&numbers);
    let index_image: &[u8] = bytemuck::cast_slice(&indices);
    assert_eq!(renderer.vertex_bytes(), vertex_image.to_vec());
    assert_eq!(renderer.index_bytes(), index_image.to_vec());
}

#[test]
fn drawn_frame_is_cleared_to_the_background_of_the_overlay() {
    let renderer = Renderer::new(640, 480);
    let widget = Widget::new(640, 480);
    let plan = renderer.draw(Ok(()), &widget);
    assert_eq!(
        plan,
        FramePlan {
            decision: FrameDecision::Draw,
            commands: drawn_frame([
                (57.0f32 / 255.0).to_bits(),
                (197.0f32 / 255.0).to_bits(),
                (187.0f32 / 255.0).to_bits(),
                1.0f32.to_bits()
            ]),
        }
    );
}

#[test]
fn failed_acquisition_issues_no_command() {
    let renderer = Renderer::new(640, 480);
    let widget = Widget::new(640, 480);
    for (error, decision) in [
        (SurfaceError::Timeout, FrameDecision::Skip),
        (SurfaceError::Outdated, FrameDecision::Skip),
        (SurfaceError::Lost, FrameDecision::Skip),
        (SurfaceError::Other, FrameDecision::Skip),
        (SurfaceError::OutOfMemory, FrameDecision::Halt),
    ] {
        let plan = renderer.draw(Err(error), &widget);
        assert_eq!(plan, FramePlan { decision, commands: Vec::new() });
    }
}

#[test]
fn outdated_frame_is_skipped_and_the_next_one_is_drawn() {
    let mut ui = UserInterface::new();
    assert_eq!(ui.notify(Notification::Resumed), Action::CreateContext);
    let renderer = Renderer::new(640, 480);
    let widget = Widget::new(640, 480);

    assert_eq!(ui.notify(Notification::RedrawRequested), Action::DrawFrame);
    let first = renderer.draw(Err(SurfaceError::Outdated), &widget);
    assert_eq!(first.decision, FrameDecision::Skip);
    assert!(first.commands.is_empty());
    assert_eq!(ui.frame_finished(first.decision), Action::Nothing);
    assert_eq!(ui.state(), Lifecycle::Running);

    assert_eq!(ui.notify(Notification::RedrawRequested), Action::DrawFrame);
    let second = renderer.draw(Ok(()), &widget);
    assert_eq!(second.decision, FrameDecision::Draw);
    assert_eq!(second.commands, drawn_frame(widget.background_color()));
    assert_eq!(ui.frame_finished(second.decision), Action::Nothing);
    assert_eq!(ui.state(), Lifecycle::Running);
}

#[test]
fn background_edited_in_one_frame_clears_the_next() {
    let renderer = Renderer::new(640, 480);
    let mut widget = Widget::new(640, 480);
    let before = widget.background_color();
    let edited = [0.1f32.to_bits(), 0.2f32.to_bits(), 0.3f32.to_bits(), 1.0f32.to_bits()];

    let frame = renderer.draw(Ok(()), &widget);
    assert_eq!(frame.commands[1], DrawCommand::BeginPass { clear: before });
    assert!(widget.draw(Ok(())).is_some());
    widget.finish_draw(PanelInteraction {
        window_hovered: true,
        any_item_hovered: true,
        background_color: edited,
        inner_window_background_alpha: 0.0f32.to_bits(),
    });
    assert_eq!(frame.commands[1], DrawCommand::BeginPass { clear: before });

    let next = renderer.draw(Ok(()), &widget);
    assert_eq!(next.commands[1], DrawCommand::BeginPass { clear: edited });
}

#[test]
fn geometry_is_presented_where_the_overlay_is_left_out() {
    let renderer = Renderer::new(640, 480);
    let widget = Widget::new(640, 480);
    let plan = renderer.draw(Ok(()), &widget);
    assert_eq!(widget.draw(Err(quartet::widget::ExternalError::Ignored)), None);
    assert!(plan.commands.contains(&DrawCommand::DrawIndexed { count: 12 }));
    assert_eq!(plan.commands.last(), Some(&DrawCommand::Present));
}
