use life_renderer::buffers::{DrawCall, GeometryBuffers};
use life_renderer::frame::{
    advance, after_frame, record_frame, BufferSource, Color, ExitStatus, FrameStage, FrameStep,
    IndexFormat, LoopAction, RenderCommand, SurfaceError, INSTANCE_BUFFER_SLOT,
    VERTEX_BUFFER_SLOT,
};
use life_renderer::geometry::{quad_vertices, InstanceRaw};
use life_renderer::surface::PhysicalSize;

#[test]
fn instanced_frame_binds_everything_then_draws() {
    let instances = vec![InstanceRaw { model: [[0; 4]; 4] }; 400];
    let buffers = GeometryBuffers::quad(Some(instances)).unwrap();
    assert_eq!(
        record_frame(&buffers),
        vec![
            RenderCommand::Clear(Color { r: 0, g: 0, b: 0, a: 255 }),
            RenderCommand::SetPipeline,
            RenderCommand::SetVertexBuffer { slot: 0, source: BufferSource::Vertices },
            RenderCommand::SetVertexBuffer { slot: 1, source: BufferSource::Instances },
            RenderCommand::SetIndexBuffer(IndexFormat::Uint16),
            RenderCommand::Draw(DrawCall::Indexed {
                index_count: 6,
                base_vertex: 0,
                instance_count: 400,
            }),
        ]
    );
}

#[test]
fn indexed_frame_without_instances_draws_one() {
    let buffers = GeometryBuffers::quad(None).unwrap();
    assert_eq!(
        record_frame(&buffers),
        vec![
            RenderCommand::Clear(Color { r: 0, g: 0, b: 0, a: 255 }),
            RenderCommand::SetPipeline,
            RenderCommand::SetVertexBuffer { slot: 0, source: BufferSource::Vertices },
            RenderCommand::SetIndexBuffer(IndexFormat::Uint16),
            RenderCommand::Draw(DrawCall::Indexed {
                index_count: 6,
                base_vertex: 0,
                instance_count: 1,
            }),
        ]
    );
}

#[test]
fn direct_frame_draws_the_vertices() {
    let buffers = GeometryBuffers::new(quad_vertices(), None, None).unwrap();
    assert_eq!(
        record_frame(&buffers),
        vec![
            RenderCommand::Clear(Color { r: 0, g: 0, b: 0, a: 255 }),
            RenderCommand::SetPipeline,
            RenderCommand::SetVertexBuffer { slot: 0, source: BufferSource::Vertices },
            RenderCommand::Draw(DrawCall::Direct { vertex_count: 4, instance_count: 1 }),
        ]
    );
}

#[test]
fn buffer_slots_are_zero_and_one() {
    assert_eq!(VERTEX_BUFFER_SLOT, 0);
    assert_eq!(INSTANCE_BUFFER_SLOT, 1);
}

#[test]
fn background_is_opaque_black() {
    let buffers = GeometryBuffers::quad(None).unwrap();
    let commands = record_frame(&buffers);
    match commands[0] {
        RenderCommand::Clear(color) => {
            let channels = [color.r, color.g, color.b, color.a].map(|c| c as f64 / 255.0);
            assert_eq!(channels, [0.0, 0.0, 0.0, 1.0]);
        }
        _ => panic!("a frame starts by clearing"),
    }
}

#[test]
fn frame_goes_through_its_stages_in_order() {
    let mut stage = FrameStage::AcquireTarget;
    let mut seen = vec![stage];
    loop {
        match advance(stage, Ok(())) {
            FrameStep::Proceed(next) => {
                stage = next;
                seen.push(next);
            }
            FrameStep::Presented => break,
            FrameStep::Failed(_) => panic!("no stage failed"),
        }
    }
    assert_eq!(
        seen,
        vec![
            FrameStage::AcquireTarget,
            FrameStage::Record,
            FrameStage::Submit,
            FrameStage::Present,
        ]
    );
}

#[test]
fn failed_acquire_ends_the_frame() {
    for error in [
        SurfaceError::Timeout,
        SurfaceError::Outdated,
        SurfaceError::Lost,
        SurfaceError::OutOfMemory,
    ] {
        assert_eq!(advance(FrameStage::AcquireTarget, Err(error)), FrameStep::Failed(error));
        assert_eq!(advance(FrameStage::Submit, Err(error)), FrameStep::Failed(error));
    }
}

#[test]
fn presented_frame_lets_the_loop_go_on() {
    assert_eq!(after_frame(PhysicalSize::new(400, 400), Ok(())), LoopAction::Continue);
}

#[test]
fn lost_surface_asks_for_the_last_size() {
    assert_eq!(
        after_frame(PhysicalSize::new(400, 400), Err(SurfaceError::Lost)),
        LoopAction::Reconfigure(PhysicalSize::new(400, 400))
    );
    assert_eq!(
        after_frame(PhysicalSize::new(7, 9), Err(SurfaceError::Lost)),
        LoopAction::Reconfigure(PhysicalSize::new(7, 9))
    );
}

#[test]
fn out_of_memory_ends_the_loop_with_a_failure() {
    assert_eq!(
        after_frame(PhysicalSize::new(400, 400), Err(SurfaceError::OutOfMemory)),
        LoopAction::Terminate(ExitStatus::Failure)
    );
}

#[test]
fn passing_errors_are_reported() {
    assert_eq!(
        after_frame(PhysicalSize::new(400, 400), Err(SurfaceError::Timeout)),
        LoopAction::Report(SurfaceError::Timeout)
    );
    assert_eq!(
        after_frame(PhysicalSize::new(400, 400), Err(SurfaceError::Outdated)),
        LoopAction::Report(SurfaceError::Outdated)
    );
}
