//! One frame: the stages it goes through, the commands it records and what
//! the loop does with its outcome.

use crate::buffers::{DrawCall, GeometryBuffers, GeometryView};
use crate::surface::PhysicalSize;
use vstd::prelude::*;

verus! {

/// A colour with eight bits for each channel.
#[derive(Clone, Copy, Debug, PartialEq, Eq, Structural)]
pub struct Color {
    pub r: u8,
    pub g: u8,
    pub b: u8,
    pub a: u8,
}

/// The width of the values in an index buffer.
#[derive(Clone, Copy, Debug, PartialEq, Eq, Structural)]
pub enum IndexFormat {
    Uint16,
    Uint32,
}

/// Which of the uploaded arrays a vertex buffer slot reads.
#[derive(Clone, Copy, Debug, PartialEq, Eq, Structural)]
pub enum BufferSource {
    Vertices,
    Instances,
}

/// One command of a render pass.
#[derive(Clone, Copy, Debug, PartialEq, Eq, Structural)]
pub enum RenderCommand {
    /// Open the pass on the acquired target, cleared to the colour.
    Clear(Color),
    SetPipeline,
    SetVertexBuffer { slot: u32, source: BufferSource },
    SetIndexBuffer(IndexFormat),
    Draw(DrawCall),
}

/// Why no target could be acquired for a frame.
#[derive(Clone, Copy, Debug, PartialEq, Eq, Structural)]
pub enum SurfaceError {
    Timeout,
    Outdated,
    Lost,
    OutOfMemory,
}

/// How the process ends.
#[derive(Clone, Copy, Debug, PartialEq, Eq, Structural)]
pub enum ExitStatus {
    Success,
    Failure,
}

/// What the host loop does next.
#[derive(Clone, Copy, Debug, PartialEq, Eq, Structural)]
pub enum LoopAction {
    /// Nothing to do: go on with the next event.
    Continue,
    /// Log the error and go on: the frame is skipped, the next one is
    /// expected to succeed.
    Report(SurfaceError),
    /// Resize the session to the given size.
    Reconfigure(PhysicalSize),
    /// Leave the loop.
    Terminate(ExitStatus),
}

/// The stages of a frame, in order.
#[derive(Clone, Copy, Debug, PartialEq, Eq, Structural)]
pub enum FrameStage {
    AcquireTarget,
    Record,
    Submit,
    Present,
}

/// Where a frame stands after a stage.
#[derive(Clone, Copy, Debug, PartialEq, Eq, Structural)]
pub enum FrameStep {
    /// The frame goes on with the given stage.
    Proceed(FrameStage),
    /// The frame is over: it was presented.
    Presented,
    /// The frame is over: it was given up with the error.
    Failed(SurfaceError),
}

/// Slot of the vertex buffer.
pub const VERTEX_BUFFER_SLOT: u32 = 0;

/// Slot of the instance buffer.
pub const INSTANCE_BUFFER_SLOT: u32 = 1;

impl Color {
    /// The background that every frame is cleared to: opaque black.
    pub open spec fn background() -> Color {
        Color { r: 0, g: 0, b: 0, a: 255 }
    }
}

/// The stage that follows `stage` when its work succeeded; none after the
/// last.
pub open spec fn stage_after(stage: FrameStage) -> Option<FrameStage> {
    match stage {
        FrameStage::AcquireTarget => Some(FrameStage::Record),
        FrameStage::Record => Some(FrameStage::Submit),
        FrameStage::Submit => Some(FrameStage::Present),
        FrameStage::Present => None,
    }
}

/// Where a frame stands once the work of `stage` ended with `outcome`: an
/// error ends the frame at once, success leads to the next stage, and the
/// frame is over when it was presented.
pub open spec fn frame_step(stage: FrameStage, outcome: Result<(), SurfaceError>) -> FrameStep {
    match outcome {
        Err(error) => FrameStep::Failed(error),
        Ok(()) => match stage_after(stage) {
            Some(next) => FrameStep::Proceed(next),
            None => FrameStep::Presented,
        },
    }
}

/// What the loop does once a frame ended with `outcome`, the session being
/// at `last_size`: a lost surface is configured again at that size, a
/// device out of memory ends the process, any other error is reported and
/// left to the next frame.
pub open spec fn frame_verdict(last_size: PhysicalSize, outcome: Result<(), SurfaceError>)
    -> LoopAction {
    match outcome {
        Ok(()) => LoopAction::Continue,
        Err(SurfaceError::Lost) => LoopAction::Reconfigure(last_size),
        Err(SurfaceError::OutOfMemory) => LoopAction::Terminate(ExitStatus::Failure),
        Err(error) => LoopAction::Report(error),
    }
}

/// The commands of one render pass over the given arrays, in recording
/// order: clear, bind the pipeline, bind the vertex buffer, bind the
/// instance and index buffers where there are any, draw.
pub open spec fn frame_commands(geometry: GeometryView) -> Seq<RenderCommand> {
    seq![
        RenderCommand::Clear(Color::background()),
        RenderCommand::SetPipeline,
        RenderCommand::SetVertexBuffer { slot: VERTEX_BUFFER_SLOT, source: BufferSource::Vertices },
    ] + (if geometry.instances is Some {
        seq![
            RenderCommand::SetVertexBuffer {
                slot: INSTANCE_BUFFER_SLOT,
                source: BufferSource::Instances,
            },
        ]
    } else {
        Seq::empty()
    }) + (if geometry.indices is Some {
        seq![RenderCommand::SetIndexBuffer(IndexFormat::Uint16)]
    } else {
        Seq::empty()
    }) + seq![RenderCommand::Draw(geometry.draw_call())]
}

/// Advances a frame past `stage`, whose work ended with `outcome`.
pub fn advance(stage: FrameStage, outcome: Result<(), SurfaceError>) -> (step: FrameStep)
    ensures
        step == frame_step(stage, outcome),
{
    match outcome {
        Err(error) => FrameStep::Failed(error),
        Ok(()) => match stage {
            FrameStage::AcquireTarget => FrameStep::Proceed(FrameStage::Record),
            FrameStage::Record => FrameStep::Proceed(FrameStage::Submit),
            FrameStage::Submit => FrameStep::Proceed(FrameStage::Present),
            FrameStage::Present => FrameStep::Presented,
        },
    }
}

/// Decides what the loop does once a frame ended with `outcome`.
pub fn after_frame(last_size: PhysicalSize, outcome: Result<(), SurfaceError>) -> (action:
    LoopAction)
    ensures
        action == frame_verdict(last_size, outcome),
{
    match outcome {
        Ok(()) => LoopAction::Continue,
        Err(SurfaceError::Lost) => LoopAction::Reconfigure(last_size),
        Err(SurfaceError::OutOfMemory) => LoopAction::Terminate(ExitStatus::Failure),
        Err(error) => LoopAction::Report(error),
    }
}

/// Records the commands of one render pass over the given buffers.
pub fn record_frame(geometry: &GeometryBuffers) -> (commands: Vec<RenderCommand>)
    requires
        geometry.wf(),
    ensures
        commands@ == frame_commands(geometry@),
{
    let mut commands: Vec<RenderCommand> = Vec::new();
    commands.push(RenderCommand::Clear(Color { r: 0, g: 0, b: 0, a: 255 }));
    commands.push(RenderCommand::SetPipeline);
    commands.push(
        RenderCommand::SetVertexBuffer { slot: VERTEX_BUFFER_SLOT, source: BufferSource::Vertices },
    );
    if geometry.has_instances() {
        commands.push(
            RenderCommand::SetVertexBuffer {
                slot: INSTANCE_BUFFER_SLOT,
                source: BufferSource::Instances,
            },
        );
    }
    if geometry.has_indices() {
        commands.push(RenderCommand::SetIndexBuffer(IndexFormat::Uint16));
    }
    commands.push(RenderCommand::Draw(geometry.draw_call()));
    commands
}

/// A frame whose every stage succeeds goes through acquiring, recording,
/// submitting and presenting, in that order, and then is over.
pub proof fn lemma_frame_runs_in_order()
    ensures
        frame_step(FrameStage::AcquireTarget, Ok(())) == FrameStep::Proceed(FrameStage::Record),
        frame_step(FrameStage::Record, Ok(())) == FrameStep::Proceed(FrameStage::Submit),
        frame_step(FrameStage::Submit, Ok(())) == FrameStep::Proceed(FrameStage::Present),
        frame_step(FrameStage::Present, Ok(())) == FrameStep::Presented,
{
}

/// A failed stage ends the frame with its error, whatever the stage: no
/// later stage runs and nothing is retried.
pub proof fn lemma_error_ends_frame(stage: FrameStage, error: SurfaceError)
    ensures
        frame_step(stage, Err(error)) == FrameStep::Failed(error),
{
}

} // verus!
