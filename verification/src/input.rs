//! Window events and what each of them asks of the loop.

use crate::frame::{ExitStatus, LoopAction};
use crate::surface::PhysicalSize;
use vstd::prelude::*;

verus! {

/// Whether a key went down or up.
#[derive(Clone, Copy, Debug, PartialEq, Eq, Structural)]
pub enum ElementState {
    Pressed,
    Released,
}

/// The meaning of a key, as far as the router tells keys apart.
#[derive(Clone, Copy, Debug, PartialEq, Eq, Structural)]
pub enum VirtualKeyCode {
    Escape,
    Other,
}

/// A key going down or up.
#[derive(Clone, Copy, Debug, PartialEq, Eq, Structural)]
pub struct KeyboardInput {
    pub state: ElementState,
    pub virtual_keycode: Option<VirtualKeyCode>,
}

/// An event of the window.
#[derive(Clone, Copy, Debug, PartialEq, Eq, Structural)]
pub enum WindowEvent {
    CloseRequested,
    KeyboardInput { input: KeyboardInput },
    /// The window's size changed.
    Resized(PhysicalSize),
    /// The display's scale changed, and with it the window's size.
    ScaleFactorChanged { new_inner_size: PhysicalSize },
    /// Any event that the router does not act on.
    Other,
}

/// An event of the host's loop.
#[derive(Clone, Copy, Debug, PartialEq, Eq, Structural)]
pub enum Event {
    /// An event of some window; `own_window` says whether it is the
    /// session's.
    WindowEvent { own_window: bool, event: WindowEvent },
    /// Some window has to be drawn again.
    RedrawRequested { own_window: bool },
    /// All events of this round were handed out.
    MainEventsCleared,
    /// Any event that the session does not act on.
    Other,
}

/// Title of the window.
pub const WINDOW_TITLE: &'static str = "WGPU Conway's Game of life";

/// Width of the window when it opens, in physical pixels.
pub const WINDOW_WIDTH: u32 = 500;

/// Height of the window when it opens, in physical pixels.
pub const WINDOW_HEIGHT: u32 = 500;

/// Whether the user may drag the window to another size.
pub const WINDOW_RESIZABLE: bool = false;

impl KeyboardInput {
    /// The Escape key went down.
    pub open spec fn is_escape_press(self) -> bool {
        self.state == ElementState::Pressed && self.virtual_keycode == Some(VirtualKeyCode::Escape)
    }
}

/// What a window event asks of the loop: a close request or a press of
/// Escape ends it cleanly, a new size or scale resizes the session, and
/// nothing else has any effect.
pub open spec fn routed(event: WindowEvent) -> LoopAction {
    match event {
        WindowEvent::CloseRequested => LoopAction::Terminate(ExitStatus::Success),
        WindowEvent::KeyboardInput { input } => if input.is_escape_press() {
            LoopAction::Terminate(ExitStatus::Success)
        } else {
            LoopAction::Continue
        },
        WindowEvent::Resized(size) => LoopAction::Reconfigure(size),
        WindowEvent::ScaleFactorChanged { new_inner_size } => LoopAction::Reconfigure(
            new_inner_size,
        ),
        WindowEvent::Other => LoopAction::Continue,
    }
}

/// Maps a window event to what it asks of the loop.
pub fn route(event: &WindowEvent) -> (action: LoopAction)
    ensures
        action == routed(*event),
{
    match event {
        WindowEvent::CloseRequested => LoopAction::Terminate(ExitStatus::Success),
        WindowEvent::KeyboardInput { input } => {
            match (input.state, input.virtual_keycode) {
                (ElementState::Pressed, Some(VirtualKeyCode::Escape)) => LoopAction::Terminate(
                    ExitStatus::Success,
                ),
                _ => LoopAction::Continue,
            }
        },
        WindowEvent::Resized(size) => LoopAction::Reconfigure(*size),
        WindowEvent::ScaleFactorChanged { new_inner_size } => LoopAction::Reconfigure(
            *new_inner_size,
        ),
        WindowEvent::Other => LoopAction::Continue,
    }
}

/// The size that the window opens with.
pub fn initial_window_size() -> (size: PhysicalSize)
    ensures
        size == (PhysicalSize { width: WINDOW_WIDTH, height: WINDOW_HEIGHT }),
        size.presentable(),
        size.squared() == size,
{
    PhysicalSize { width: WINDOW_WIDTH, height: WINDOW_HEIGHT }
}

} // verus!
