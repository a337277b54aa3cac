//! What the events of the window do to the orchestrator, and what the
//! event loop does next.

use vstd::prelude::*;
use crate::keys::{Key, KeyState};
use crate::state::{ClearColor, State};
use crate::surface::{Size, SurfaceError};

verus! {

/// An event of the window that the orchestrator looks at.
#[derive(Clone, Copy, Debug, PartialEq, Eq, Structural)]
pub enum InputEvent {
    /// The cursor moved inside the window.
    CursorMoved,
    /// The wheel turned.
    MouseWheel,
    /// A mouse button went down or up.
    MouseInput { left: bool, pressed: bool },
    /// A key went down or up.
    Keyboard { key: Key, pressed: bool },
    /// Anything else.
    Other,
}

/// An event that the window hands to the loop.
#[derive(Clone, Copy, Debug, PartialEq, Eq, Structural)]
pub enum WindowEvent {
    CloseRequested,
    /// The window has a new size.
    Resized(Size),
    /// The scale factor changed, and with it the window's size.
    ScaleFactorChanged(Size),
    Input(InputEvent),
}

/// What of an event is passed on to the camera's controller.
#[derive(Clone, Copy, Debug, PartialEq, Eq, Structural)]
pub enum Forward {
    Nothing,
    /// The wheel's turn.
    Scroll,
    /// The key, with whether it went down.
    Key { pressed: bool },
}

/// Whether an event was used up.
#[derive(Clone, Copy, Debug, PartialEq, Eq, Structural)]
pub enum Handled {
    Yes,
    No,
    /// It was if the camera's controller used the key.
    Controller,
}

/// What the orchestrator made of an event.
#[derive(Clone, Copy, Debug, PartialEq, Eq, Structural)]
pub struct InputOutcome {
    pub forward: Forward,
    pub handled: Handled,
}

/// What the loop does next.
#[derive(Clone, Copy, Debug, PartialEq, Eq, Structural)]
pub enum LoopAction {
    /// Goes on with the next event.
    Continue,
    /// Ends the program.
    Exit,
    /// Hands the size to the orchestrator's `resize`.
    Resize(Size),
    /// Reports the error and goes on; the next frame tries again.
    Report(SurfaceError),
    /// Asks the window for a redraw.
    RequestRedraw,
    /// Passes the mouse's motion on to the camera's controller.
    ForwardMotion,
}

/// The clear colour after `event`: every event sets it back to black, and
/// a move of the cursor then takes it from the cursor if the background
/// flag is on.
pub open spec fn clear_color_after(keys: KeyState, event: InputEvent) -> ClearColor {
    if event is CursorMoved && keys.background {
        ClearColor::FromCursor
    } else {
        ClearColor::Black
    }
}

/// The flags after `event`: a key that goes down flips its flag.
pub open spec fn keys_after(keys: KeyState, event: InputEvent) -> KeyState {
    match event {
        InputEvent::Keyboard { key, pressed: true } => keys.pressed(key),
        _ => keys,
    }
}

/// Whether the left button is held after `event`.
pub open spec fn mouse_pressed_after(held: bool, event: InputEvent) -> bool {
    match event {
        InputEvent::MouseInput { left: true, pressed } => pressed,
        _ => held,
    }
}

/// What is made of `event`.
pub open spec fn outcome_of(event: InputEvent) -> InputOutcome {
    match event {
        InputEvent::CursorMoved => InputOutcome { forward: Forward::Nothing, handled: Handled::Yes },
        InputEvent::MouseWheel => InputOutcome { forward: Forward::Scroll, handled: Handled::Yes },
        InputEvent::MouseInput { left, pressed } => InputOutcome {
            forward: Forward::Nothing,
            handled: if left {
                Handled::Yes
            } else {
                Handled::No
            },
        },
        InputEvent::Keyboard { key, pressed } => if pressed && key.has_flag() {
            InputOutcome { forward: Forward::Nothing, handled: Handled::Yes }
        } else {
            InputOutcome { forward: Forward::Key { pressed }, handled: Handled::Controller }
        },
        InputEvent::Other => InputOutcome { forward: Forward::Nothing, handled: Handled::No },
    }
}

impl Handled {
    /// Whether the event was used up, given the answer of the camera's controller.
    pub fn resolve(self, controller: bool) -> (handled: bool)
        ensures
            handled == match self {
                Handled::Yes => true,
                Handled::No => false,
                Handled::Controller => controller,
            },
    {
        match self {
            Handled::Yes => true,
            Handled::No => false,
            Handled::Controller => controller,
        }
    }
}

/// Lets the orchestrator look at an event of the window.
///
/// The clear colour goes back to black, and follows the cursor only on a
/// move of the cursor with the background flag on. A key with a flag flips
/// it when it goes down. The left button sets whether the mouse is held.
/// The wheel, the keys without a flag and every key that goes up are
/// passed on to the camera's controller.
pub fn input(state: &mut State, event: &InputEvent) -> (outcome: InputOutcome)
    requires
        old(state).wf(),
    ensures
        final(state).wf(),
        outcome == outcome_of(*event),
        final(state).clear_color == clear_color_after(old(state).keys, *event),
        final(state).keys == keys_after(old(state).keys, *event),
        final(state).mouse_pressed == mouse_pressed_after(old(state).mouse_pressed, *event),
        final(state).size == old(state).size,
        final(state).config == old(state).config,
        final(state).texture_bind_group == old(state).texture_bind_group,
        final(state).num_indices == old(state).num_indices,
        final(state).instances == old(state).instances,
        final(state).rotation == old(state).rotation,
        final(state).depth_pass == old(state).depth_pass,
        final(state).light_bundle == old(state).light_bundle,
{
    state.clear_color = ClearColor::Black;
    match *event {
        InputEvent::CursorMoved => {
            if state.keys.background {
                state.clear_color = ClearColor::FromCursor;
            }
            InputOutcome { forward: Forward::Nothing, handled: Handled::Yes }
        },
        InputEvent::MouseWheel => InputOutcome { forward: Forward::Scroll, handled: Handled::Yes },
        InputEvent::MouseInput { left, pressed } => {
            if left {
                state.mouse_pressed = pressed;
                InputOutcome { forward: Forward::Nothing, handled: Handled::Yes }
            } else {
                InputOutcome { forward: Forward::Nothing, handled: Handled::No }
            }
        },
        InputEvent::Keyboard { key, pressed } => {
            if pressed && state.keys.press(key) {
                InputOutcome { forward: Forward::Nothing, handled: Handled::Yes }
            } else {
                InputOutcome { forward: Forward::Key { pressed }, handled: Handled::Controller }
            }
        },
        InputEvent::Other => InputOutcome { forward: Forward::Nothing, handled: Handled::No },
    }
}

/// What the loop does with an event of the window that nobody used up.
/// A request to close and the escape key end the program where the
/// program can end (`can_exit`); a new size is handed to `resize`.
pub fn on_unhandled(event: &WindowEvent, can_exit: bool) -> (action: LoopAction)
    ensures
        action == match *event {
            WindowEvent::CloseRequested => if can_exit {
                LoopAction::Exit
            } else {
                LoopAction::Continue
            },
            WindowEvent::Input(InputEvent::Keyboard { key: Key::Escape, pressed: true }) => if can_exit {
                LoopAction::Exit
            } else {
                LoopAction::Continue
            },
            WindowEvent::Resized(size) => LoopAction::Resize(size),
            WindowEvent::ScaleFactorChanged(size) => LoopAction::Resize(size),
            _ => LoopAction::Continue,
        },
{
    match *event {
        WindowEvent::CloseRequested => {
            if can_exit {
                LoopAction::Exit
            } else {
                LoopAction::Continue
            }
        },
        WindowEvent::Input(InputEvent::Keyboard { key, pressed }) => {
            if can_exit && pressed && key == Key::Escape {
                LoopAction::Exit
            } else {
                LoopAction::Continue
            }
        },
        WindowEvent::Resized(size) => LoopAction::Resize(size),
        WindowEvent::ScaleFactorChanged(size) => LoopAction::Resize(size),
        WindowEvent::Input(_) => LoopAction::Continue,
    }
}

/// What the loop does after a frame. A lost surface is configured again
/// with the size that the orchestrator has; without memory the program
/// ends; a surface that timed out or is out of date is reported and left
/// to the next frame.
pub fn on_frame(outcome: Result<(), SurfaceError>, size: Size) -> (action: LoopAction)
    ensures
        action == match outcome {
            Ok(_) => LoopAction::Continue,
            Err(SurfaceError::Lost) => LoopAction::Resize(size),
            Err(SurfaceError::OutOfMemory) => LoopAction::Exit,
            Err(error) => LoopAction::Report(error),
        },
{
    match outcome {
        Ok(_) => LoopAction::Continue,
        Err(SurfaceError::Lost) => LoopAction::Resize(size),
        Err(SurfaceError::OutOfMemory) => LoopAction::Exit,
        Err(error) => LoopAction::Report(error),
    }
}

/// What the loop does with a motion of the mouse: the camera's controller
/// gets it while the left button is held.
pub fn on_mouse_motion(state: &State) -> (action: LoopAction)
    ensures
        action == (if state.mouse_pressed {
            LoopAction::ForwardMotion
        } else {
            LoopAction::Continue
        }),
{
    if state.mouse_pressed {
        LoopAction::ForwardMotion
    } else {
        LoopAction::Continue
    }
}

} // verus!
