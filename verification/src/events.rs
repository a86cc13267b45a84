//! Window-event dispatch: what the outer event loop does with each event
//! the windowing toolkit reports for the rendered window.

use vstd::prelude::*;

verus! {

/// A window event, reduced to what the dispatch decision reads.
#[derive(Clone, Copy, Debug, PartialEq, Eq, Structural)]
pub enum WindowEventKind {
    /// The user asked to close the window.
    CloseRequested,
    /// A key changed state; `pressed` is its new state and `escape` says
    /// whether it is the escape key.
    KeyInput { pressed: bool, escape: bool },
    /// The window was resized to this physical size.
    Resized { width: u32, height: u32 },
    /// The display scale factor changed, giving the window this new
    /// physical size.
    ScaleFactorChanged { width: u32, height: u32 },
    /// Any other window event.
    Other,
}

/// What the event loop does with one window event.
#[derive(Clone, Copy, Debug, PartialEq, Eq, Structural)]
pub enum LoopAction {
    /// Stop the event loop and terminate.
    Exit,
    /// Resize the rendering context to this physical size.
    Resize { width: u32, height: u32 },
    /// Nothing; the event is ignored.
    Ignore,
}

/// Decides the loop's reaction to a window event: a close request or a
/// press of the escape key exits; a resize or scale-factor change resizes
/// to the reported size; everything else is ignored.
pub fn handle_window_event(event: &WindowEventKind) -> (action: LoopAction)
    ensures
        *event == WindowEventKind::CloseRequested ==> action == LoopAction::Exit,
        *event matches WindowEventKind::KeyInput { pressed, escape } ==> (if pressed && escape {
            action == LoopAction::Exit
        } else {
            action == LoopAction::Ignore
        }),
        *event matches WindowEventKind::Resized { width, height } ==> action
            == (LoopAction::Resize { width, height }),
        *event matches WindowEventKind::ScaleFactorChanged { width, height } ==> action
            == (LoopAction::Resize { width, height }),
        *event == WindowEventKind::Other ==> action == LoopAction::Ignore,
{
    match *event {
        WindowEventKind::CloseRequested => LoopAction::Exit,
        WindowEventKind::KeyInput { pressed, escape } => if pressed && escape {
            LoopAction::Exit
        } else {
            LoopAction::Ignore
        },
        WindowEventKind::Resized { width, height } => LoopAction::Resize { width, height },
        WindowEventKind::ScaleFactorChanged { width, height } => LoopAction::Resize {
            width,
            height,
        },
        WindowEventKind::Other => LoopAction::Ignore,
    }
}

} // verus!
