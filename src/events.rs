use vstd::prelude::*;

verus! {

/// A windowing-system event, reduced to what the magnifier acts on.
#[derive(Clone, Copy, Debug, PartialEq, Eq)]
pub enum InputEvent {
    /// A key press, with the keysym of the pressed key.
    KeyPress { keysym: u64 },
    /// A pointer button press, with the button's code (wheel steps included).
    ButtonPress { button: u32 },
    /// Any other event.
    Other,
}

/// What the event loop does with one event.
#[derive(Clone, Copy, Debug, PartialEq, Eq)]
pub enum RouteAction {
    /// Release the display and stop.
    Exit,
    /// Hand the button code to the zoom controller's queue.
    Forward { button: u32 },
    /// Nothing to do.
    Ignore,
}

/// Classifies one event: the exit key stops the magnifier, every button press
/// goes to the zoom controller, and all else is ignored.
pub fn route_event(event: InputEvent, exit_keysym: u64) -> (r: RouteAction)
    ensures
        r == (match event {
            InputEvent::KeyPress { keysym } => if keysym == exit_keysym {
                RouteAction::Exit
            } else {
                RouteAction::Ignore
            },
            InputEvent::ButtonPress { button } => RouteAction::Forward { button },
            InputEvent::Other => RouteAction::Ignore,
        }),
{
    match event {
        InputEvent::KeyPress { keysym } => {
            if keysym == exit_keysym {
                RouteAction::Exit
            } else {
                RouteAction::Ignore
            }
        },
        InputEvent::ButtonPress { button } => RouteAction::Forward { button },
        InputEvent::Other => RouteAction::Ignore,
    }
}

} // verus!
