//! What the application shell asks of every panel.
//!
//! The shell lays panels out and hands them input. It knows a panel only as a
//! [`Component`]: something that has a place on the screen and answers key and
//! mouse events.

use crossterm::event::KeyEvent;
use crossterm::event::MouseEvent;
use tui::layout::Rect;
use vstd::prelude::*;

verus! {

/// `crossterm::event::KeyEvent`: a key press as the terminal reports it. The
/// library hands such a value on and never looks into it.
#[verifier::external_type_specification]
#[verifier::external_body]
pub struct ExKeyEvent(crossterm::event::KeyEvent);

/// `crossterm::event::MouseEvent`: a mouse action as the terminal reports it.
/// The library hands such a value on and never looks into it.
#[verifier::external_type_specification]
#[verifier::external_body]
pub struct ExMouseEvent(crossterm::event::MouseEvent);

/// `tui::layout::Rect`: a rectangle of screen cells, given by the column and
/// row of its upper left corner, its width and its height.
#[verifier::external_type_specification]
pub struct ExRect(tui::layout::Rect);

/// The rectangle at the origin that covers no cell.
pub open spec fn empty_rect() -> Rect {
    Rect { x: 0, y: 0, width: 0, height: 0 }
}

/// `Rect::default()` is the rectangle at the origin with no width and no
/// height.
pub assume_specification[ <Rect as Default>::default ]() -> (rect: Rect)
    ensures
        rect == empty_rect(),
;

/// What the application does after a component has handled an event.
#[derive(Clone, Copy, Debug, PartialEq, Eq, Structural)]
pub enum EventResult {
    /// Leave the program.
    Quit,
    /// Draw the screen again.
    Redraw,
    /// Nothing changed on the screen.
    NoRedraw,
}

/// A part of the screen that takes input.
///
/// How a component answers an event is a function of its state and of the
/// event: `key_outcome` and `mouse_outcome` give the answer, `after_key` and
/// `after_mouse` the state in which the event leaves the component.
pub trait Component: Sized {
    /// The rectangle that the layout gave this component last.
    spec fn spec_bounds(&self) -> Rect;

    /// The answer of this component to the key event.
    spec fn key_outcome(&self, event: KeyEvent) -> EventResult;

    /// This component after it has handled the key event.
    spec fn after_key(&self, event: KeyEvent) -> Self;

    /// The answer of this component to the mouse event.
    spec fn mouse_outcome(&self, event: MouseEvent) -> EventResult;

    /// This component after it has handled the mouse event.
    spec fn after_mouse(&self, event: MouseEvent) -> Self;

    /// Handles a key event and says what the application is to do next.
    fn handle_key_event(&mut self, event: KeyEvent) -> (outcome: EventResult)
        ensures
            outcome == old(self).key_outcome(event),
            *final(self) == old(self).after_key(event),
    ;

    /// Handles a mouse event and says what the application is to do next.
    fn handle_mouse_event(&mut self, event: MouseEvent) -> (outcome: EventResult)
        ensures
            outcome == old(self).mouse_outcome(event),
            *final(self) == old(self).after_mouse(event),
    ;

    /// The rectangle that the layout gave this component last.
    fn bounds(&self) -> (rect: Rect)
        ensures
            rect == self.spec_bounds(),
    ;

    /// Gives this component a new rectangle.
    fn set_bounds(&mut self, new_bounds: Rect)
        ensures
            final(self).spec_bounds() == new_bounds,
    ;
}

/// A component that stands on the dashboard as a panel of its own.
pub trait Widget: Component {
}

} // verus!
