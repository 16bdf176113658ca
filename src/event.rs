use crate::world::{advance, World, BOX_SIZE, HEIGHT, WIDTH};
use vstd::prelude::*;

verus! {

/// The window events the application reacts to.
#[derive(Clone, Copy, Debug, PartialEq, Eq, Structural)]
pub enum Event {
    /// The user asked to close the window.
    CloseRequested,
    /// The window wants a new frame.
    RedrawRequested,
    /// The window's drawable area changed to `width x height` physical pixels.
    Resized { width: u32, height: u32 },
    /// A key was pressed or released; `escape` tells whether it was Escape.
    KeyboardInput { escape: bool },
    /// Any other event.
    Other,
}

/// What the surrounding event loop does next.
#[derive(Clone, Copy, Debug, PartialEq, Eq, Structural)]
pub enum Action {
    /// Leave the event loop.
    Exit,
    /// Draw the state into the frame, present it, and ask for another redraw.
    Present,
    /// Resize the presentation surface to `width x height`.
    ResizeSurface { width: u32, height: u32 },
    /// Nothing to do.
    Nothing,
}

/// The action an event calls for.
pub open spec fn reaction(event: Event) -> Action {
    match event {
        Event::CloseRequested => Action::Exit,
        Event::RedrawRequested => Action::Present,
        Event::Resized { width, height } => Action::ResizeSurface { width, height },
        Event::KeyboardInput { escape } => if escape {
            Action::Exit
        } else {
            Action::Nothing
        },
        Event::Other => Action::Nothing,
    }
}

impl World {
    /// Reacts to one window event: a redraw request advances the box by one
    /// tick; every other event leaves the state as it is.
    pub fn respond(&mut self, event: Event) -> (r: Action)
        requires
            event is RedrawRequested ==> old(self).can_advance(),
        ensures
            r == reaction(event),
            event is RedrawRequested ==> final(self)@ == advance(
                old(self)@,
                WIDTH as int,
                HEIGHT as int,
                BOX_SIZE as int,
            ),
            !(event is RedrawRequested) ==> *final(self) == *old(self),
            old(self).on_track() ==> final(self).on_track() && final(self).can_advance(),
    {
        match event {
            Event::CloseRequested => Action::Exit,
            Event::RedrawRequested => {
                self.update();
                Action::Present
            },
            Event::Resized { width, height } => Action::ResizeSurface { width, height },
            Event::KeyboardInput { escape } => {
                if escape {
                    Action::Exit
                } else {
                    Action::Nothing
                }
            },
            Event::Other => Action::Nothing,
        }
    }
}

} // verus!
