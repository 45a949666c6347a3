//! What the scripting loop knows of the renderer: a copy of the facts that
//! the render loop reports, kept behind a lock by whoever shares it.

use vstd::prelude::*;
use crate::command::StateUpdateCommand;

verus! {

/// The scripting side's copy of the renderer's state.
#[derive(Debug, Clone, Copy, PartialEq, Eq)]
pub struct StateMirror {
    width: u32,
    height: u32,
}

impl View for StateMirror {
    type V = (u32, u32);

    /// Width and height of the screen.
    closed spec fn view(&self) -> (u32, u32) {
        (self.width, self.height)
    }
}

/// The mirror after the renderer reported `command`.
pub open spec fn updated(mirror: (u32, u32), command: StateUpdateCommand) -> (u32, u32) {
    match command {
        StateUpdateCommand::ScreenSizeChanged(width, height) => (width, height),
    }
}

impl StateMirror {
    /// The mirror before the renderer has reported anything: a screen of
    /// no size.
    pub fn new() -> (mirror: Self)
        ensures
            mirror@ == (0u32, 0u32),
    {
        StateMirror { width: 0, height: 0 }
    }

    /// Takes in what the renderer reported.
    pub fn update(&mut self, command: StateUpdateCommand)
        ensures
            final(self)@ == updated(old(self)@, command),
    {
        match command {
            StateUpdateCommand::ScreenSizeChanged(width, height) => {
                self.width = width;
                self.height = height;
            },
        }
    }

    /// The binding `screen-size`: width and height as last reported.
    pub fn screen_size(&self) -> (size: (u32, u32))
        ensures
            size == self@,
    {
        (self.width, self.height)
    }
}

} // verus!
