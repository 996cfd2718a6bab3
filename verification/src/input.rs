//! From raw window input to what a surface is told: the pointer is followed
//! all the time, but a surface hears of movement only while a button is down.

use vstd::prelude::*;
use crate::keys::Key;
use crate::keys::Mods;
use crate::region::Point;

verus! {

/// A pointer button.
#[derive(Debug, Clone, Copy, PartialEq, Eq, Structural)]
pub enum Button {
    Left,
    Right,
    Middle,
    Other(u16),
}

/// What the window system reports for a surface.
#[derive(Debug, Clone, Copy)]
pub enum WindowInput {
    /// The set of held modifiers changed.
    ModifiersChanged(Mods),
    /// A key the application knows was pressed or released.
    Keyboard(Key),
    /// The pointer is now here.
    CursorMoved(Point),
    /// A button went down (`true`) or up (`false`).
    MouseInput(bool, Button),
    /// The surface gained (`true`) or lost (`false`) focus.
    Focused(bool),
    /// Anything else.
    Other,
}

/// What a surface is told.
#[derive(Debug, Clone, Copy)]
pub enum Notice {
    /// Nothing.
    Nothing,
    /// A key event.
    Keyboard(Key),
    /// The pointer moved here with the button down.
    MouseMove(Button, Point),
    /// A button went down here.
    MousePress(Button, Point),
    /// A button went up here.
    MouseRelease(Button, Point),
    /// Focus was gained or lost.
    Focus(bool),
}

/// What is remembered between two inputs.
#[derive(Debug, Clone, Copy)]
pub struct InputState {
    /// The modifiers held.
    pub mods: Mods,
    /// Whether a button is down.
    pub pressed: bool,
    /// Where the pointer was when it last moved with the button down.
    pub mouse_pos: Point,
    /// Where the pointer was when a button last went down or up.
    pub mouse_begin: Point,
    /// Where the pointer was last seen.
    pub mouse_prev_pos: Point,
    /// The button that last went down or up.
    pub mouse_btn: Button,
}

impl InputState {
    /// The state that `input` leaves behind.
    pub open spec fn next(&self, input: WindowInput) -> InputState {
        match input {
            WindowInput::ModifiersChanged(mods) => InputState { mods, ..*self },
            WindowInput::CursorMoved(p) => if self.pressed {
                InputState { mouse_prev_pos: p, mouse_pos: p, ..*self }
            } else {
                InputState { mouse_prev_pos: p, ..*self }
            },
            WindowInput::MouseInput(down, button) => InputState {
                pressed: down,
                mouse_begin: self.mouse_prev_pos,
                mouse_btn: button,
                ..*self
            },
            _ => *self,
        }
    }

    /// What the surface is told of `input`.
    pub open spec fn notice(&self, input: WindowInput) -> Notice {
        match input {
            WindowInput::Keyboard(key) => Notice::Keyboard(key),
            WindowInput::CursorMoved(p) => if self.pressed {
                Notice::MouseMove(self.mouse_btn, p)
            } else {
                Notice::Nothing
            },
            WindowInput::MouseInput(down, button) => if down {
                Notice::MousePress(button, self.mouse_prev_pos)
            } else {
                Notice::MouseRelease(button, self.mouse_prev_pos)
            },
            WindowInput::Focused(focus) => Notice::Focus(focus),
            _ => Notice::Nothing,
        }
    }

    /// Nothing held, no button down, the pointer at the origin.
    pub fn new() -> (s: InputState)
        ensures
            s == (InputState {
                mods: Mods { shift: false, ctrl: false, alt: false, logo: false },
                pressed: false,
                mouse_pos: (0i32, 0i32),
                mouse_begin: (0i32, 0i32),
                mouse_prev_pos: (0i32, 0i32),
                mouse_btn: Button::Left,
            }),
    {
        InputState {
            mods: Mods::empty(),
            pressed: false,
            mouse_pos: (0, 0),
            mouse_begin: (0, 0),
            mouse_prev_pos: (0, 0),
            mouse_btn: Button::Left,
        }
    }

    /// Takes one input: remembers what it changes and returns what the
    /// surface is to be told.
    pub fn translate(&mut self, input: WindowInput) -> (notice: Notice)
        ensures
            *final(self) == old(self).next(input),
            notice == old(self).notice(input),
    {
        match input {
            WindowInput::ModifiersChanged(mods) => {
                self.mods = mods;
                Notice::Nothing
            },
            WindowInput::Keyboard(key) => Notice::Keyboard(key),
            WindowInput::CursorMoved(p) => {
                self.mouse_prev_pos = p;
                if self.pressed {
                    self.mouse_pos = p;
                    Notice::MouseMove(self.mouse_btn, p)
                } else {
                    Notice::Nothing
                }
            },
            WindowInput::MouseInput(down, button) => {
                let at = self.mouse_prev_pos;
                self.pressed = down;
                self.mouse_begin = at;
                self.mouse_btn = button;
                if down {
                    Notice::MousePress(button, at)
                } else {
                    Notice::MouseRelease(button, at)
                }
            },
            WindowInput::Focused(focus) => Notice::Focus(focus),
            WindowInput::Other => Notice::Nothing,
        }
    }
}

/// A surface hears of pointer movement only between a press and the
/// release that follows it.
pub proof fn lemma_moves_only_while_pressed(s: InputState, p: Point)
    ensures
        s.notice(WindowInput::CursorMoved(p)) is MouseMove <==> s.pressed,
        s.next(WindowInput::CursorMoved(p)).mouse_prev_pos == p,
{
}

} // verus!
