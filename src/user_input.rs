//! Input events as the library sees them, and the commands they decode to.
use crate::entity::EntityType;
use vstd::prelude::*;

verus! {

/// A key of the keyboard.
#[derive(Clone, Copy, Debug, PartialEq, Eq, Structural)]
pub enum InputKey {
    Char(char),
    Left,
    Right,
    Up,
    Down,
    Esc,
    Other,
}

/// A mouse button.
#[derive(Clone, Copy, Debug, PartialEq, Eq, Structural)]
pub enum Button {
    Left,
    Right,
    Other,
}

/// A user-input event: a key press, a mouse press at a cell, or anything else.
#[derive(Clone, Copy, Debug, PartialEq, Eq, Structural)]
pub enum Input {
    Key(InputKey),
    MousePress(Button, u16, u16),
    Other,
}

/// A control command.
#[derive(Clone, Copy, Debug, PartialEq, Eq, Structural)]
pub enum Cmd {
    STOP,
    /// Move by a direction, each axis in `{-1, 0, 1}`.
    MOVE(i8, i8),
    /// An input that means nothing here, kept for diagnostics.
    DEBUG(Input),
    /// Spawn an entity of a kind at a cell.
    SPAWN(u16, u16, EntityType),
    SELECT,
    RETURN,
    EXIT,
}

} // verus!
