//! The main menu's reading of user input.
use crate::user_input::{Cmd, Input, InputKey};
use vstd::prelude::*;

verus! {

/// Interface for the main menu.
pub struct MainMenu;

impl MainMenu {
    /// Maps an input to a menu command: arrows and `hjkl` move, `q` and Esc
    /// exit, Enter selects; anything else is passed on as `DEBUG`.
    pub fn parse_event(event: Input) -> (r: Cmd)
        ensures
            r == match event {
                Input::Key(InputKey::Char('l')) | Input::Key(InputKey::Right) => Cmd::MOVE(1, 0),
                Input::Key(InputKey::Char('h')) | Input::Key(InputKey::Left) => Cmd::MOVE(-1i8, 0i8),
                Input::Key(InputKey::Char('k')) | Input::Key(InputKey::Up) => Cmd::MOVE(0i8, -1i8),
                Input::Key(InputKey::Char('j')) | Input::Key(InputKey::Down) => Cmd::MOVE(0, 1),
                Input::Key(InputKey::Char('q')) | Input::Key(InputKey::Esc) => Cmd::EXIT,
                Input::Key(InputKey::Char('\n')) => Cmd::SELECT,
                _ => Cmd::DEBUG(event),
            },
    {
        match event {
            Input::Key(key) => match key {
                InputKey::Char('l') | InputKey::Right => Cmd::MOVE(1, 0),
                InputKey::Char('h') | InputKey::Left => Cmd::MOVE(-1i8, 0i8),
                InputKey::Char('k') | InputKey::Up => Cmd::MOVE(0i8, -1i8),
                InputKey::Char('j') | InputKey::Down => Cmd::MOVE(0, 1),
                InputKey::Char('q') | InputKey::Esc => Cmd::EXIT,
                InputKey::Char('\n') => Cmd::SELECT,
                _ => Cmd::DEBUG(Input::Key(key)),
            },
            _ => Cmd::DEBUG(event),
        }
    }

    /// The menu keeps no state of its own to update.
    pub fn process_cmds() {
    }
}

} // verus!
