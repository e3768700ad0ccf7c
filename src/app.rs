//! The application's menu state machine.
use crate::games::{game_index, Game, GAME_COUNT};
use crate::user_input::Cmd;
use vstd::prelude::*;

verus! {

/// How the application runs.
#[derive(Clone, Copy, Debug, PartialEq, Eq, Structural)]
pub enum Mode {
    Default,
    Debug,
}

/// Where the application stands.
#[derive(Clone, Copy, Debug, PartialEq, Eq, Structural)]
pub enum State {
    Playing(Game),
    MenuSelection(Game),
    Exit,
}

/// The state of the application.
pub struct App {
    pub state: State,
    pub mode: Mode,
}

/// The game that the menu position `index` holds, or the nearest end of the list.
pub open spec fn game_at(index: int) -> Game {
    if index <= 0 {
        Game::Sandbox
    } else {
        Game::Pong
    }
}

/// The state that follows `state` on command `cmd`, or `None` to stay. In the
/// menu the command comes from the user; while playing it is the command that
/// ended the game.
pub open spec fn next_state(state: State, cmd: Cmd) -> Option<State> {
    match state {
        State::MenuSelection(g) => match cmd {
            Cmd::SELECT => Some(State::Playing(g)),
            Cmd::MOVE(0, -1) => Some(State::MenuSelection(game_at(game_index(g) - 1))),
            Cmd::MOVE(0, 1) => Some(State::MenuSelection(game_at(game_index(g) + 1))),
            Cmd::EXIT => Some(State::Exit),
            _ => None,
        },
        State::Playing(g) => match cmd {
            Cmd::RETURN => Some(State::MenuSelection(g)),
            Cmd::EXIT => Some(State::Exit),
            _ => None,
        },
        State::Exit => Some(State::Exit),
    }
}

impl App {
    /// A new application at the menu, with the first game selected.
    pub fn new(mode: Mode) -> (r: App)
        ensures
            r.state == State::MenuSelection(Game::Sandbox),
            r.mode == mode,
    {
        App { state: State::MenuSelection(Game::Sandbox), mode }
    }

    /// The state that follows the current one on `cmd` (see `next_state`).
    pub fn transition(&self, cmd: &Cmd) -> (r: Option<State>)
        ensures
            r == next_state(self.state, *cmd),
    {
        match self.state {
            State::MenuSelection(game) => match cmd {
                Cmd::SELECT => Some(State::Playing(game)),
                Cmd::MOVE(0, -1) => {
                    let current = game.index();
                    let new_game = if current == 0 {
                        0
                    } else {
                        current - 1
                    };
                    Some(State::MenuSelection(select_game(new_game)))
                },
                Cmd::MOVE(0, 1) => {
                    let current = game.index();
                    let new_game = if current >= GAME_COUNT {
                        GAME_COUNT
                    } else {
                        current + 1
                    };
                    Some(State::MenuSelection(select_game(new_game)))
                },
                Cmd::EXIT => Some(State::Exit),
                _ => None,
            },
            State::Playing(game) => match cmd {
                Cmd::RETURN => Some(State::MenuSelection(game)),
                Cmd::EXIT => Some(State::Exit),
                _ => None,
            },
            State::Exit => Some(State::Exit),
        }
    }

    /// Moves to the state that follows the current one on `cmd`, if any.
    pub fn update(&mut self, cmd: &Cmd)
        ensures
            final(self).mode == old(self).mode,
            final(self).state == match next_state(old(self).state, *cmd) {
                Some(s) => s,
                None => old(self).state,
            },
    {
        if let Some(state) = self.transition(cmd) {
            self.state = state;
        }
    }
}

/// The game at a menu position, the last one past the end of the list.
fn select_game(index: usize) -> (r: Game)
    ensures
        r == game_at(index as int),
{
    match Game::from_repr(index) {
        Some(g) => g,
        None => Game::Pong,
    }
}

} // verus!
