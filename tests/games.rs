use ascii_arcade::app::{App, Mode, State};
use ascii_arcade::entity::{Entity, EntityType, DEFAULT_WINDOW};
use ascii_arcade::games::{Game, SandboxGame};
use ascii_arcade::ui::MainMenu;
use ascii_arcade::user_input::{Button, Cmd, Input, InputKey};
use ascii_arcade::vector::EuclidianVector;

#[test]
fn sandbox_inputs() {
    assert_eq!(SandboxGame::parse_event(Input::Key(InputKey::Char('d'))), Cmd::MOVE(1, 0));
    assert_eq!(SandboxGame::parse_event(Input::Key(InputKey::Char('a'))), Cmd::MOVE(-1, 0));
    assert_eq!(SandboxGame::parse_event(Input::Key(InputKey::Char('w'))), Cmd::MOVE(0, -1));
    assert_eq!(SandboxGame::parse_event(Input::Key(InputKey::Char('s'))), Cmd::MOVE(0, 1));
    assert_eq!(SandboxGame::parse_event(Input::Key(InputKey::Esc)), Cmd::EXIT);
    assert_eq!(
        SandboxGame::parse_event(Input::MousePress(Button::Left, 4, 7)),
        Cmd::SPAWN(4, 7, EntityType::Npc)
    );
    assert_eq!(
        SandboxGame::parse_event(Input::MousePress(Button::Right, 9, 2)),
        Cmd::SPAWN(9, 2, EntityType::Static)
    );
    let other = Input::Key(InputKey::Char('x'));
    assert_eq!(SandboxGame::parse_event(other), Cmd::DEBUG(other));
}

#[test]
fn menu_inputs() {
    assert_eq!(MainMenu::parse_event(Input::Key(InputKey::Char('j'))), Cmd::MOVE(0, 1));
    assert_eq!(MainMenu::parse_event(Input::Key(InputKey::Up)), Cmd::MOVE(0, -1));
    assert_eq!(MainMenu::parse_event(Input::Key(InputKey::Char('\n'))), Cmd::SELECT);
    assert_eq!(MainMenu::parse_event(Input::Key(InputKey::Char('q'))), Cmd::EXIT);
    assert_eq!(MainMenu::parse_event(Input::Other), Cmd::DEBUG(Input::Other));
    MainMenu::process_cmds();
}

#[test]
fn move_control_depends_on_grounding() {
    let mut entities = Vec::new();
    let mut player = Entity::new(EntityType::Player, (5000, 5000));
    player.grounded = true;
    SandboxGame::process_cmds(&mut player, &mut entities, Cmd::MOVE(1, 0));
    // full force towards 20 units per second, vertical speed kept
    assert_eq!(player.input_force, EuclidianVector::new(2_000_000, 0));

    let mut flying = Entity::new(EntityType::Player, (5000, 5000));
    SandboxGame::process_cmds(&mut flying, &mut entities, Cmd::MOVE(1, -1));
    // airborne: 2.5 % of the horizontal force and no vertical force
    assert_eq!(flying.input_force, EuclidianVector::new(50_000, 0));
    assert!(entities.is_empty());
}

#[test]
fn spawn_adds_an_entity() {
    let mut entities = Vec::new();
    let mut player = Entity::new(EntityType::Player, (5000, 5000));
    let cmd = SandboxGame::process_cmds(&mut player, &mut entities, Cmd::SPAWN(7, 3, EntityType::Static));
    assert_eq!(cmd, Cmd::SPAWN(7, 3, EntityType::Static));
    assert_eq!(entities.len(), 1);
    assert_eq!(entities[0].pos, (7000, 3000));
    assert_eq!(entities[0].id, EntityType::Static);
}

#[test]
fn global_forces() {
    let mut e = Entity::new(EntityType::Npc, (5000, 5000));
    e.vel = EuclidianVector::new(10_000, 0);
    SandboxGame::apply_global_forces(&mut e);
    // gravity 9.81 and airborne friction: target 9.9 units per second
    assert_eq!(e.input_force, EuclidianVector::new(-10_000, 9810));
    let mut g = Entity::new(EntityType::Npc, (5000, 5000));
    g.vel = EuclidianVector::new(10_000, 0);
    g.grounded = true;
    SandboxGame::apply_global_forces(&mut g);
    assert_eq!(g.input_force, EuclidianVector::new(-100_000, 9810));
}

#[test]
fn tick_runs_control_and_physics() {
    let mut entities = vec![Entity::new(EntityType::Player, (5000, 5000))];
    assert_eq!(SandboxGame::tick(&mut entities, Some(Cmd::EXIT), DEFAULT_WINDOW), Some(Cmd::EXIT));
    assert_eq!(entities[0].pos, (5000, 5000));

    assert_eq!(
        SandboxGame::tick(&mut entities, Some(Cmd::SPAWN(20, 8, EntityType::Npc)), DEFAULT_WINDOW),
        None
    );
    assert_eq!(entities.len(), 2);
    assert_eq!(entities[1].id, EntityType::Player);
    assert_eq!(entities[0].id, EntityType::Npc);
    // both fall under gravity: 9.81 * 0.01 = 0.0981 units per second
    assert_eq!(entities[0].vel.y, 98);
    assert_eq!(entities[1].vel.y, 98);

    assert_eq!(SandboxGame::tick(&mut entities, None, DEFAULT_WINDOW), None);
    assert_eq!(entities[1].vel.y, 196);
}

#[test]
fn menu_navigation() {
    let mut app = App::new(Mode::Default);
    assert_eq!(app.state, State::MenuSelection(Game::Sandbox));
    app.update(&Cmd::MOVE(0, -1));
    assert_eq!(app.state, State::MenuSelection(Game::Sandbox));
    app.update(&Cmd::MOVE(0, 1));
    assert_eq!(app.state, State::MenuSelection(Game::Pong));
    app.update(&Cmd::MOVE(0, 1));
    assert_eq!(app.state, State::MenuSelection(Game::Pong));
    app.update(&Cmd::STOP);
    assert_eq!(app.state, State::MenuSelection(Game::Pong));
    app.update(&Cmd::SELECT);
    assert_eq!(app.state, State::Playing(Game::Pong));
    app.update(&Cmd::RETURN);
    assert_eq!(app.state, State::MenuSelection(Game::Pong));
    app.update(&Cmd::EXIT);
    assert_eq!(app.state, State::Exit);
    assert_eq!(app.mode, Mode::Default);
    assert_eq!(Game::from_repr(1), Some(Game::Pong));
    assert_eq!(Game::from_repr(2), None);
}
