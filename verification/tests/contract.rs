//! Contract tests for the safe game API, driven by a stand-in for the C ABI
//! of a game that was created but not initialized: every engine-backed call
//! answers `NotRunning`, configuration calls succeed, and the button and
//! variable lists are kept. They check that the wrapper maps C ABI statuses
//! onto the right typed errors without spawning the engine.

use std::cell::RefCell;

use vizdoom::{Button, DoomGame, Error, GameVariable, Mode, Reply, ScreenFormat, ScreenResolution, VzdStatus};

#[derive(Default)]
struct Engine {
    running: bool,
    buttons: RefCell<Vec<i32>>,
    variables: RefCell<Vec<i32>>,
}

fn ok<T>(value: T) -> Reply<T> {
    Reply::new(VzdStatus::Success, value, String::new())
}

fn guarded<T>(engine: &Engine, value: T) -> Reply<T> {
    if engine.running {
        ok(value)
    } else {
        Reply::new(VzdStatus::NotRunning, value, "game is not running".to_string())
    }
}

fn new_engine_game() -> DoomGame<Engine> {
    DoomGame::new(|| ok(Some(Engine::default()))).expect("new should succeed")
}

#[test]
fn new_game_is_not_running() {
    let game = new_engine_game();
    assert!(!game
        .is_running(|e: &Engine| ok(e.running as i32))
        .expect("is_running should succeed"));
}

#[test]
fn operations_without_init_return_not_running() {
    let mut game = new_engine_game();

    assert!(matches!(
        game.state(|e: &Engine| guarded(e, None::<u32>)),
        Err(Error::NotRunning)
    ));
    assert!(matches!(
        game.get_game_variable(GameVariable::KillCount, |e: &Engine, _v: i32| guarded(e, 0.0f64)),
        Err(Error::NotRunning)
    ));
    assert!(matches!(
        game.last_reward(|e: &Engine| guarded(e, 0.0f64)),
        Err(Error::NotRunning)
    ));
    assert!(matches!(
        game.make_action(&[0.0f64], 1, |e: &Engine, _a: &[f64], _t: u32| guarded(e, 0.0f64)),
        Err(Error::NotRunning)
    ));
    assert!(matches!(
        game.respawn_player(|e: &Engine| guarded(e, ())),
        Err(Error::NotRunning)
    ));
    assert!(matches!(
        game.is_episode_finished(|e: &Engine| guarded(e, 0)),
        Err(Error::NotRunning)
    ));
}

#[test]
fn interior_nul_is_invalid_argument() {
    let mut game = new_engine_game();
    assert!(matches!(
        game.set_doom_map("a\0b", |_e: &Engine, _c: &Vec<u8>| -> Reply<()> {
            panic!("a string with a NUL byte must not reach the C ABI")
        }),
        Err(Error::InvalidArgument(_))
    ));
}

#[test]
fn missing_config_is_file_not_found() {
    let mut game = new_engine_game();
    assert!(matches!(
        game.load_config("this/path/does/not/exist.cfg", |_e: &Engine, c: &Vec<u8>| {
            assert_eq!(c.as_slice(), b"this/path/does/not/exist.cfg\0");
            Reply::new(VzdStatus::FileNotFound, 0, "this/path/does/not/exist.cfg".to_string())
        }),
        Err(Error::FileNotFound(_))
    ));
}

fn add(e: &Engine, b: i32) -> Reply<()> {
    e.buttons.borrow_mut().push(b);
    ok(())
}

fn clear(e: &Engine) -> Reply<()> {
    e.buttons.borrow_mut().clear();
    ok(())
}

fn size(e: &Engine) -> Reply<usize> {
    ok(e.buttons.borrow().len())
}

#[test]
fn button_list_management() {
    let mut game = new_engine_game();

    game.clear_available_buttons(clear).unwrap();
    assert_eq!(game.available_buttons_size(size).unwrap(), 0);

    game.add_available_button(Button::MoveLeft, add).unwrap();
    game.add_available_button(Button::MoveRight, add).unwrap();
    game.add_available_button(Button::Attack, add).unwrap();
    assert_eq!(game.available_buttons_size(size).unwrap(), 3);

    game.clear_available_buttons(clear).unwrap();
    assert_eq!(game.available_buttons_size(size).unwrap(), 0);
}

#[test]
fn engine_free_config_setters_succeed() {
    let mut game = new_engine_game();
    game.set_doom_map("map01", |_e: &Engine, _c: &Vec<u8>| ok(())).unwrap();
    game.set_mode(Mode::Player, |_e: &Engine, _m: i32| ok(())).unwrap();
    game.set_seed(42, |_e: &Engine, _s: u32| ok(())).unwrap();
    game.set_episode_timeout(200, |_e: &Engine, _t: u32| ok(())).unwrap();
    game.set_screen_resolution(ScreenResolution::Res320x240, |_e: &Engine, _r: i32| ok(())).unwrap();
    game.set_screen_format(ScreenFormat::Rgb24, |_e: &Engine, _f: i32| ok(())).unwrap();
    game.set_window_visible(false, |_e: &Engine, _v: i32| ok(())).unwrap();
    game.set_living_reward(1.0f64, |_e: &Engine, _r: f64| ok(())).unwrap();
    game.add_available_game_variable(GameVariable::Ammo2, |e: &Engine, v: i32| {
        e.variables.borrow_mut().push(v);
        ok(())
    })
    .unwrap();
    game.clear_available_game_variables(|e: &Engine| {
        e.variables.borrow_mut().clear();
        ok(())
    })
    .unwrap();
}
