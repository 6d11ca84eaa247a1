//! The arguments each operation hands to the C ABI, and how it reads the
//! answers.

use std::cell::RefCell;

use vizdoom::{Button, DoomGame, Error, GameState, GameVariable, Mode, Reply, ScreenFormat, ScreenResolution, VzdStatus};

#[derive(Default)]
struct Recorder {
    ints: RefCell<Vec<i32>>,
    texts: RefCell<Vec<Vec<u8>>>,
}

fn ok<T>(value: T) -> Reply<T> {
    Reply::new(VzdStatus::Success, value, String::new())
}

fn game() -> DoomGame<Recorder> {
    DoomGame::new(|| ok(Some(Recorder::default()))).unwrap()
}

fn record(r: &Recorder, v: i32) -> Reply<()> {
    r.ints.borrow_mut().push(v);
    ok(())
}

fn record_text(r: &Recorder, c: &Vec<u8>) -> Reply<()> {
    r.texts.borrow_mut().push(c.clone());
    ok(())
}

fn ints(g: &DoomGame<Recorder>) -> Vec<i32> {
    let mut out = Vec::new();
    g.is_running(|r: &Recorder| {
        out = r.ints.borrow().clone();
        ok(0)
    })
    .unwrap();
    out
}

fn texts(g: &DoomGame<Recorder>) -> Vec<Vec<u8>> {
    let mut out = Vec::new();
    g.is_running(|r: &Recorder| {
        out = r.texts.borrow().clone();
        ok(0)
    })
    .unwrap();
    out
}

#[test]
fn new_with_null_handle_is_engine_error() {
    match DoomGame::<Recorder>::new(|| ok(None)) {
        Err(Error::Engine(m)) => assert_eq!(m, "vzd_game_new returned null"),
        Err(e) => panic!("unexpected {:?}", e),
        Ok(_) => panic!("a null handle must not make a game"),
    }
}

#[test]
fn new_with_failing_status_is_that_error() {
    let r = DoomGame::<Recorder>::new(|| {
        Reply::new(VzdStatus::InvalidArgument, None, "null out-param".to_string())
    });
    match r {
        Err(Error::InvalidArgument(m)) => assert_eq!(m, "null out-param"),
        Err(e) => panic!("unexpected {:?}", e),
        Ok(_) => panic!("a failing status must not make a game"),
    }
}

#[test]
fn enum_arguments_are_sent_as_their_integers() {
    let mut g = game();
    g.set_mode(Mode::AsyncSpectator, record).unwrap();
    g.set_screen_resolution(ScreenResolution::Res640x480, record).unwrap();
    g.set_screen_format(ScreenFormat::Doom256Colors8, record).unwrap();
    g.add_available_button(Button::MoveLeft, record).unwrap();
    g.add_available_button_with_max(Button::MoveUpDownDelta, 5.0f64, |r: &Recorder, b: i32, m: f64| {
        assert_eq!(m, 5.0);
        record(r, b)
    })
    .unwrap();
    g.add_available_game_variable(GameVariable::User60, record).unwrap();
    assert_eq!(ints(&g), vec![3, 18, 9, 11, 42, 131]);
}

#[test]
fn bool_arguments_are_sent_as_one_or_zero() {
    let mut g = game();
    g.set_window_visible(true, record).unwrap();
    g.set_render_hud(false, record).unwrap();
    g.set_depth_buffer_enabled(true, record).unwrap();
    g.set_labels_buffer_enabled(false, record).unwrap();
    g.set_automap_buffer_enabled(true, record).unwrap();
    g.set_audio_buffer_enabled(false, record).unwrap();
    g.advance_action(4, true, |r: &Recorder, t: u32, u: i32| {
        assert_eq!(t, 4);
        record(r, u)
    })
    .unwrap();
    assert_eq!(ints(&g), vec![1, 0, 1, 0, 1, 0, 1]);
}

#[test]
fn text_arguments_are_sent_nul_terminated() {
    let mut g = game();
    g.set_vizdoom_path("bin/vizdoom", record_text).unwrap();
    g.set_doom_game_path("bin/freedoom2.wad", record_text).unwrap();
    g.set_doom_scenario_path("scenarios/basic.wad", record_text).unwrap();
    g.set_doom_map("map01", record_text).unwrap();
    g.new_episode_with_recording("rec.lmp", record_text).unwrap();
    assert_eq!(
        texts(&g),
        vec![
            b"bin/vizdoom\0".to_vec(),
            b"bin/freedoom2.wad\0".to_vec(),
            b"scenarios/basic.wad\0".to_vec(),
            b"map01\0".to_vec(),
            b"rec.lmp\0".to_vec(),
        ]
    );
}

#[test]
fn text_with_nul_is_rejected_before_the_call() {
    let mut g = game();
    assert!(matches!(g.set_vizdoom_path("bin\0x", record_text), Err(Error::InvalidArgument(_))));
    assert!(matches!(g.set_config("a\0", |_r: &Recorder, _c: &Vec<u8>| ok(1)), Err(Error::InvalidArgument(_))));
    assert!(texts(&g).is_empty());
}

#[test]
fn flags_read_nonzero_as_true() {
    let g = game();
    assert!(g.is_running(|_r: &Recorder| ok(7)).unwrap());
    assert!(!g.is_new_episode(|_r: &Recorder| ok(0)).unwrap());
    assert!(g.is_episode_timeout_reached(|_r: &Recorder| ok(-1)).unwrap());
    assert!(g.is_player_dead(|_r: &Recorder| ok(1)).unwrap());
    let mut g = game();
    assert!(g.init(|_r: &Recorder| ok(1)).unwrap());
    assert!(!g.set_config("living_reward = 1", |_r: &Recorder, _c: &Vec<u8>| ok(0)).unwrap());
}

#[test]
fn getters_pass_the_value_through() {
    let mut g = game();
    assert_eq!(g.screen_width(|_r: &Recorder| ok(640)).unwrap(), 640);
    assert_eq!(g.screen_height(|_r: &Recorder| ok(480)).unwrap(), 480);
    assert_eq!(g.screen_channels(|_r: &Recorder| ok(3)).unwrap(), 3);
    assert_eq!(g.screen_size(|_r: &Recorder| ok(921600usize)).unwrap(), 921600);
    assert_eq!(g.total_reward(|_r: &Recorder| ok(-12.5f64)).unwrap(), -12.5);
    assert_eq!(
        g.make_action(&[1.0f64, 0.0], 3, |_r: &Recorder, a: &[f64], t: u32| {
            assert_eq!(a, &[1.0, 0.0]);
            assert_eq!(t, 3);
            ok(2.0f64)
        })
        .unwrap(),
        2.0
    );
    g.set_action(&[0.5f64], |_r: &Recorder, a: &[f64]| {
        assert_eq!(a, &[0.5]);
        ok(())
    })
    .unwrap();
}

#[test]
fn screen_format_reads_known_and_unknown_integers() {
    let g = game();
    assert_eq!(g.screen_format(|_r: &Recorder| ok(1)).unwrap(), ScreenFormat::Rgb24);
    match g.screen_format(|_r: &Recorder| ok(10)) {
        Err(Error::Engine(m)) => assert_eq!(m, "unknown screen format 10"),
        other => panic!("unexpected {:?}", other),
    }
    match g.screen_format(|_r: &Recorder| ok(-42)) {
        Err(Error::Engine(m)) => assert_eq!(m, "unknown screen format -42"),
        other => panic!("unexpected {:?}", other),
    }
    match g.screen_format(|_r: &Recorder| ok(i32::MIN)) {
        Err(Error::Engine(m)) => assert_eq!(m, "unknown screen format -2147483648"),
        other => panic!("unexpected {:?}", other),
    }
    assert!(matches!(
        g.screen_format(|_r: &Recorder| Reply::new(VzdStatus::NotRunning, 1, String::new())),
        Err(Error::NotRunning)
    ));
}

#[test]
fn state_is_none_for_a_null_snapshot() {
    let g = game();
    assert!(g.state(|_r: &Recorder| ok(None::<u8>)).unwrap().is_none());
    let s: GameState<u8> = g.state(|_r: &Recorder| ok(Some(5u8))).unwrap().unwrap();
    assert_eq!(s.number(|h: &u8| ok(*h as u32 + 1)).unwrap(), 6);
}

#[test]
fn buffers_of_null_pointers_are_empty() {
    let s = GameState::from_raw(());
    assert!(s.depth_buffer(|_h: &()| ok(None)).unwrap().is_empty());
    assert!(s.labels_buffer(|_h: &()| ok(None)).unwrap().is_empty());
    assert!(s.automap_buffer(|_h: &()| ok(None)).unwrap().is_empty());
    assert!(s.audio_buffer(|_h: &()| ok(None)).unwrap().is_empty());
    assert_eq!(s.screen_buffer(|_h: &()| ok(Some(vec![1u8, 2, 3]))).unwrap(), vec![1, 2, 3]);
    assert_eq!(s.audio_buffer(|_h: &()| ok(Some(vec![-1i16, 1]))).unwrap(), vec![-1, 1]);
    assert_eq!(s.game_variables(|_h: &()| ok(Some(vec![26.0f64]))).unwrap(), vec![26.0]);
    assert_eq!(s.tic(|_h: &()| ok(35u32)).unwrap(), 35);
    assert!(matches!(
        s.screen_buffer(|_h: &()| Reply::new(VzdStatus::Error, None, "no state".to_string())),
        Err(Error::Engine(_))
    ));
}
