use vizdoom::{AutomapMode, Button, GameVariable, Mode, SamplingRate, ScreenFormat, ScreenResolution};

#[test]
fn mode_values_match_cpp() {
    assert_eq!(Mode::Player as i32, 0);
    assert_eq!(Mode::AsyncSpectator as i32, 3);
}

#[test]
fn screen_format_values_match_cpp() {
    assert_eq!(ScreenFormat::Crcgcb as i32, 0);
    assert_eq!(ScreenFormat::Doom256Colors8 as i32, 9);
    assert_eq!(ScreenFormat::from_raw(1), Some(ScreenFormat::Rgb24));
    assert_eq!(ScreenFormat::from_raw(99), None);
}

#[test]
fn screen_resolution_values_match_cpp() {
    assert_eq!(ScreenResolution::Res160x120 as i32, 0);
    assert_eq!(ScreenResolution::Res640x480 as i32, 18);
    assert_eq!(ScreenResolution::Res1920x1080 as i32, 35);
}

#[test]
fn button_values_match_cpp() {
    assert_eq!(Button::Attack as i32, 0);
    assert_eq!(Button::MoveLeft as i32, 11);
    assert_eq!(Button::MoveRight as i32, 10);
    assert_eq!(Button::MoveUpDownDelta as i32, 42);
}

#[test]
fn game_variable_values_match_cpp() {
    assert_eq!(GameVariable::KillCount as i32, 0);
    assert_eq!(GameVariable::Health as i32, 9);
    assert_eq!(GameVariable::Ammo2 as i32, 19);
    assert_eq!(GameVariable::PositionX as i32, 37);
    assert_eq!(GameVariable::Player16FragCount as i32, 71);
    assert_eq!(GameVariable::User1 as i32, 72);
    assert_eq!(GameVariable::User60 as i32, 131);
}

#[test]
fn automap_and_sampling_values_match_cpp() {
    assert_eq!(AutomapMode::ObjectsWithSize as i32, 3);
    assert_eq!(SamplingRate::Sr44100 as i32, 2);
}

#[test]
fn to_raw_agrees_with_declared_values() {
    assert_eq!(Mode::Player.to_raw(), 0);
    assert_eq!(Mode::AsyncSpectator.to_raw(), 3);
    assert_eq!(ScreenFormat::Doom256Colors8.to_raw(), 9);
    assert_eq!(ScreenResolution::Res640x480.to_raw(), 18);
    assert_eq!(ScreenResolution::Res1920x1080.to_raw(), 35);
    assert_eq!(Button::MoveLeft.to_raw(), 11);
    assert_eq!(Button::MoveUpDownDelta.to_raw(), 42);
    assert_eq!(GameVariable::Health.to_raw(), 9);
    assert_eq!(GameVariable::Player16FragCount.to_raw(), 71);
    assert_eq!(GameVariable::User60.to_raw(), 131);
    assert_eq!(AutomapMode::ObjectsWithSize.to_raw(), 3);
    assert_eq!(SamplingRate::Sr44100.to_raw(), 2);
}

#[test]
fn screen_format_round_trips_through_its_integer() {
    let all = [
        ScreenFormat::Crcgcb,
        ScreenFormat::Rgb24,
        ScreenFormat::Rgba32,
        ScreenFormat::Argb32,
        ScreenFormat::Cbcgcr,
        ScreenFormat::Bgr24,
        ScreenFormat::Bgra32,
        ScreenFormat::Abgr32,
        ScreenFormat::Gray8,
        ScreenFormat::Doom256Colors8,
    ];
    for (i, f) in all.iter().enumerate() {
        assert_eq!(f.to_raw(), i as i32);
        assert_eq!(ScreenFormat::from_raw(f.to_raw()), Some(*f));
    }
    assert_eq!(ScreenFormat::from_raw(-1), None);
    assert_eq!(ScreenFormat::from_raw(10), None);
    assert_eq!(ScreenFormat::from_raw(i32::MIN), None);
}
