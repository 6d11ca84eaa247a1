use vizdoom::{bytes_to_cstring, check, to_cstring, Error, Reply, VzdStatus};

fn msg(s: &str) -> String {
    s.to_string()
}

#[test]
fn check_success_is_ok() {
    assert!(check(VzdStatus::Success, msg("")).is_ok());
}

#[test]
fn check_maps_each_failing_status() {
    match check(VzdStatus::InvalidArgument, msg("bad handle")) {
        Err(Error::InvalidArgument(m)) => assert_eq!(m, "bad handle"),
        other => panic!("unexpected {:?}", other),
    }
    assert!(matches!(check(VzdStatus::NotRunning, msg("not running")), Err(Error::NotRunning)));
    match check(VzdStatus::FileNotFound, msg("x.cfg")) {
        Err(Error::FileNotFound(m)) => assert_eq!(m, "x.cfg"),
        other => panic!("unexpected {:?}", other),
    }
    match check(VzdStatus::Error, msg("boom")) {
        Err(Error::Engine(m)) => assert_eq!(m, "boom"),
        other => panic!("unexpected {:?}", other),
    }
}

#[test]
fn from_status_of_success_is_an_engine_error() {
    match Error::from_status(VzdStatus::Success, msg("ignored")) {
        Error::Engine(m) => assert_eq!(m, "unexpected OK status converted to error"),
        other => panic!("unexpected {:?}", other),
    }
}

#[test]
fn reply_into_result() {
    assert_eq!(Reply::new(VzdStatus::Success, 7u32, msg("")).into_result().unwrap(), 7);
    assert!(matches!(
        Reply::new(VzdStatus::NotRunning, 7u32, msg("x")).into_result(),
        Err(Error::NotRunning)
    ));
}

#[test]
fn display_strings() {
    assert_eq!(Error::InvalidArgument(msg("x")).to_display_string(), "invalid argument: x");
    assert_eq!(Error::NotRunning.to_display_string(), "game is not running");
    assert_eq!(Error::FileNotFound(msg("a.cfg")).to_display_string(), "file not found: a.cfg");
    assert_eq!(Error::Engine(msg("oops")).to_display_string(), "vizdoom error: oops");
}

#[test]
fn cstring_appends_terminator() {
    assert_eq!(to_cstring("map01").unwrap(), b"map01\0".to_vec());
    assert_eq!(to_cstring("").unwrap(), vec![0u8]);
    assert_eq!(to_cstring("é").unwrap(), vec![0xc3, 0xa9, 0]);
}

#[test]
fn cstring_rejects_interior_nul_with_its_position() {
    match to_cstring("a\0b") {
        Err(Error::InvalidArgument(m)) => {
            assert_eq!(m, "nul byte found in provided data at position: 1")
        }
        other => panic!("unexpected {:?}", other),
    }
    match bytes_to_cstring(&[1u8; 12].iter().copied().chain([0u8, 0u8]).collect::<Vec<u8>>()) {
        Err(Error::InvalidArgument(m)) => {
            assert_eq!(m, "nul byte found in provided data at position: 12")
        }
        other => panic!("unexpected {:?}", other),
    }
}
