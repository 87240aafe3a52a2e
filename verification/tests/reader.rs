use library_loader::{
    Config, LLError, Next, Probe, Profile, RawFileConfig, RawSettings, Search, LL_CONFIG,
};

fn parsed() -> RawFileConfig {
    RawFileConfig {
        settings: Some(RawSettings {
            output_path: Some(String::from("downloads2")),
            watch_path: None,
            format: None,
        }),
        profile: Some(Profile::new("alice", "secret")),
    }
}

#[test]
fn config_file_name() {
    assert_eq!(LL_CONFIG, "LibraryLoader.toml");
}

#[test]
fn search_starts_at_the_given_path() {
    assert_eq!(
        Config::try_from_fs(Some("custom/ll.toml"), Search::Start),
        Next::ProbeLocal(String::from("custom/ll.toml"))
    );
}

#[test]
fn search_starts_at_the_well_known_name() {
    assert_eq!(
        Config::try_from_fs(None, Search::Start),
        Next::ProbeLocal(String::from("LibraryLoader.toml"))
    );
}

#[test]
fn local_file_ends_the_search() {
    assert_eq!(
        Config::try_from_fs(None, Search::Local(Probe::Parsed(parsed()))),
        Next::Done(Ok(parsed()))
    );
}

#[test]
fn missing_local_file_sends_the_search_home() {
    assert_eq!(
        Config::try_from_fs(None, Search::Local(Probe::Missing)),
        Next::ProbeHome(String::from("LibraryLoader.toml"))
    );
    assert_eq!(
        Config::try_from_fs(Some("custom/ll.toml"), Search::Local(Probe::Missing)),
        Next::ProbeHome(String::from("LibraryLoader.toml"))
    );
}

#[test]
fn unreadable_local_file_does_not_fall_through() {
    let next = Config::try_from_fs(
        None,
        Search::Local(Probe::Unreadable(String::from("permission denied"))),
    );
    assert_eq!(next, Next::Done(Err(LLError::IoError(String::from("permission denied")))));
}

#[test]
fn malformed_local_file_does_not_fall_through() {
    let next = Config::try_from_fs(
        None,
        Search::Local(Probe::Malformed(String::from("expected a table"))),
    );
    assert_eq!(next, Next::Done(Err(LLError::ParseError(String::from("expected a table")))));
}

#[test]
fn home_file_is_used_when_local_is_missing() {
    assert_eq!(
        Config::try_from_fs(None, Search::Home(Some(Probe::Parsed(parsed())))),
        Next::Done(Ok(parsed()))
    );
}

#[test]
fn home_file_errors_are_reported() {
    assert_eq!(
        Config::try_from_fs(None, Search::Home(Some(Probe::Malformed(String::from("bad"))))),
        Next::Done(Err(LLError::ParseError(String::from("bad"))))
    );
    assert_eq!(
        Config::try_from_fs(None, Search::Home(Some(Probe::Unreadable(String::from("io"))))),
        Next::Done(Err(LLError::IoError(String::from("io"))))
    );
}

#[test]
fn nothing_anywhere_is_not_found() {
    assert_eq!(
        Config::try_from_fs(None, Search::Home(Some(Probe::Missing))),
        Next::Done(Err(LLError::NotFound))
    );
}

#[test]
fn unknown_home_directory_is_not_found() {
    assert_eq!(
        Config::try_from_fs(None, Search::Home(None)),
        Next::Done(Err(LLError::NotFound))
    );
}

#[test]
fn probe_into_result() {
    assert_eq!(Probe::Missing.into_result(), Err(LLError::NotFound));
    assert_eq!(Probe::Parsed(parsed()).into_result(), Ok(parsed()));
}

#[test]
fn error_messages() {
    assert_eq!(LLError::NotFound.message(), "LibraryLoader.toml not found");
    assert_eq!(LLError::AlreadyExists.message(), "LibraryLoader.toml already exists");
    assert_eq!(LLError::ParseError(String::from("line 3")).message(), "line 3");
    assert_eq!(LLError::IoError(String::from("disk full")).message(), "disk full");
}
