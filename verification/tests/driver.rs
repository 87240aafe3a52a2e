use library_loader::{
    CliValues, Config, LLError, LLResult, Loaded, Next, Probe, Profile, RawFileConfig,
    RawSettings, Search,
};

fn home_config() -> RawFileConfig {
    RawFileConfig {
        settings: Some(RawSettings {
            output_path: Some(String::from("from-home")),
            watch_path: None,
            format: None,
        }),
        profile: Some(Profile::new("home", "pw")),
    }
}

fn flags(config: Option<&str>) -> CliValues {
    CliValues {
        config: config.map(String::from),
        output: None,
        watch: None,
        format: None,
        input: None,
        generate: true,
        id: false,
    }
}

/// Runs the search against a pretended file system and lists the places
/// that were looked at.
fn search(
    path_input: Option<&str>,
    local: Probe,
    home: Option<Probe>,
) -> (LLResult<RawFileConfig>, Vec<String>) {
    let mut looked_at = Vec::new();
    let mut state = Search::Start;
    loop {
        state = match Config::try_from_fs(path_input, state) {
            Next::ProbeLocal(path) => {
                looked_at.push(format!("local:{}", path));
                Search::Local(local.clone())
            },
            Next::ProbeHome(name) => {
                looked_at.push(format!("home:{}", name));
                Search::Home(home.clone())
            },
            Next::Done(result) => return (result, looked_at),
        };
    }
}

fn output_of(step: Loaded) -> String {
    match step {
        Loaded::Ready(config) => config.settings.output_path,
        Loaded::NeedsProfile(draft) => draft.settings.output_path,
    }
}

#[test]
fn corrupt_local_file_keeps_the_search_from_home() {
    let (found, looked_at) = search(
        None,
        Probe::Malformed(String::from("unexpected character")),
        Some(Probe::Parsed(home_config())),
    );
    assert_eq!(looked_at, vec![String::from("local:LibraryLoader.toml")]);
    assert_eq!(found, Err(LLError::ParseError(String::from("unexpected character"))));
    assert_eq!(output_of(Config::load(flags(None), found)), "download");
}

#[test]
fn unreadable_local_file_keeps_the_search_from_home() {
    let (found, looked_at) = search(
        Some("mine.toml"),
        Probe::Unreadable(String::from("permission denied")),
        Some(Probe::Parsed(home_config())),
    );
    assert_eq!(looked_at, vec![String::from("local:mine.toml")]);
    assert_eq!(found, Err(LLError::IoError(String::from("permission denied"))));
    assert_eq!(output_of(Config::load(flags(Some("mine.toml")), found)), "download");
}

#[test]
fn absent_local_file_lets_the_search_go_home() {
    let (found, looked_at) = search(None, Probe::Missing, Some(Probe::Parsed(home_config())));
    assert_eq!(
        looked_at,
        vec![String::from("local:LibraryLoader.toml"), String::from("home:LibraryLoader.toml")]
    );
    assert_eq!(found, Ok(home_config()));
    assert_eq!(output_of(Config::load(flags(None), found)), "from-home");
}

#[test]
fn local_file_is_preferred_to_home() {
    let local = RawFileConfig { settings: None, profile: None };
    let (found, looked_at) =
        search(None, Probe::Parsed(local.clone()), Some(Probe::Parsed(home_config())));
    assert_eq!(looked_at, vec![String::from("local:LibraryLoader.toml")]);
    assert_eq!(found, Ok(local));
}

#[test]
fn search_without_any_file_finds_nothing() {
    let (found, looked_at) = search(None, Probe::Missing, Some(Probe::Missing));
    assert_eq!(looked_at.len(), 2);
    assert_eq!(found, Err(LLError::NotFound));
    let (found, looked_at) = search(None, Probe::Missing, None);
    assert_eq!(looked_at.len(), 2);
    assert_eq!(found, Err(LLError::NotFound));
}

#[test]
fn malformed_local_file_resolves_like_no_file_at_all() {
    let (broken, _) = search(None, Probe::Malformed(String::from("bad")), None);
    let (nothing, _) = search(None, Probe::Missing, None);
    assert_eq!(Config::load(flags(None), broken), Config::load(flags(None), nothing));
}
