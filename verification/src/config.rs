//! The resolved configuration and the rules that produce it.

use vstd::prelude::*;
use crate::consts::DEFAULT_OUTPUT_PATH;
use crate::error::{LLErrorView, LLResult};
use crate::overlay::{last_present, overlaid, overlay, pick_last};
use crate::profile::{Profile, ProfileView};

verus! {

/// What the user passed on the command line. A flag that was not given is
/// `None`, or `false` for a switch.
#[derive(Debug, Clone, PartialEq, Eq)]
pub struct CliValues {
    /// `config`: where to look for the configuration file first.
    pub config: Option<String>,
    /// `output`: where downloads go.
    pub output: Option<String>,
    /// `watch`: the directory to watch.
    pub watch: Option<String>,
    /// `format`: the format to extract.
    pub format: Option<String>,
    /// `input`: what to download.
    pub input: Option<String>,
    /// `generate`: write an example configuration file.
    pub generate: bool,
    /// `id`: `input` is an identifier, not a file.
    pub id: bool,
}

/// [`CliValues`] as plain text.
pub struct CliView {
    pub config: Option<Seq<char>>,
    pub output: Option<Seq<char>>,
    pub watch: Option<Seq<char>>,
    pub format: Option<Seq<char>>,
    pub input: Option<Seq<char>>,
    pub generate: bool,
    pub id: bool,
}

impl View for CliValues {
    type V = CliView;

    open spec fn view(&self) -> CliView {
        CliView {
            config: self.config.deep_view(),
            output: self.output.deep_view(),
            watch: self.watch.deep_view(),
            format: self.format.deep_view(),
            input: self.input.deep_view(),
            generate: self.generate,
            id: self.id,
        }
    }
}

/// The `settings` section of a configuration file. Every key is optional.
#[derive(Debug, Clone, PartialEq, Eq)]
pub struct RawSettings {
    pub output_path: Option<String>,
    pub watch_path: Option<String>,
    pub format: Option<String>,
}

/// [`RawSettings`] as plain text.
pub struct RawSettingsView {
    pub output_path: Option<Seq<char>>,
    pub watch_path: Option<Seq<char>>,
    pub format: Option<Seq<char>>,
}

impl View for RawSettings {
    type V = RawSettingsView;

    open spec fn view(&self) -> RawSettingsView {
        RawSettingsView {
            output_path: self.output_path.deep_view(),
            watch_path: self.watch_path.deep_view(),
            format: self.format.deep_view(),
        }
    }
}

impl RawSettingsView {
    /// A `settings` section without any key.
    pub open spec fn absent() -> RawSettingsView {
        RawSettingsView { output_path: None, watch_path: None, format: None }
    }

    /// The keys of `section`; none where there is no section.
    pub open spec fn of(section: Option<RawSettings>) -> RawSettingsView {
        match section {
            Some(section) => section@,
            None => RawSettingsView::absent(),
        }
    }
}

/// A configuration file as it was read. Both sections are optional.
#[derive(Debug, Clone, PartialEq, Eq)]
pub struct RawFileConfig {
    pub settings: Option<RawSettings>,
    pub profile: Option<Profile>,
}

/// [`RawFileConfig`] as plain text.
pub struct RawFileConfigView {
    pub settings: Option<RawSettingsView>,
    pub profile: Option<ProfileView>,
}

impl View for RawFileConfig {
    type V = RawFileConfigView;

    open spec fn view(&self) -> RawFileConfigView {
        RawFileConfigView {
            settings: match self.settings {
                Some(settings) => Some(settings@),
                None => None,
            },
            profile: match self.profile {
                Some(profile) => Some(profile@),
                None => None,
            },
        }
    }
}

/// The settings after resolution. `output_path` is always there.
#[derive(Debug, Clone, PartialEq, Eq)]
pub struct Settings {
    pub output_path: String,
    /// If set, watch mode is on.
    pub watch_path: Option<String>,
    /// If set, only the files of this format are extracted into
    /// `output_path`.
    pub format: Option<String>,
}

/// [`Settings`] as plain text.
pub struct SettingsView {
    pub output_path: Seq<char>,
    pub watch_path: Option<Seq<char>>,
    pub format: Option<Seq<char>>,
}

impl View for Settings {
    type V = SettingsView;

    open spec fn view(&self) -> SettingsView {
        SettingsView {
            output_path: self.output_path@,
            watch_path: self.watch_path.deep_view(),
            format: self.format.deep_view(),
        }
    }
}

/// The configuration that the rest of the program runs on.
#[derive(Debug, Clone, PartialEq, Eq)]
pub struct Config {
    pub settings: Settings,
    pub profile: Profile,
    pub input: String,
    pub generate_config: bool,
    pub treat_input_as_id: bool,
}

/// [`Config`] as plain text.
pub struct ConfigView {
    pub settings: SettingsView,
    pub profile: ProfileView,
    pub input: Seq<char>,
    pub generate_config: bool,
    pub treat_input_as_id: bool,
}

impl View for Config {
    type V = ConfigView;

    open spec fn view(&self) -> ConfigView {
        ConfigView {
            settings: self.settings@,
            profile: self.profile@,
            input: self.input@,
            generate_config: self.generate_config,
            treat_input_as_id: self.treat_input_as_id,
        }
    }
}

impl ConfigView {
    /// The configuration that holds the built-in default of every field.
    pub open spec fn defaults() -> ConfigView {
        ConfigView {
            settings: SettingsView {
                output_path: DEFAULT_OUTPUT_PATH@,
                watch_path: None,
                format: None,
            },
            profile: ProfileView::empty(),
            input: Seq::empty(),
            generate_config: false,
            treat_input_as_id: false,
        }
    }
}

impl Default for Config {
    /// The configuration that holds the built-in default of every field.
    fn default() -> (config: Config)
        ensures
            config@ == ConfigView::defaults(),
    {
        let profile = Profile::placeholder();
        Config {
            settings: Settings {
                output_path: DEFAULT_OUTPUT_PATH.to_owned(),
                watch_path: None,
                format: None,
            },
            profile: profile,
            input: String::new(),
            generate_config: false,
            treat_input_as_id: false,
        }
    }
}

/// A resolved configuration that still lacks its profile.
#[derive(Debug, Clone, PartialEq, Eq)]
pub struct Draft {
    pub settings: Settings,
    pub input: String,
    pub generate_config: bool,
    pub treat_input_as_id: bool,
}

/// [`Draft`] as plain text.
pub struct DraftView {
    pub settings: SettingsView,
    pub input: Seq<char>,
    pub generate_config: bool,
    pub treat_input_as_id: bool,
}

impl View for Draft {
    type V = DraftView;

    open spec fn view(&self) -> DraftView {
        DraftView {
            settings: self.settings@,
            input: self.input@,
            generate_config: self.generate_config,
            treat_input_as_id: self.treat_input_as_id,
        }
    }
}

impl DraftView {
    /// The configuration that this draft becomes with `profile`.
    pub open spec fn with_profile(self, profile: ProfileView) -> ConfigView {
        ConfigView {
            settings: self.settings,
            profile: profile,
            input: self.input,
            generate_config: self.generate_config,
            treat_input_as_id: self.treat_input_as_id,
        }
    }
}

impl ConfigView {
    /// This configuration without its profile.
    pub open spec fn draft(self) -> DraftView {
        DraftView {
            settings: self.settings,
            input: self.input,
            generate_config: self.generate_config,
            treat_input_as_id: self.treat_input_as_id,
        }
    }
}

impl Draft {
    /// Completes the draft with the profile that the user was asked for.
    pub fn with_profile(self, profile: Profile) -> (config: Config)
        ensures
            config@ == self@.with_profile(profile@),
    {
        Config {
            settings: self.settings,
            profile: profile,
            input: self.input,
            generate_config: self.generate_config,
            treat_input_as_id: self.treat_input_as_id,
        }
    }
}

/// How far resolution got without asking the user anything.
#[derive(Debug, Clone, PartialEq, Eq)]
pub enum Loaded {
    /// Every field is resolved.
    Ready(Config),
    /// Every field but the profile is resolved: no file supplied one and
    /// no template was asked for, so the user has to be asked. The caller
    /// does that and completes the draft with [`Draft::with_profile`].
    NeedsProfile(Draft),
}

/// [`Loaded`] as plain text.
pub enum LoadedView {
    Ready(ConfigView),
    NeedsProfile(DraftView),
}

impl View for Loaded {
    type V = LoadedView;

    open spec fn view(&self) -> LoadedView {
        match *self {
            Loaded::Ready(config) => LoadedView::Ready(config@),
            Loaded::NeedsProfile(draft) => LoadedView::NeedsProfile(draft@),
        }
    }
}

impl LoadedView {
    /// Every resolved field but the profile.
    pub open spec fn draft(self) -> DraftView {
        match self {
            LoadedView::Ready(config) => config.draft(),
            LoadedView::NeedsProfile(draft) => draft,
        }
    }

    /// The resolved profile, unless the user has to be asked for it.
    pub open spec fn profile(self) -> Option<ProfileView> {
        match self {
            LoadedView::Ready(config) => Some(config.profile),
            LoadedView::NeedsProfile(_) => None,
        }
    }
}

/// The outcome of a search for a configuration file, as plain text.
pub type FoundView = Result<RawFileConfigView, LLErrorView>;

/// The outcome `found` of a search for a configuration file, as plain
/// text.
pub open spec fn found_view(found: LLResult<RawFileConfig>) -> FoundView {
    match found {
        Ok(file) => Ok(file@),
        Err(failure) => Err(failure@),
    }
}

/// The file-backed configuration that resolution works with: what the
/// search for a configuration file found, or nothing where the search
/// failed, whatever the failure was.
pub open spec fn file_backed(found: FoundView) -> Option<RawFileConfigView> {
    match found {
        Ok(file) => Some(file),
        Err(_) => None,
    }
}

/// The `settings` section of the file-backed configuration; without a
/// file, or without the section, a section that has no key.
pub open spec fn file_settings(file: Option<RawFileConfigView>) -> RawSettingsView {
    match file {
        Some(found) => match found.settings {
            Some(settings) => settings,
            None => RawSettingsView::absent(),
        },
        None => RawSettingsView::absent(),
    }
}

/// The profile of the file-backed configuration, if there is one.
pub open spec fn file_profile(file: Option<RawFileConfigView>) -> Option<ProfileView> {
    match file {
        Some(found) => found.profile,
        None => None,
    }
}

/// The settings that come of the three command-line values and a
/// `settings` section. For every field the section is the lower layer and
/// the command line the higher one; only `output_path` has a built-in
/// default below both.
pub open spec fn layered_settings(
    output: Option<Seq<char>>,
    watch: Option<Seq<char>>,
    format: Option<Seq<char>>,
    section: RawSettingsView,
) -> SettingsView {
    SettingsView {
        output_path: overlaid(DEFAULT_OUTPUT_PATH@, seq![section.output_path, output]),
        watch_path: last_present(seq![section.watch_path, watch]),
        format: last_present(seq![section.format, format]),
    }
}

/// The settings that resolution yields.
pub open spec fn resolved_settings(cli: CliView, file: Option<RawFileConfigView>) -> SettingsView {
    layered_settings(cli.output, cli.watch, cli.format, file_settings(file))
}

/// Every field that resolution yields, but the profile. `input` and the
/// two switches come from the command line alone.
pub open spec fn resolved_draft(cli: CliView, file: Option<RawFileConfigView>) -> DraftView {
    DraftView {
        settings: resolved_settings(cli, file),
        input: overlaid(Seq::empty(), seq![cli.input]),
        generate_config: cli.generate,
        treat_input_as_id: cli.id,
    }
}

/// The profile that resolution yields without asking the user: the one
/// from the file where there is one; else the placeholder where a
/// template was asked for; else none.
pub open spec fn resolved_profile(cli: CliView, file: Option<RawFileConfigView>) -> Option<
    ProfileView,
> {
    match file_profile(file) {
        Some(profile) => Some(profile),
        None => if cli.generate {
            Some(ProfileView::empty())
        } else {
            None
        },
    }
}

/// What [`Config::load`] yields for the given command line and
/// file-backed configuration.
pub open spec fn loaded(cli: CliView, file: Option<RawFileConfigView>) -> LoadedView {
    match resolved_profile(cli, file) {
        Some(profile) => LoadedView::Ready(resolved_draft(cli, file).with_profile(profile)),
        None => LoadedView::NeedsProfile(resolved_draft(cli, file)),
    }
}

impl Settings {
    /// Resolves the settings from the command-line values and the
    /// `settings` section of the file, if there is one.
    pub fn resolve(
        output: Option<String>,
        watch: Option<String>,
        format: Option<String>,
        from_file: Option<RawSettings>,
    ) -> (settings: Settings)
        ensures
            settings@ == layered_settings(
                output.deep_view(),
                watch.deep_view(),
                format.deep_view(),
                RawSettingsView::of(from_file),
            ),
    {
        let (file_output, file_watch, file_format) = match from_file {
            Some(section) => (section.output_path, section.watch_path, section.format),
            None => (None, None, None),
        };
        proof {
            reveal_with_fuel(last_present, 3);
        }
        let output_layers = vec![file_output, output];
        let watch_layers = vec![file_watch, watch];
        let format_layers = vec![file_format, format];
        Settings {
            output_path: overlay(DEFAULT_OUTPUT_PATH.to_owned(), output_layers),
            watch_path: pick_last(watch_layers),
            format: pick_last(format_layers),
        }
    }
}

impl Config {
    /// Resolves the configuration from the command line and from the
    /// outcome of the search for a configuration file.
    ///
    /// Resolution never fails. A search that ended in an error, whatever
    /// the error, counts as a search that found no file: a malformed file
    /// is silently ignored, exactly as a missing one is.
    pub fn load(cli: CliValues, file: LLResult<RawFileConfig>) -> (step: Loaded)
        ensures
            step@ == loaded(cli@, file_backed(found_view(file))),
    {
        let (from_file, file_profile) = match file {
            Ok(found) => (found.settings, found.profile),
            Err(_) => (None, None),
        };
        let settings = Settings::resolve(cli.output, cli.watch, cli.format, from_file);
        proof {
            reveal_with_fuel(last_present, 2);
        }
        let input_layers = vec![cli.input];
        let draft = Draft {
            settings: settings,
            input: overlay(String::new(), input_layers),
            generate_config: cli.generate,
            treat_input_as_id: cli.id,
        };
        match file_profile {
            Some(profile) => Loaded::Ready(draft.with_profile(profile)),
            None => if cli.generate {
                Loaded::Ready(draft.with_profile(Profile::placeholder()))
            } else {
                Loaded::NeedsProfile(draft)
            },
        }
    }
}

} // verus!
