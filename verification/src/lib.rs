//! Layered configuration for the Library Loader command-line tool.
//!
//! A setting can come from three places: a command-line flag, a
//! configuration file, or a built-in default. This crate decides, field by
//! field, which one wins ([`Config::load`]); it decides where configuration
//! files are looked for and in which order ([`Config::try_from_fs`]); and it
//! decides when an example configuration file may be written
//! ([`Config::generate`]).
//!
//! The crate never touches the file system, the terminal or the process
//! arguments itself. Where a decision depends on the outside world, the
//! function returns the next thing to do; the caller does it and calls
//! again with what it found.
//!
//! [`glade`] prepares the interface description of the graphical front end
//! for the build.

pub mod config;
pub mod consts;
pub mod error;
pub mod glade;
pub mod overlay;
pub mod precedence;
pub mod profile;
pub mod reader;
pub mod template;
pub mod text;

pub use config::{
    CliValues, CliView, Config, ConfigView, Draft, DraftView, FoundView, Loaded, LoadedView,
    RawFileConfig, RawFileConfigView, RawSettings, RawSettingsView, Settings, SettingsView,
};
pub use consts::{DEFAULT_OUTPUT_PATH, EXAMPLE_CONFIG, LL_CONFIG};
pub use error::{LLError, LLErrorView, LLResult};
pub use glade::fix_resource_paths;
pub use profile::{Profile, ProfileView};
pub use reader::{Next, NextView, Probe, ProbeView, Search, SearchView};
pub use template::{Attempt, AttemptView, Step, StepView};
