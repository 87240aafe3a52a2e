//! What resolution guarantees, field by field.
//!
//! Every statement here is about [`loaded`], the function that
//! [`Config::load`](crate::config::Config::load) computes, and holds for
//! every command line and every file-backed configuration.

use vstd::prelude::*;
use crate::config::{
    file_backed, file_profile, file_settings, found_view, loaded, CliValues, CliView, ConfigView,
    Loaded, RawFileConfig, RawFileConfigView,
};
use crate::error::{LLErrorView, LLResult};
use crate::overlay::last_present;
use crate::profile::Profile;
use crate::reader::{next_step, outcome, NextView, ProbeView, SearchView};

verus! {

/// A field that neither the command line nor the file supplies takes its
/// built-in default, the value it has in `Config::default()`. For the
/// profile this holds where a template was asked for; otherwise there is
/// no default and the user is asked.
pub proof fn lemma_unsupplied_field_is_default(cli: CliView, file: Option<RawFileConfigView>)
    ensures
        cli.output is None && file_settings(file).output_path is None ==> loaded(
            cli,
            file,
        ).draft().settings.output_path == ConfigView::defaults().settings.output_path,
        cli.watch is None && file_settings(file).watch_path is None ==> loaded(
            cli,
            file,
        ).draft().settings.watch_path == ConfigView::defaults().settings.watch_path,
        cli.format is None && file_settings(file).format is None ==> loaded(
            cli,
            file,
        ).draft().settings.format == ConfigView::defaults().settings.format,
        cli.input is None ==> loaded(cli, file).draft().input == ConfigView::defaults().input,
        !cli.generate ==> loaded(cli, file).draft().generate_config
            == ConfigView::defaults().generate_config,
        !cli.id ==> loaded(cli, file).draft().treat_input_as_id
            == ConfigView::defaults().treat_input_as_id,
        cli.generate && file_profile(file) is None ==> loaded(cli, file).profile() == Some(
            ConfigView::defaults().profile,
        ),
        !cli.generate && file_profile(file) is None ==> loaded(cli, file).profile() is None,
{
    reveal_with_fuel(last_present, 3);
}

/// A value given on the command line wins, whatever the file holds for
/// that field. The profile is the exception: no flag sets it, and the one
/// in the file is used as it is.
pub proof fn lemma_command_line_wins(cli: CliView, file: Option<RawFileConfigView>)
    ensures
        cli.output matches Some(given) ==> loaded(cli, file).draft().settings.output_path
            == given,
        cli.watch matches Some(given) ==> loaded(cli, file).draft().settings.watch_path == Some(
            given,
        ),
        cli.format matches Some(given) ==> loaded(cli, file).draft().settings.format == Some(
            given,
        ),
        cli.input matches Some(given) ==> loaded(cli, file).draft().input == given,
        loaded(cli, file).draft().generate_config == cli.generate,
        loaded(cli, file).draft().treat_input_as_id == cli.id,
        file_profile(file) matches Some(stored) ==> loaded(cli, file).profile() == Some(stored),
{
    reveal_with_fuel(last_present, 3);
}

/// A value that only the file supplies is the resolved value.
pub proof fn lemma_file_fills_in(cli: CliView, file: Option<RawFileConfigView>)
    ensures
        cli.output is None ==> (file_settings(file).output_path matches Some(stored) ==> loaded(
            cli,
            file,
        ).draft().settings.output_path == stored),
        cli.watch is None ==> loaded(cli, file).draft().settings.watch_path == file_settings(
            file,
        ).watch_path,
        cli.format is None ==> loaded(cli, file).draft().settings.format == file_settings(
            file,
        ).format,
        file_profile(file) matches Some(stored) ==> loaded(cli, file).profile() == Some(stored),
{
    reveal_with_fuel(last_present, 3);
}

/// Resolution is a function of its inputs. Two runs of `Config::load`
/// whose command lines read the same and whose searches found the same
/// come to the same result, character for character; and where the user
/// had to be asked and gave the same profile both times, so do the
/// completed configurations.
pub proof fn lemma_same_inputs_same_config(
    first_cli: CliValues,
    first_file: LLResult<RawFileConfig>,
    first: Loaded,
    second_cli: CliValues,
    second_file: LLResult<RawFileConfig>,
    second: Loaded,
    first_answer: Profile,
    second_answer: Profile,
)
    requires
        first_cli@ == second_cli@,
        found_view(first_file) == found_view(second_file),
        first@ == loaded(first_cli@, file_backed(found_view(first_file))),
        second@ == loaded(second_cli@, file_backed(found_view(second_file))),
        first_answer@ == second_answer@,
    ensures
        first@ == second@,
        first@.draft().with_profile(first_answer@) == second@.draft().with_profile(
            second_answer@,
        ),
{
}

/// A search that failed counts as a search that found no file, whatever
/// went wrong.
pub proof fn lemma_failed_search_is_no_file(cli: CliView, failure: LLErrorView)
    ensures
        loaded(cli, file_backed(Err(failure))) == loaded(cli, None),
        loaded(cli, file_backed(Err(failure))) == loaded(
            cli,
            file_backed(Err(LLErrorView::NotFound)),
        ),
{
}

/// A file at the first place that is malformed, or that cannot be read,
/// resolves exactly as if there were no file anywhere: the search ends
/// with an error instead of going on to the per-user directory, and
/// resolution treats that error as it treats a search that found nothing.
pub proof fn lemma_broken_local_file_resolves_as_none(
    cli: CliView,
    path_input: Option<Seq<char>>,
    broken: ProbeView,
)
    requires
        broken is Malformed || broken is Unreadable,
    ensures
        next_step(path_input, SearchView::Local(broken)) == NextView::Done(outcome(broken)),
        outcome(broken) is Err,
        loaded(cli, file_backed(outcome(broken))) == loaded(
            cli,
            file_backed(outcome(ProbeView::Missing)),
        ),
        loaded(cli, file_backed(outcome(broken))) == loaded(cli, None),
{
}

} // verus!
