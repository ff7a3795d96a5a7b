//! How the formatter is found and called.

use vstd::prelude::*;
use vstd::string::*;
use vstd::utf8::*;
use crate::config::{Config, ConfigView};
use crate::failure::{Failure, FailureView};
use crate::text::{text_from_utf8, trim, trimmed};

verus! {

/// A program and the arguments to start it with.
#[derive(Debug, Clone, PartialEq, Eq)]
pub struct CommandLine {
    pub program: String,
    pub args: Vec<String>,
}

/// A [`CommandLine`] as plain mathematical values.
pub struct CommandLineView {
    pub program: Seq<char>,
    pub args: Seq<Seq<char>>,
}

impl View for CommandLine {
    type V = CommandLineView;

    open spec fn view(&self) -> CommandLineView {
        CommandLineView { program: self.program@, args: self.args.deep_view() }
    }
}

/// The command that prints where the formatter is installed.
pub open spec fn lookup_command_spec() -> CommandLineView {
    CommandLineView { program: "rustup"@, args: seq!["which"@, "rustfmt"@] }
}

/// The command that prints where the formatter is installed.
pub fn lookup_command() -> (command: CommandLine)
    ensures
        command@ == lookup_command_spec(),
{
    let mut args: Vec<String> = Vec::new();
    args.push(String::from_str("which"));
    args.push(String::from_str("rustfmt"));
    let command = CommandLine { program: String::from_str("rustup"), args };
    assert(command.args.deep_view() =~= lookup_command_spec().args);
    command
}

/// The flag and the value of an optional setting: both where the setting is
/// there, nothing where it is not.
pub open spec fn setting_args(flag: Seq<char>, value: Option<Seq<char>>) -> Seq<Seq<char>> {
    match value {
        Some(value) => seq![flag, value],
        None => seq![],
    }
}

/// The formatter's arguments: the order to write the result back to the
/// files, then the settings file and the edition where they are given, each
/// behind its flag, and last the path of the file to format.
pub open spec fn formatter_args_spec(config: ConfigView, path: Seq<char>) -> Seq<Seq<char>> {
    seq!["--emit"@, "files"@] + setting_args("--config-path"@, config.rustfmt_config)
        + setting_args("--edition"@, config.rust_version) + seq![path]
}

/// The formatter's arguments for a configuration and the path that was
/// written.
pub fn formatter_args(config: &Config, path: &str) -> (args: Vec<String>)
    ensures
        args.deep_view() == formatter_args_spec(config@, path@),
{
    let mut args: Vec<String> = Vec::new();
    args.push(String::from_str("--emit"));
    args.push(String::from_str("files"));
    if let Some(settings) = &config.rustfmt_config {
        args.push(String::from_str("--config-path"));
        args.push(settings.clone());
    }
    if let Some(edition) = &config.rust_version {
        args.push(String::from_str("--edition"));
        args.push(edition.clone());
    }
    args.push(path.to_owned());
    assert(args.deep_view() =~= formatter_args_spec(config@, path@));
    args
}

/// Where a settings file is given, its flag is the third argument and the
/// file's path the fourth, and the path of the file to format comes after
/// them, as the last argument.
pub proof fn lemma_settings_file_follows_its_flag(config: ConfigView, path: Seq<char>)
    requires
        config.rustfmt_config is Some,
    ensures
        ({
            let args = formatter_args_spec(config, path);
            &&& args[2] == "--config-path"@
            &&& args[3] == config.rustfmt_config->0
            &&& 3 < args.len() - 1
            &&& args.last() == path
        }),
{
}

/// Where an edition is given, its flag stands right behind what comes
/// before it (the two leading arguments, and the settings file with its flag
/// where there is one), the edition right behind the flag, and the path of
/// the file to format after them, as the last argument.
pub proof fn lemma_edition_follows_its_flag(config: ConfigView, path: Seq<char>)
    requires
        config.rust_version is Some,
    ensures
        ({
            let args = formatter_args_spec(config, path);
            let at = if config.rustfmt_config is Some {
                4int
            } else {
                2int
            };
            &&& args[at] == "--edition"@
            &&& args[at + 1] == config.rust_version->0
            &&& at + 1 < args.len() - 1
            &&& args.last() == path
        }),
{
}

/// The formatter's path as the lookup printed it: the output as text,
/// without the whitespace around it; a failure where the output is no text.
pub open spec fn formatter_path_spec(output: Seq<u8>) -> Result<Seq<char>, FailureView> {
    if valid_utf8(output) {
        Ok(trimmed(decode_utf8(output)))
    } else {
        Err(FailureView::InvalidFormatterPath)
    }
}

/// The formatter's path, read from what the lookup printed.
pub fn formatter_path(output: Vec<u8>) -> (path: Result<String, Failure>)
    ensures
        match formatter_path_spec(output@) {
            Ok(text) => path matches Ok(found) && found@ == text,
            Err(failure) => path matches Err(found) && found@ == failure,
        },
{
    match text_from_utf8(output) {
        Some(text) => Ok(trim(text.as_str())),
        None => Err(Failure::InvalidFormatterPath),
    }
}

/// What follows from how the formatter ended: nothing where it ended well,
/// a failure that reports the status where it did not.
pub open spec fn check_status_spec(success: bool, status: Seq<char>) -> Result<(), FailureView> {
    if success {
        Ok(())
    } else {
        Err(FailureView::FormatterFailed { status })
    }
}

/// What follows from how the formatter ended, as [`check_status_spec`]
/// gives it.
pub fn check_status(success: bool, status: String) -> (checked: Result<(), Failure>)
    ensures
        match check_status_spec(success, status@) {
            Ok(()) => checked is Ok,
            Err(failure) => checked matches Err(found) && found@ == failure,
        },
{
    if success {
        Ok(())
    } else {
        Err(Failure::FormatterFailed { status })
    }
}

} // verus!
