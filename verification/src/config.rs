//! The settings of one run, and how the command line is read into them.

use vstd::prelude::*;

verus! {

/// What one run works with: where to write, what to write, and the two
/// optional settings handed on to the formatter.
#[derive(Debug, Clone, PartialEq, Eq)]
pub struct Config {
    /// The file to write, or the directory to write the default file into.
    pub target: String,
    /// The text to write, taken as it is.
    pub code: String,
    /// The path of a formatter settings file, if one was given.
    pub rustfmt_config: Option<String>,
    /// The edition to format for, if one was given.
    pub rust_version: Option<String>,
}

/// A [`Config`] as plain mathematical values.
pub struct ConfigView {
    pub target: Seq<char>,
    pub code: Seq<char>,
    pub rustfmt_config: Option<Seq<char>>,
    pub rust_version: Option<Seq<char>>,
}

/// The characters of an optional string.
pub open spec fn text_of(s: Option<String>) -> Option<Seq<char>> {
    match s {
        Some(s) => Some(s@),
        None => None,
    }
}

/// The characters of each of a row of optional strings.
pub open spec fn texts_of(values: Seq<Option<String>>) -> Seq<Option<Seq<char>>> {
    Seq::new(values.len(), |i: int| text_of(values[i]))
}

impl View for Config {
    type V = ConfigView;

    open spec fn view(&self) -> ConfigView {
        ConfigView {
            target: self.target@,
            code: self.code@,
            rustfmt_config: text_of(self.rustfmt_config),
            rust_version: text_of(self.rust_version),
        }
    }
}

/// One option of the command line. Every option takes a value.
pub struct OptionSpec {
    /// The name under which the value is found after parsing.
    pub name: &'static str,
    /// The one-letter form, if the option has one.
    pub short: Option<char>,
    /// The long form, without the two dashes.
    pub long: &'static str,
    /// How the help text calls the value.
    pub value_name: &'static str,
    /// Whether a command line without the option is refused.
    pub required: bool,
    /// The line of the help text.
    pub help: &'static str,
}

/// An [`OptionSpec`] as plain mathematical values.
pub struct OptionSpecView {
    pub name: Seq<char>,
    pub short: Option<char>,
    pub long: Seq<char>,
    pub value_name: Seq<char>,
    pub required: bool,
    pub help: Seq<char>,
}

impl DeepView for OptionSpec {
    type V = OptionSpecView;

    open spec fn deep_view(&self) -> OptionSpecView {
        OptionSpecView {
            name: self.name@,
            short: self.short,
            long: self.long@,
            value_name: self.value_name@,
            required: self.required,
            help: self.help@,
        }
    }
}

/// The name that the help text gives the program.
pub const TITLE: &'static str = "Rust code uploader and formatter";

/// The four options, in the order in which [`Config::from_values`] takes
/// their values: target, code, formatter settings, edition.
pub open spec fn option_table_spec() -> Seq<OptionSpecView> {
    seq![
        OptionSpecView {
            name: "target"@,
            short: Some('t'),
            long: "target"@,
            value_name: "FILE"@,
            required: true,
            help: "The file or directory to upload the code to"@,
        },
        OptionSpecView {
            name: "code"@,
            short: Some('c'),
            long: "code"@,
            value_name: "CODE"@,
            required: true,
            help: "The code to be uploaded"@,
        },
        OptionSpecView {
            name: "rustfmt-config"@,
            short: None,
            long: "rustfmt-config"@,
            value_name: "FILE"@,
            required: false,
            help: "Path to a rustfmt configuration file"@,
        },
        OptionSpecView {
            name: "rust-version"@,
            short: None,
            long: "rust-version"@,
            value_name: "VERSION"@,
            required: false,
            help: "The Rust version to use for formatting"@,
        },
    ]
}

/// The table of [`option_table_spec`] as values.
pub fn option_table() -> (table: Vec<OptionSpec>)
    ensures
        table.deep_view() == option_table_spec(),
{
    let mut table: Vec<OptionSpec> = Vec::new();
    table.push(
        OptionSpec {
            name: "target",
            short: Some('t'),
            long: "target",
            value_name: "FILE",
            required: true,
            help: "The file or directory to upload the code to",
        },
    );
    table.push(
        OptionSpec {
            name: "code",
            short: Some('c'),
            long: "code",
            value_name: "CODE",
            required: true,
            help: "The code to be uploaded",
        },
    );
    table.push(
        OptionSpec {
            name: "rustfmt-config",
            short: None,
            long: "rustfmt-config",
            value_name: "FILE",
            required: false,
            help: "Path to a rustfmt configuration file",
        },
    );
    table.push(
        OptionSpec {
            name: "rust-version",
            short: None,
            long: "rust-version",
            value_name: "VERSION",
            required: false,
            help: "The Rust version to use for formatting",
        },
    );
    assert(table.deep_view() =~= option_table_spec());
    table
}

/// The error with which clap refuses a command line. It is carried as it
/// came, for the caller to print.
#[verifier::external_type_specification]
#[verifier::external_body]
pub struct ExClapError(clap::Error);

/// A command line that was refused, or that asked for the help text.
#[derive(Debug)]
pub struct UsageError {
    /// What clap reported.
    pub cause: clap::Error,
}

/// The values that clap finds on a command line for the options of a table,
/// one for each row and in the table's order, or `None` where clap refuses the
/// command line or is asked for help. `title` is the name of the program in
/// the help text, and the first of `args` is the name it was called by.
pub uninterp spec fn matched_values(
    title: Seq<char>,
    table: Seq<OptionSpecView>,
    args: Seq<Seq<char>>,
) -> Option<Seq<Option<Seq<char>>>>;

/// Parses `args` with clap: builds a `clap::App` called `title` with one
/// `clap::Arg` for each row of the table, calls `App::try_get_matches_from`,
/// and reads each row's value back with `ArgMatches::value_of`.
///
/// Not proved, but taken from clap: that the outcome depends on the three
/// arguments alone ([`matched_values`] names it); that there is one value for
/// each row; and that a command line is only accepted if every option marked
/// as required has a value. The contract speaks of this library's own table
/// and of no other.
#[verifier::external_body]
fn match_options(title: &str, table: &Vec<OptionSpec>, args: &Vec<String>) -> (found: Result<
    Vec<Option<String>>,
    clap::Error,
>)
    requires
        table.deep_view() == option_table_spec(),
    ensures
        match matched_values(title@, table.deep_view(), args.deep_view()) {
            Some(values) => found matches Ok(v) && texts_of(v@) == values,
            None => found is Err,
        },
        found matches Ok(v) ==> v@.len() == table@.len() && forall|i: int|
            0 <= i < table@.len() && table@[i].required ==> (#[trigger] v@[i]) is Some,
{
    let mut app = clap::App::new(title);
    for row in table.iter() {
        let arg = clap::Arg::with_name(row.name).long(row.long).value_name(row.value_name)
            .takes_value(true).required(row.required).help(row.help);
        app = app.arg(match row.short { Some(c) => arg.short(c), None => arg });
    }
    let matches = app.try_get_matches_from(args)?;
    Ok(table.iter().map(|row| matches.value_of(row.name).map(String::from)).collect())
}

impl ConfigView {
    /// The values of the four options that make up this configuration, in
    /// the order of [`option_table_spec`]: the two required ones are there, the
    /// two others as far as they were given.
    pub open spec fn values(self) -> Seq<Option<Seq<char>>> {
        seq![Some(self.target), Some(self.code), self.rustfmt_config, self.rust_version]
    }
}

impl Config {
    /// A configuration of the four values.
    pub fn new(
        target: String,
        code: String,
        rustfmt_config: Option<String>,
        rust_version: Option<String>,
    ) -> (config: Config)
        ensures
            config.target == target,
            config.code == code,
            config.rustfmt_config == rustfmt_config,
            config.rust_version == rust_version,
    {
        Config { target, code, rustfmt_config, rust_version }
    }

    /// The configuration made of the values of the four options, in the
    /// order of [`option_table_spec`]. The two required values must be there.
    pub fn from_values(values: Vec<Option<String>>) -> (config: Config)
        requires
            values@.len() == 4,
            values@[0] is Some,
            values@[1] is Some,
        ensures
            config@.values() == texts_of(values@),
    {
        let mut rest = values;
        let rust_version = rest.pop().unwrap();
        let rustfmt_config = rest.pop().unwrap();
        let code = rest.pop().unwrap().unwrap();
        let target = rest.pop().unwrap().unwrap();
        let config = Config { target, code, rustfmt_config, rust_version };
        assert(config@.values() =~= texts_of(values@));
        config
    }

    /// Reads a command line, the program's name first, into a configuration.
    ///
    /// Whether clap accepts the command line, and with which values, is
    /// [`matched_values`]. Where it does, the configuration holds exactly
    /// those values, each in its place, and so both required ones; where it
    /// does not, there is no configuration.
    pub fn from_args(args: &Vec<String>) -> (parsed: Result<Config, UsageError>)
        ensures
            match matched_values(TITLE@, option_table_spec(), args.deep_view()) {
                Some(values) => parsed matches Ok(config) && config@.values() == values,
                None => parsed is Err,
            },
    {
        let table = option_table();
        match match_options(TITLE, &table, args) {
            Ok(values) => {
                proof {
                    let rows = table.deep_view();
                    assert(rows.len() == 4);
                    assert(rows[0].required && rows[1].required);
                    assert(values@[0] is Some && values@[1] is Some);
                }
                Ok(Config::from_values(values))
            },
            Err(cause) => Err(UsageError { cause }),
        }
    }
}

} // verus!
