//! The options of a watch, and the configuration they amount to when they
//! are consistent.

use crate::dispatch::{CommandSink, CommandView, TextSinks, TextSinksView};
use crate::filter::{regex_valid, Filter};
use crate::template::{
    bindings, expand, is_literal, is_plain, law_literal_expands_to_itself, Template,
};
use vstd::prelude::*;
use vstd::string::StringExecFns;

verus! {

/// The options as given on the command line.
#[derive(Debug)]
pub struct Options {
    /// Keep accepted text off standard output.
    pub quiet: bool,
    /// Watch the primary selection in place of the clipboard.
    pub primary: bool,
    /// What follows each text written to the console or the file; a line
    /// feed where none is given.
    pub separator: Option<String>,
    /// Keep what the output file held before.
    pub append: bool,
    /// The path of the output file.
    pub output: Option<String>,
    /// The command for each accepted text; empty for none.
    pub command: String,
    /// The regular expression that a text must match; empty for none.
    pub filter: String,
    /// The template of image file names; given, it selects image mode.
    pub image: Option<String>,
    /// The time between two polls, in milliseconds.
    pub refresh_rate: u64,
    /// The number of dispatches after which the watch ends; 0 for no end.
    pub count: u64,
}

/// The mathematical content of [`Options`].
pub struct OptionsView {
    pub quiet: bool,
    pub primary: bool,
    pub separator: Option<Seq<char>>,
    pub append: bool,
    pub output: Option<Seq<char>>,
    pub command: Seq<char>,
    pub filter: Seq<char>,
    pub image: Option<Seq<char>>,
    pub refresh_rate: nat,
    pub count: nat,
}

/// The view of optional text.
pub open spec fn text_view(text: Option<String>) -> Option<Seq<char>> {
    match text {
        Some(t) => Some(t@),
        None => None,
    }
}

impl View for Options {
    type V = OptionsView;

    open spec fn view(&self) -> OptionsView {
        OptionsView {
            quiet: self.quiet,
            primary: self.primary,
            separator: text_view(self.separator),
            append: self.append,
            output: text_view(self.output),
            command: self.command@,
            filter: self.filter@,
            image: text_view(self.image),
            refresh_rate: self.refresh_rate as nat,
            count: self.count as nat,
        }
    }
}

/// A copy of optional text.
fn clone_text(text: &Option<String>) -> (copy: Option<String>)
    ensures
        text_view(copy) == text_view(*text),
{
    match text {
        Some(t) => Some(t.clone()),
        None => None,
    }
}

impl Clone for Options {
    fn clone(&self) -> (copy: Options)
        ensures
            copy@ == self@,
    {
        Options {
            quiet: self.quiet,
            primary: self.primary,
            separator: clone_text(&self.separator),
            append: self.append,
            output: clone_text(&self.output),
            command: self.command.clone(),
            filter: self.filter.clone(),
            image: clone_text(&self.image),
            refresh_rate: self.refresh_rate,
            count: self.count,
        }
    }
}

/// What the process finds itself in.
#[derive(Clone, Copy, Debug)]
pub struct Environment {
    /// Whether standard output is an interactive terminal.
    pub stdout_is_terminal: bool,
    /// Whether the platform has a primary selection.
    pub primary_selection: bool,
}

/// Why a set of options is refused.
#[derive(Clone, Copy, Debug, PartialEq, Eq, Structural)]
pub enum ConfigError {
    /// Image mode together with an option that only text mode has:
    /// separator, append, output or filter.
    ImageWithTextOption,
    /// No end to the watch while standard output is not a terminal.
    UnboundedWhilePiped,
    /// The primary selection on a platform that has none.
    PrimaryUnsupported,
    /// The filter is not a valid regular expression.
    InvalidFilter,
}

/// What is watched, and where accepted changes go.
#[derive(Debug)]
pub enum Mode {
    /// Text, through the filter where there is one, to the text sinks.
    Text { sinks: TextSinks, filter: Option<Filter> },
    /// Images, each to a file named by the template.
    Image { template: Template },
}

/// The mathematical content of a [`Mode`].
pub enum ModeView {
    Text { sinks: TextSinksView, filter: Option<Seq<char>> },
    Image { template: Seq<char> },
}

impl View for Mode {
    type V = ModeView;

    open spec fn view(&self) -> ModeView {
        match self {
            Mode::Text { sinks, filter } => ModeView::Text {
                sinks: sinks@,
                filter: match filter {
                    Some(f) => Some(f.pattern()),
                    None => None,
                },
            },
            Mode::Image { template } => ModeView::Image { template: template.source() },
        }
    }
}

impl Clone for Mode {
    fn clone(&self) -> (copy: Mode)
        ensures
            copy@ == self@,
    {
        match self {
            Mode::Text { sinks, filter } => Mode::Text {
                sinks: sinks.clone(),
                filter: match filter {
                    Some(f) => Some(f.clone()),
                    None => None,
                },
            },
            Mode::Image { template } => Mode::Image { template: template.clone() },
        }
    }
}

/// A consistent configuration. It does not change while the watch runs.
#[derive(Debug)]
pub struct Configuration {
    /// The time between two polls, in milliseconds.
    pub interval_ms: u64,
    /// The number of dispatches after which the watch ends; 0 for no end.
    pub count: u64,
    /// Whether the primary selection is watched in place of the clipboard.
    pub primary: bool,
    /// What is watched, and where accepted changes go.
    pub mode: Mode,
}

/// The mathematical content of a [`Configuration`].
pub struct ConfigurationView {
    pub interval_ms: nat,
    pub count: nat,
    pub primary: bool,
    pub mode: ModeView,
}

impl View for Configuration {
    type V = ConfigurationView;

    open spec fn view(&self) -> ConfigurationView {
        ConfigurationView {
            interval_ms: self.interval_ms as nat,
            count: self.count as nat,
            primary: self.primary,
            mode: self.mode@,
        }
    }
}

impl Clone for Configuration {
    fn clone(&self) -> (copy: Configuration)
        ensures
            copy@ == self@,
    {
        Configuration {
            interval_ms: self.interval_ms,
            count: self.count,
            primary: self.primary,
            mode: self.mode.clone(),
        }
    }
}

/// The separator where none is given: a line feed.
pub open spec fn default_separator() -> Seq<char> {
    seq!['\n']
}

/// Whether an option is given that only text mode has.
pub open spec fn has_text_option(options: OptionsView) -> bool {
    options.separator is Some || options.append || options.output is Some || options.filter.len()
        > 0
}

/// The first reason to refuse the options, if there is one. No template is
/// a reason: one that does not render is reported when it is rendered, and
/// the watch goes on.
pub open spec fn refusal(options: OptionsView, environment: Environment) -> Option<ConfigError> {
    if options.image is Some && has_text_option(options) {
        Some(ConfigError::ImageWithTextOption)
    } else if !environment.stdout_is_terminal && options.count == 0 {
        Some(ConfigError::UnboundedWhilePiped)
    } else if options.primary && !environment.primary_selection {
        Some(ConfigError::PrimaryUnsupported)
    } else if options.image is None && options.filter.len() > 0 && !regex_valid(options.filter) {
        Some(ConfigError::InvalidFilter)
    } else {
        None
    }
}

/// The command sink that a command option asks for: none for the empty
/// text; for a plain text without placeholders, the program of that name,
/// which gets the captured text as its argument; else the shell line that
/// the template renders to.
pub open spec fn command_sink(command: Seq<char>) -> CommandView {
    if command.len() == 0 {
        CommandView::Disabled
    } else if is_plain(command) && expand(command, Map::empty()) is Some {
        CommandView::Program(expand(command, Map::empty())->0)
    } else {
        CommandView::Line(command)
    }
}

/// The mode that the options ask for.
pub open spec fn configured_mode(options: OptionsView) -> ModeView {
    match options.image {
        Some(template) => ModeView::Image { template },
        None => ModeView::Text {
            sinks: TextSinksView {
                console: !options.quiet,
                output: options.output,
                append: options.append,
                separator: match options.separator {
                    Some(separator) => separator,
                    None => default_separator(),
                },
                command: command_sink(options.command),
            },
            filter: if options.filter.len() > 0 {
                Some(options.filter)
            } else {
                None
            },
        },
    }
}

/// The configuration that the options amount to.
pub open spec fn configured(options: OptionsView) -> ConfigurationView {
    ConfigurationView {
        interval_ms: options.refresh_rate,
        count: options.count,
        primary: options.primary,
        mode: configured_mode(options),
    }
}

/// The status with which the process ends when the watch has reached its
/// cap.
pub const EXIT_DONE: i32 = 0;

/// The status with which the process ends when the options are refused.
pub const EXIT_REFUSED: i32 = 1;

impl ConfigError {
    /// The status with which the process ends on this error. It is never
    /// that of a watch that ran to its end.
    pub fn exit_status(&self) -> (status: i32)
        ensures
            status == EXIT_REFUSED,
            status != EXIT_DONE,
    {
        EXIT_REFUSED
    }
}

/// The command sink for a command option.
pub fn command_sink_of(template: Template) -> (sink: CommandSink)
    ensures
        sink@ == command_sink(template.source()),
{
    if template.is_empty() {
        return CommandSink::Disabled;
    }
    let variables: Vec<(String, String)> = Vec::new();
    assert(bindings(variables.deep_view()) =~= Map::empty());
    match template.render(&variables) {
        Some(Ok(program)) => CommandSink::Program(program),
        _ => CommandSink::Line(template),
    }
}

/// Checks the options against each other and against the environment, and
/// builds the configuration of the watch.
pub fn validate(options: Options, environment: Environment) -> (result: Result<
    Configuration,
    ConfigError,
>)
    ensures
        (match result {
            Ok(configuration) => refusal(options@, environment) is None && configuration@
                == configured(options@),
            Err(error) => refusal(options@, environment) == Some(error),
        }),
{
    let Options {
        quiet,
        primary,
        separator,
        append,
        output,
        command,
        filter,
        image,
        refresh_rate,
        count,
    } = options;
    let text_option = separator.is_some() || append || output.is_some()
        || !filter.as_str().is_empty();
    if image.is_some() && text_option {
        return Err(ConfigError::ImageWithTextOption);
    }
    if !environment.stdout_is_terminal && count == 0 {
        return Err(ConfigError::UnboundedWhilePiped);
    }
    if primary && !environment.primary_selection {
        return Err(ConfigError::PrimaryUnsupported);
    }
    let mode = match image {
        Some(source) => Mode::Image { template: Template::new(source) },
        None => {
            let filter = if filter.as_str().is_empty() {
                None
            } else {
                match Filter::new(filter) {
                    Some(f) => Some(f),
                    None => {
                        return Err(ConfigError::InvalidFilter);
                    },
                }
            };
            let command = command_sink_of(Template::new(command));
            let separator = match separator {
                Some(s) => s,
                None => {
                    proof {
                        reveal_strlit("\n");
                    }
                    let line_feed = String::from_str("\n");
                    assert(line_feed@ =~= default_separator());
                    line_feed
                },
            };
            Mode::Text {
                sinks: TextSinks { console: !quiet, output, append, separator, command },
                filter,
            }
        },
    };
    Ok(Configuration { interval_ms: refresh_rate, count, primary, mode })
}

/// A command that is plain, literal text names a program.
pub proof fn law_literal_command_is_a_program(command: Seq<char>)
    requires
        command.len() > 0,
        is_plain(command),
        is_literal(command),
    ensures
        command_sink(command) == CommandView::Program(command),
{
    law_literal_expands_to_itself(command, Map::empty());
}

} // verus!
