//! The sinks of an accepted change, and what is sent to each.

use crate::decimal::{decimal, decimal_string, law_decimal_injective};
use crate::template::{
    bindings, expand, is_literal, is_plain, law_placeholder_is_replaced, placeholder, Template,
};
use vstd::prelude::*;
use vstd::string::StringExecFns;

verus! {

/// One effect that the caller is to perform for an accepted change. Each
/// stands alone: a failure of one does not keep the others from being
/// performed.
#[derive(Debug, PartialEq, Eq)]
pub enum Action {
    /// Write the text to standard output and flush it.
    Console(String),
    /// Write the text to the output file.
    File(String),
    /// Run the line through a shell and wait for it to end.
    Shell(String),
    /// Render the template with the variables, each a name with its value;
    /// run what comes out through a shell and wait for it to end, or report
    /// that the template did not render.
    RenderShell { template: String, variables: Vec<(String, String)> },
    /// Start the program with the one argument and wait for it to end.
    Spawn { program: String, argument: String },
    /// Encode the image and store it at the path, in the format that the
    /// path's extension names.
    SaveImage { path: String, width: u32, height: u32, pixels: Vec<u8> },
    /// Render the template with the variables, each a name with its value;
    /// encode the image and store it at the path that comes out, or report
    /// that the template did not render.
    RenderImage {
        template: String,
        variables: Vec<(String, String)>,
        width: u32,
        height: u32,
        pixels: Vec<u8>,
    },
    /// Report the message on the error stream.
    Report(String),
}

/// The mathematical content of an [`Action`]. What a report says is left
/// open.
pub enum ActionView {
    Console(Seq<char>),
    File(Seq<char>),
    Shell(Seq<char>),
    RenderShell { template: Seq<char>, variables: Seq<(Seq<char>, Seq<char>)> },
    Spawn { program: Seq<char>, argument: Seq<char> },
    SaveImage { path: Seq<char>, width: nat, height: nat, pixels: Seq<u8> },
    RenderImage {
        template: Seq<char>,
        variables: Seq<(Seq<char>, Seq<char>)>,
        width: nat,
        height: nat,
        pixels: Seq<u8>,
    },
    Report,
}

impl DeepView for Action {
    type V = ActionView;

    open spec fn deep_view(&self) -> ActionView {
        match self {
            Action::Console(text) => ActionView::Console(text@),
            Action::File(text) => ActionView::File(text@),
            Action::Shell(line) => ActionView::Shell(line@),
            Action::RenderShell { template, variables } => ActionView::RenderShell {
                template: template@,
                variables: variables.deep_view(),
            },
            Action::Spawn { program, argument } => ActionView::Spawn {
                program: program@,
                argument: argument@,
            },
            Action::SaveImage { path, width, height, pixels } => ActionView::SaveImage {
                path: path@,
                width: *width as nat,
                height: *height as nat,
                pixels: pixels@,
            },
            Action::RenderImage {
                template,
                variables,
                width,
                height,
                pixels,
            } => ActionView::RenderImage {
                template: template@,
                variables: variables.deep_view(),
                width: *width as nat,
                height: *height as nat,
                pixels: pixels@,
            },
            Action::Report(_) => ActionView::Report,
        }
    }
}

/// A copy of a list of variables.
fn clone_variables(variables: &Vec<(String, String)>) -> (copy: Vec<(String, String)>)
    ensures
        copy.deep_view() == variables.deep_view(),
{
    let mut copy: Vec<(String, String)> = Vec::new();
    let mut i: usize = 0;
    while i < variables.len()
        invariant
            i <= variables@.len(),
            copy@.len() == i,
            forall|k: int|
                0 <= k < i ==> (#[trigger] copy@[k]).0@ == variables@[k].0@ && copy@[k].1@
                    == variables@[k].1@,
        decreases variables@.len() - i,
    {
        copy.push((variables[i].0.clone(), variables[i].1.clone()));
        i += 1;
    }
    assert(copy.deep_view() =~= variables.deep_view());
    copy
}

impl Clone for Action {
    fn clone(&self) -> (copy: Action)
        ensures
            copy.deep_view() == self.deep_view(),
    {
        match self {
            Action::Console(text) => Action::Console(text.clone()),
            Action::File(text) => Action::File(text.clone()),
            Action::Shell(line) => Action::Shell(line.clone()),
            Action::RenderShell { template, variables } => Action::RenderShell {
                template: template.clone(),
                variables: clone_variables(variables),
            },
            Action::Spawn { program, argument } => Action::Spawn {
                program: program.clone(),
                argument: argument.clone(),
            },
            Action::SaveImage { path, width, height, pixels } => Action::SaveImage {
                path: path.clone(),
                width: *width,
                height: *height,
                pixels: pixels.clone(),
            },
            Action::RenderImage { template, variables, width, height, pixels } => {
                Action::RenderImage {
                    template: template.clone(),
                    variables: clone_variables(variables),
                    width: *width,
                    height: *height,
                    pixels: pixels.clone(),
                }
            },
            Action::Report(message) => Action::Report(message.clone()),
        }
    }
}

/// What is run for each accepted text.
#[derive(Debug)]
pub enum CommandSink {
    /// Nothing.
    Disabled,
    /// This program, with the text as its one argument.
    Program(String),
    /// The rendering of this template, as a shell line.
    Line(Template),
}

/// The mathematical content of a [`CommandSink`].
pub enum CommandView {
    Disabled,
    Program(Seq<char>),
    Line(Seq<char>),
}

impl View for CommandSink {
    type V = CommandView;

    open spec fn view(&self) -> CommandView {
        match self {
            CommandSink::Disabled => CommandView::Disabled,
            CommandSink::Program(program) => CommandView::Program(program@),
            CommandSink::Line(template) => CommandView::Line(template.source()),
        }
    }
}

impl Clone for CommandSink {
    fn clone(&self) -> (copy: CommandSink)
        ensures
            copy@ == self@,
    {
        match self {
            CommandSink::Disabled => CommandSink::Disabled,
            CommandSink::Program(program) => CommandSink::Program(program.clone()),
            CommandSink::Line(template) => CommandSink::Line(template.clone()),
        }
    }
}

/// The sinks of text mode.
#[derive(Debug)]
pub struct TextSinks {
    /// Whether accepted text goes to standard output.
    pub console: bool,
    /// The path of the output file, where accepted text goes to one.
    pub output: Option<String>,
    /// Whether the output file keeps what it held before the watch began.
    pub append: bool,
    /// What follows each text on the console and in the file.
    pub separator: String,
    /// What is run for each accepted text.
    pub command: CommandSink,
}

/// The mathematical content of [`TextSinks`].
pub struct TextSinksView {
    pub console: bool,
    pub output: Option<Seq<char>>,
    pub append: bool,
    pub separator: Seq<char>,
    pub command: CommandView,
}

impl View for TextSinks {
    type V = TextSinksView;

    open spec fn view(&self) -> TextSinksView {
        TextSinksView {
            console: self.console,
            output: match self.output {
                Some(path) => Some(path@),
                None => None,
            },
            append: self.append,
            separator: self.separator@,
            command: self.command@,
        }
    }
}

impl Clone for TextSinks {
    fn clone(&self) -> (copy: TextSinks)
        ensures
            copy@ == self@,
    {
        TextSinks {
            console: self.console,
            output: match &self.output {
                Some(path) => Some(path.clone()),
                None => None,
            },
            append: self.append,
            separator: self.separator.clone(),
            command: self.command.clone(),
        }
    }
}

/// The name of the variable that holds the counter: `i`.
pub open spec fn counter_name() -> Seq<char> {
    seq!['i']
}

/// The name of the variable that holds the captured text: `text`.
pub open spec fn text_name() -> Seq<char> {
    seq!['t', 'e', 'x', 't']
}

/// The variables of a command template, each with its value: `i`, the
/// number of dispatches before this one, and `text`, the captured text.
pub open spec fn command_entries(counter: nat, text: Seq<char>) -> Seq<(Seq<char>, Seq<char>)> {
    seq![(counter_name(), decimal(counter)), (text_name(), text)]
}

/// The variable of an image-file template with its value: `i`, the sequence
/// number of the image.
pub open spec fn image_entries(sequence: nat) -> Seq<(Seq<char>, Seq<char>)> {
    seq![(counter_name(), decimal(sequence))]
}

/// The variables of a command template, as a map.
pub open spec fn command_variables(counter: nat, text: Seq<char>) -> Map<Seq<char>, Seq<char>> {
    Map::empty().insert(counter_name(), decimal(counter)).insert(text_name(), text)
}

/// The variable of an image-file template, as a map.
pub open spec fn image_variables(sequence: nat) -> Map<Seq<char>, Seq<char>> {
    Map::empty().insert(counter_name(), decimal(sequence))
}

/// What the command sink does with an accepted text: it starts the program
/// with the text; or it runs the line that a plain template expands to, or
/// reports that there is no expansion; or it hands on a template that is not
/// plain, with its variables, to be rendered and run.
pub open spec fn command_actions(command: CommandView, text: Seq<char>, counter: nat) -> Seq<
    ActionView,
> {
    match command {
        CommandView::Disabled => seq![],
        CommandView::Program(program) => seq![ActionView::Spawn { program, argument: text }],
        CommandView::Line(template) => if is_plain(template) {
            match expand(template, command_variables(counter, text)) {
                Some(line) => seq![ActionView::Shell(line)],
                None => seq![ActionView::Report],
            }
        } else {
            seq![ActionView::RenderShell { template, variables: command_entries(counter, text) }]
        },
    }
}

/// What the console does with an accepted text.
pub open spec fn console_actions(sinks: TextSinksView, text: Seq<char>) -> Seq<ActionView> {
    if sinks.console {
        seq![ActionView::Console(text + sinks.separator)]
    } else {
        seq![]
    }
}

/// What the output file gets of an accepted text.
pub open spec fn file_actions(sinks: TextSinksView, text: Seq<char>) -> Seq<ActionView> {
    if sinks.output is Some {
        seq![ActionView::File(text + sinks.separator)]
    } else {
        seq![]
    }
}

/// Everything that is done with an accepted text: console, then file, then
/// command.
pub open spec fn text_actions(sinks: TextSinksView, text: Seq<char>, counter: nat) -> Seq<
    ActionView,
> {
    console_actions(sinks, text) + file_actions(sinks, text) + command_actions(
        sinks.command,
        text,
        counter,
    )
}

/// What is done with an accepted image: it is saved as it is under the name
/// that a plain template expands to, or it is reported that there is no
/// expansion; with a template that is not plain, the image is handed on
/// with the template and its variable, to be saved under the name that the
/// template renders to.
pub open spec fn image_actions(
    template: Seq<char>,
    sequence: nat,
    width: nat,
    height: nat,
    pixels: Seq<u8>,
) -> Seq<ActionView> {
    if is_plain(template) {
        match expand(template, image_variables(sequence)) {
            Some(path) => seq![ActionView::SaveImage { path, width, height, pixels }],
            None => seq![ActionView::Report],
        }
    } else {
        seq![
            ActionView::RenderImage {
                template,
                variables: image_entries(sequence),
                width,
                height,
                pixels,
            },
        ]
    }
}

/// The shell line of a rendered command, or the report of a failed
/// rendering.
pub fn rendered_command(rendered: Result<String, String>) -> (action: Action)
    ensures
        action.deep_view() == (match rendered {
            Ok(line) => ActionView::Shell(line@),
            Err(_) => ActionView::Report,
        }),
{
    match rendered {
        Ok(line) => Action::Shell(line),
        Err(message) => Action::Report(message),
    }
}

/// The saving of an image under a rendered name, or the report of a failed
/// rendering.
pub fn rendered_image_path(
    rendered: Result<String, String>,
    width: u32,
    height: u32,
    pixels: Vec<u8>,
) -> (action: Action)
    ensures
        action.deep_view() == (match rendered {
            Ok(path) => ActionView::SaveImage {
                path: path@,
                width: width as nat,
                height: height as nat,
                pixels: pixels@,
            },
            Err(_) => ActionView::Report,
        }),
{
    match rendered {
        Ok(path) => Action::SaveImage { path, width, height, pixels },
        Err(message) => Action::Report(message),
    }
}

/// `text` followed by `separator`.
pub fn entry(text: &str, separator: &str) -> (line: String)
    ensures
        line@ == text@ + separator@,
{
    let mut line = String::from_str(text);
    line.append(separator);
    line
}

/// The action of the command sink for an accepted text, if it has one.
pub fn dispatch_command(command: &CommandSink, text: &str, counter: u64) -> (action: Option<Action>)
    ensures
        command_actions(command@, text@, counter as nat) == (match action {
            Some(one) => seq![one.deep_view()],
            None => Seq::empty(),
        }),
{
    match command {
        CommandSink::Disabled => None,
        CommandSink::Program(program) => Some(
            Action::Spawn { program: program.clone(), argument: String::from_str(text) },
        ),
        CommandSink::Line(template) => {
            let mut variables: Vec<(String, String)> = Vec::new();
            variables.push((String::from_str("i"), decimal_string(counter)));
            variables.push((String::from_str("text"), String::from_str(text)));
            proof {
                reveal_strlit("i");
                reveal_strlit("text");
                assert(variables@[0].0@ =~= counter_name());
                assert(variables@[1].0@ =~= text_name());
                assert(variables.deep_view() =~= command_entries(counter as nat, text@));
                reveal_with_fuel(bindings, 3);
                assert(bindings(variables.deep_view()) =~= command_variables(
                    counter as nat,
                    text@,
                ));
            }
            match template.render(&variables) {
                Some(rendered) => Some(rendered_command(rendered)),
                None => Some(
                    Action::RenderShell {
                        template: String::from_str(template.as_str()),
                        variables,
                    },
                ),
            }
        },
    }
}

/// The actions for an accepted text: console, then file, then command.
pub fn dispatch_text(sinks: &TextSinks, text: &str, counter: u64) -> (actions: Vec<Action>)
    ensures
        actions.deep_view() == text_actions(sinks@, text@, counter as nat),
{
    let mut actions: Vec<Action> = Vec::new();
    if sinks.console {
        actions.push(Action::Console(entry(text, sinks.separator.as_str())));
    }
    if sinks.output.is_some() {
        actions.push(Action::File(entry(text, sinks.separator.as_str())));
    }
    match dispatch_command(&sinks.command, text, counter) {
        Some(action) => {
            actions.push(action);
        },
        None => {},
    }
    actions
}

/// The action for an accepted image with the given sequence number.
pub fn dispatch_image(
    template: &Template,
    sequence: u64,
    width: u32,
    height: u32,
    pixels: Vec<u8>,
) -> (action: Action)
    ensures
        seq![action.deep_view()] == image_actions(
            template.source(),
            sequence as nat,
            width as nat,
            height as nat,
            pixels@,
        ),
{
    let mut variables: Vec<(String, String)> = Vec::new();
    variables.push((String::from_str("i"), decimal_string(sequence)));
    proof {
        reveal_strlit("i");
        assert(variables@[0].0@ =~= counter_name());
        assert(variables.deep_view() =~= image_entries(sequence as nat));
        reveal_with_fuel(bindings, 2);
        assert(bindings(variables.deep_view()) =~= image_variables(sequence as nat));
    }
    match template.render(&variables) {
        Some(rendered) => rendered_image_path(rendered, width, height, pixels),
        None => Action::RenderImage {
            template: String::from_str(template.as_str()),
            variables,
            width,
            height,
            pixels,
        },
    }
}

/// What a sequence of actions writes to the console, in all.
pub open spec fn console_output(actions: Seq<ActionView>) -> Seq<char>
    decreases actions.len(),
{
    if actions.len() == 0 {
        Seq::empty()
    } else {
        console_output(actions.drop_last()) + match actions.last() {
            ActionView::Console(text) => text,
            _ => Seq::empty(),
        }
    }
}

/// What a sequence of actions writes to the output file, in all.
pub open spec fn file_output(actions: Seq<ActionView>) -> Seq<char>
    decreases actions.len(),
{
    if actions.len() == 0 {
        Seq::empty()
    } else {
        file_output(actions.drop_last()) + match actions.last() {
            ActionView::File(text) => text,
            _ => Seq::empty(),
        }
    }
}

/// What the actions of one dispatch after those of another write is what the
/// first write followed by what the second write.
pub proof fn lemma_output_of_sequence(earlier: Seq<ActionView>, later: Seq<ActionView>)
    ensures
        console_output(earlier + later) == console_output(earlier) + console_output(later),
        file_output(earlier + later) == file_output(earlier) + file_output(later),
    decreases later.len(),
{
    if later.len() == 0 {
        assert(earlier + later =~= earlier);
    } else {
        lemma_output_of_sequence(earlier, later.drop_last());
        assert((earlier + later).drop_last() =~= earlier + later.drop_last());
    }
}

/// An accepted text reaches the console once, followed by the separator, if
/// the console is a sink, and the file likewise; no other sink writes to
/// either.
pub proof fn law_one_entry_per_text(sinks: TextSinksView, text: Seq<char>, counter: nat)
    ensures
        console_output(text_actions(sinks, text, counter)) == (if sinks.console {
            text + sinks.separator
        } else {
            Seq::empty()
        }),
        file_output(text_actions(sinks, text, counter)) == (if sinks.output is Some {
            text + sinks.separator
        } else {
            Seq::empty()
        }),
{
    let console = console_actions(sinks, text);
    let file = file_actions(sinks, text);
    let command = command_actions(sinks.command, text, counter);
    lemma_output_of_sequence(console + file, command);
    lemma_output_of_sequence(console, file);
    reveal_with_fuel(console_output, 2);
    reveal_with_fuel(file_output, 2);
    assert(console_output(command) =~= Seq::empty());
    assert(file_output(command) =~= Seq::empty());
    assert(console_output(file) =~= Seq::empty());
    assert(file_output(console) =~= Seq::empty());
    assert(console_output(text_actions(sinks, text, counter)) =~= console_output(console));
    assert(file_output(text_actions(sinks, text, counter)) =~= file_output(file));
    assert(sinks.console ==> console_output(console) =~= text + sinks.separator);
    assert(sinks.output is Some ==> file_output(file) =~= text + sinks.separator);
}

/// Where the command is plain, literal text around one `{text}`, the shell line is
/// that text with the captured text in place of the placeholder; around one
/// `{i}`, with the number of dispatches before this one in its place.
pub proof fn law_command_line_is_filled_in(
    prefix: Seq<char>,
    suffix: Seq<char>,
    text: Seq<char>,
    counter: nat,
)
    requires
        is_literal(prefix),
        is_literal(suffix),
        is_plain(prefix + placeholder(text_name()) + suffix),
        is_plain(prefix + placeholder(counter_name()) + suffix),
    ensures
        command_actions(
            CommandView::Line(prefix + placeholder(text_name()) + suffix),
            text,
            counter,
        ) == seq![ActionView::Shell(prefix + text + suffix)],
        command_actions(
            CommandView::Line(prefix + placeholder(counter_name()) + suffix),
            text,
            counter,
        ) == seq![ActionView::Shell(prefix + decimal(counter) + suffix)],
{
    law_placeholder_is_replaced(prefix, text_name(), suffix, command_variables(counter, text));
    law_placeholder_is_replaced(prefix, counter_name(), suffix, command_variables(counter, text));
}

/// Where the template of image files is literal text around one `{i}`, an
/// image is stored under that text with its sequence number in place of the
/// placeholder, so that images with different sequence numbers go to
/// different files.
pub proof fn law_numbered_names_differ(
    prefix: Seq<char>,
    suffix: Seq<char>,
    first: nat,
    second: nat,
)
    requires
        is_literal(prefix),
        is_literal(suffix),
        first != second,
    ensures
        expand(prefix + placeholder(counter_name()) + suffix, image_variables(first)) == Some(
            prefix + decimal(first) + suffix,
        ),
        expand(prefix + placeholder(counter_name()) + suffix, image_variables(second)) == Some(
            prefix + decimal(second) + suffix,
        ),
        prefix + decimal(first) + suffix != prefix + decimal(second) + suffix,
{
    law_placeholder_is_replaced(prefix, counter_name(), suffix, image_variables(first));
    law_placeholder_is_replaced(prefix, counter_name(), suffix, image_variables(second));
    let one = prefix + decimal(first) + suffix;
    let other = prefix + decimal(second) + suffix;
    if one == other {
        let from = prefix.len() as int;
        assert(one.len() == prefix.len() + decimal(first).len() + suffix.len());
        assert(other.len() == prefix.len() + decimal(second).len() + suffix.len());
        assert(one.subrange(from, from + decimal(first).len()) =~= decimal(first));
        assert(other.subrange(from, from + decimal(second).len()) =~= decimal(second));
        law_decimal_injective(first, second);
    }
}

} // verus!
