//! Output templates, in the language of the `string_template_plus` crate.
//!
//! A plain template is one whose rendering is substitution and nothing
//! else: literal characters, `\` followed by a character taken literally,
//! and `{name}`. This library renders plain templates itself, through that
//! crate, and says what comes out. The language is far larger (alternatives,
//! quoted text, shell commands, time formats, embedded Lisp, transformers);
//! a template that uses more of it is handed on as it is, to be rendered
//! where its effect is performed.

use vstd::prelude::*;

verus! {

/// The characters of the ASCII range.
pub open spec fn is_ascii_char(c: char) -> bool {
    '\0' <= c <= '\u{7f}'
}

/// The characters a placeholder's name is made of.
pub open spec fn is_name_char(c: char) -> bool {
    ('a' <= c <= 'z') || ('A' <= c <= 'Z') || ('0' <= c <= '9') || c == '_'
}

/// The end of the run of name characters that starts at `from`.
pub open spec fn name_end(template: Seq<char>, from: int) -> int
    decreases template.len() - from,
{
    if 0 <= from < template.len() && is_name_char(template[from]) {
        name_end(template, from + 1)
    } else {
        from
    }
}

/// Whether a `$(` or a `=(` starts at `at`: the openings of an embedded
/// command and of an embedded expression.
pub open spec fn opens_call(template: Seq<char>, at: int) -> bool {
    &&& at + 1 < template.len()
    &&& template[at] == '$' || template[at] == '='
    &&& template[at + 1] == '('
}

/// Whether `template`, read from `at` on, consists of literal ASCII
/// characters, escaped ASCII characters and `{name}` placeholders only.
pub open spec fn is_plain_from(template: Seq<char>, at: int) -> bool
    decreases template.len() - at,
{
    if at < 0 || at >= template.len() {
        true
    } else if template[at] == '\\' {
        at + 1 < template.len() && is_ascii_char(template[at + 1]) && is_plain_from(
            template,
            at + 2,
        )
    } else if template[at] == '{' {
        let end = name_end(template, at + 1);
        at + 1 < end && end < template.len() && template[end] == '}' && is_plain_from(
            template,
            end + 1,
        )
    } else {
        is_ascii_char(template[at]) && template[at] != '"' && !opens_call(template, at)
            && is_plain_from(template, at + 1)
    }
}

/// Whether `template` is a plain template.
pub open spec fn is_plain(template: Seq<char>) -> bool {
    is_plain_from(template, 0)
}

/// `head` in front of `tail`, where there is a `tail`.
pub open spec fn prepend(head: Seq<char>, tail: Option<Seq<char>>) -> Option<Seq<char>> {
    match tail {
        Some(rest) => Some(head + rest),
        None => None,
    }
}

/// What `template` expands to from `at` on: each literal character stands for
/// itself, `\` followed by a character for that character, and `{name}` for
/// the value that `variables` gives `name`. There is no expansion where a
/// name has no value, nor where a `\` or a `{` is left open.
pub open spec fn expand_from(
    template: Seq<char>,
    at: int,
    variables: Map<Seq<char>, Seq<char>>,
) -> Option<Seq<char>>
    decreases template.len() - at,
{
    if at < 0 || at >= template.len() {
        Some(Seq::empty())
    } else if template[at] == '\\' {
        if at + 1 < template.len() {
            prepend(seq![template[at + 1]], expand_from(template, at + 2, variables))
        } else {
            None
        }
    } else if template[at] == '{' {
        let end = name_end(template, at + 1);
        let name = template.subrange(at + 1, end);
        if end <= at || end >= template.len() || !variables.contains_key(name) {
            None
        } else {
            prepend(variables[name], expand_from(template, end + 1, variables))
        }
    } else {
        prepend(seq![template[at]], expand_from(template, at + 1, variables))
    }
}

/// What a plain template expands to under `variables`.
pub open spec fn expand(template: Seq<char>, variables: Map<Seq<char>, Seq<char>>) -> Option<
    Seq<char>,
> {
    expand_from(template, 0, variables)
}

/// The variables that a list of names with their values defines. Of two
/// entries with the same name the later counts.
pub open spec fn bindings(entries: Seq<(Seq<char>, Seq<char>)>) -> Map<Seq<char>, Seq<char>>
    decreases entries.len(),
{
    if entries.len() == 0 {
        Map::empty()
    } else {
        bindings(entries.drop_last()).insert(entries.last().0, entries.last().1)
    }
}

/// A plain template consists of ASCII characters.
proof fn lemma_plain_is_ascii(template: Seq<char>, at: int)
    requires
        0 <= at,
        is_plain_from(template, at),
    ensures
        forall|k: int| at <= k < template.len() ==> is_ascii_char(#[trigger] template[k]),
    decreases template.len() - at,
{
    if at < template.len() {
        if template[at] == '\\' {
            lemma_plain_is_ascii(template, at + 2);
        } else if template[at] == '{' {
            let end = name_end(template, at + 1);
            lemma_name_end(template, at + 1);
            lemma_plain_is_ascii(template, end + 1);
        } else {
            lemma_plain_is_ascii(template, at + 1);
        }
    }
}

/// `name_end` is where the run of name characters from `from` stops.
proof fn lemma_name_end(template: Seq<char>, from: int)
    requires
        0 <= from,
    ensures
        from <= name_end(template, from),
        name_end(template, from) <= template.len() || name_end(template, from) == from,
        forall|k: int|
            from <= k < name_end(template, from) ==> is_name_char(#[trigger] template[k]),
        name_end(template, from) < template.len() ==> !is_name_char(
            template[name_end(template, from)],
        ),
    decreases template.len() - from,
{
    if from < template.len() && is_name_char(template[from]) {
        lemma_name_end(template, from + 1);
    }
}

/// A run of name characters that stops at `stop` ends there.
proof fn lemma_name_end_at(template: Seq<char>, from: int, stop: int)
    requires
        0 <= from <= stop <= template.len(),
        forall|k: int| from <= k < stop ==> is_name_char(#[trigger] template[k]),
        stop < template.len() ==> !is_name_char(template[stop]),
    ensures
        name_end(template, from) == stop,
    decreases stop - from,
{
    if from < stop {
        lemma_name_end_at(template, from + 1, stop);
    }
}

/// Whether `text` holds neither a `\` nor a `{`, so that every character
/// of it stands for itself.
pub open spec fn is_literal(text: Seq<char>) -> bool {
    forall|k: int| 0 <= k < text.len() ==> text[k] != '\\' && text[k] != '{'
}

/// Whether `name` can stand between `{` and `}`.
pub open spec fn is_name(name: Seq<char>) -> bool {
    name.len() > 0 && forall|k: int| 0 <= k < name.len() ==> is_name_char(name[k])
}

/// The placeholder for `name`.
pub open spec fn placeholder(name: Seq<char>) -> Seq<char> {
    seq!['{'] + name + seq!['}']
}

/// From `at` up to `upto` the template is literal, and expands to itself
/// there.
proof fn lemma_expand_literal_run(
    template: Seq<char>,
    at: int,
    upto: int,
    variables: Map<Seq<char>, Seq<char>>,
)
    requires
        0 <= at <= upto <= template.len(),
        forall|k: int| at <= k < upto ==> template[k] != '\\' && template[k] != '{',
    ensures
        expand_from(template, at, variables) == prepend(
            template.subrange(at, upto),
            expand_from(template, upto, variables),
        ),
    decreases upto - at,
{
    if at < upto {
        lemma_expand_literal_run(template, at + 1, upto, variables);
        assert(seq![template[at]] + template.subrange(at + 1, upto) =~= template.subrange(
            at,
            upto,
        ));
    } else {
        assert(template.subrange(at, upto) =~= Seq::<char>::empty());
    }
}

/// Literal text expands to itself, whatever the variables.
pub proof fn law_literal_expands_to_itself(text: Seq<char>, variables: Map<Seq<char>, Seq<char>>)
    requires
        is_literal(text),
    ensures
        expand(text, variables) == Some(text),
{
    lemma_expand_literal_run(text, 0, text.len() as int, variables);
}

/// A placeholder between literal texts is replaced by the value of its
/// name, and the texts around it stay as they are.
pub proof fn law_placeholder_is_replaced(
    prefix: Seq<char>,
    name: Seq<char>,
    suffix: Seq<char>,
    variables: Map<Seq<char>, Seq<char>>,
)
    requires
        is_literal(prefix),
        is_literal(suffix),
        is_name(name),
        variables.contains_key(name),
    ensures
        expand(prefix + placeholder(name) + suffix, variables) == Some(
            prefix + variables[name] + suffix,
        ),
{
    let template = prefix + placeholder(name) + suffix;
    let open = prefix.len() as int;
    let close = open + 1 + name.len();
    // the placeholder
    assert forall|k: int| open < k < close implies is_name_char(#[trigger] template[k]) by {
        assert(template[k] == name[k - open - 1]);
    }
    lemma_name_end_at(template, open + 1, close);
    assert(template.subrange(open + 1, close) =~= name);
    // what follows it
    assert forall|k: int| close < k < template.len() implies template[k] != '\\' && template[k]
        != '{' by {
        assert(template[k] == suffix[k - close - 1]);
    }
    lemma_expand_literal_run(template, close + 1, template.len() as int, variables);
    assert(template.subrange(close + 1, template.len() as int) =~= suffix);
    assert(expand_from(template, open, variables) == Some(variables[name] + suffix));
    // what stands before it
    assert forall|k: int| 0 <= k < open implies template[k] != '\\' && template[k] != '{' by {
        assert(template[k] == prefix[k]);
    }
    lemma_expand_literal_run(template, 0, open, variables);
    assert(template.subrange(0, open) =~= prefix);
}

const BACKSLASH: u8 = 0x5c;

const OPEN_BRACE: u8 = 0x7b;

const CLOSE_BRACE: u8 = 0x7d;

const QUOTE: u8 = 0x22;

const DOLLAR: u8 = 0x24;

const EQUALS: u8 = 0x3d;

const OPEN_PAREN: u8 = 0x28;

const UNDERSCORE: u8 = 0x5f;

/// Whether an ASCII byte is a name character: a letter, a digit or `_`.
fn is_name_byte(byte: u8) -> (named: bool)
    ensures
        named == is_name_char(byte as char),
{
    (0x61 <= byte && byte <= 0x7a) || (0x41 <= byte && byte <= 0x5a) || (0x30 <= byte && byte
        <= 0x39) || byte == UNDERSCORE
}

/// Whether `source` is a plain template.
pub fn check_plain(source: &str) -> (plain: bool)
    ensures
        plain == is_plain(source@),
{
    if !source.is_ascii() {
        proof {
            if is_plain(source@) {
                lemma_plain_is_ascii(source@, 0);
            }
        }
        return false;
    }
    let bytes = source.as_bytes();
    proof {
        vstd::utf8::is_ascii_chars_encode_utf8(source@);
    }
    let ghost text = source@;
    let n: usize = bytes.len();
    let mut i: usize = 0;
    while i < n
        invariant
            text == source@,
            n == text.len(),
            bytes@.len() == n,
            forall|k: int| 0 <= k < n ==> is_ascii_char(#[trigger] text[k]),
            forall|k: int| 0 <= k < n ==> (#[trigger] text[k]) as u8 == bytes@[k],
            i <= n,
            is_plain(text) == is_plain_from(text, i as int),
        decreases n - i,
    {
        let byte: u8 = bytes[i];
        assert(text[i as int] == byte as char);
        if byte == BACKSLASH {
            if i + 1 >= n {
                return false;
            }
            i += 2;
        } else if byte == OPEN_BRACE {
            let mut j: usize = i + 1;
            while j < n && is_name_byte(bytes[j])
                invariant
                    n == text.len(),
                    bytes@.len() == n,
                    forall|k: int| 0 <= k < n ==> is_ascii_char(#[trigger] text[k]),
                    forall|k: int| 0 <= k < n ==> (#[trigger] text[k]) as u8 == bytes@[k],
                    i < j <= n,
                    forall|k: int| i < k < j ==> is_name_char(#[trigger] text[k]),
                decreases n - j,
            {
                j += 1;
            }
            proof {
                lemma_name_end_at(text, i + 1, j as int);
            }
            if j == i + 1 || j >= n {
                return false;
            }
            if bytes[j] != CLOSE_BRACE {
                return false;
            }
            i = j + 1;
        } else {
            if byte == QUOTE {
                return false;
            }
            if (byte == DOLLAR || byte == EQUALS) && i + 1 < n && bytes[i + 1] == OPEN_PAREN {
                return false;
            }
            i += 1;
        }
    }
    true
}

/// `string_template_plus::Template::parse_template`, then `Render::render`
/// on the parsed template, with `variables` as the only variables and shell
/// commands switched off.
///
/// On a plain template the tokenizer of that crate yields literal parts and
/// plain variable parts only, so rendering concatenates the literals and the
/// variables' values in order, and fails exactly where a variable has no
/// value. The message of a failure is that crate's own.
#[verifier::external_body]
fn render_plain(source: &str, variables: &Vec<(String, String)>) -> (rendered: Result<
    String,
    String,
>)
    requires
        is_plain(source@),
    ensures
        (match rendered {
            Ok(text) => expand(source@, bindings(variables.deep_view())) == Some(text@),
            Err(_) => expand(source@, bindings(variables.deep_view())) is None,
        }),
{
    let mut options = string_template_plus::RenderOptions::default();
    for (name, value) in variables.iter() {
        options.variables.insert(name.clone(), value.clone());
    }
    match string_template_plus::Template::parse_template(source) {
        Ok(template) => match string_template_plus::Render::render(&template, &options) {
            Ok(text) => Ok(text),
            Err(error) => Err(format!("{:?}", error)),
        },
        Err(error) => Err(format!("{:?}", error)),
    }
}

/// A template: its text, and whether it is plain.
#[derive(Debug)]
pub struct Template {
    source: String,
    plain: bool,
}

impl Clone for Template {
    fn clone(&self) -> (copy: Template)
        ensures
            copy.source() == self.source(),
    {
        proof {
            use_type_invariant(self);
        }
        Template { source: self.source.clone(), plain: self.plain }
    }
}

impl Template {
    #[verifier::type_invariant]
    spec fn classified(self) -> bool {
        self.plain == is_plain(self.source@)
    }

    /// The text of the template.
    pub closed spec fn source(&self) -> Seq<char> {
        self.source@
    }

    /// The template with the text `source`. Every text is a template;
    /// whether it renders is seen when it is rendered.
    pub fn new(source: String) -> (template: Template)
        ensures
            template.source() == source@,
    {
        let plain = check_plain(source.as_str());
        Template { source, plain }
    }

    /// The text of the template.
    pub fn as_str(&self) -> (source: &str)
        ensures
            source@ == self.source(),
    {
        self.source.as_str()
    }

    /// Whether the template is the empty text.
    pub fn is_empty(&self) -> (empty: bool)
        ensures
            empty == (self.source().len() == 0),
    {
        self.source.as_str().is_empty()
    }

    /// Whether the template is plain.
    pub fn is_plain(&self) -> (plain: bool)
        ensures
            plain == is_plain(self.source()),
    {
        proof {
            use_type_invariant(self);
        }
        self.plain
    }

    /// Renders the template with the given variables, if it is plain: the
    /// expansion where every placeholder has a value, an error message where
    /// one has none. A template that is not plain is not rendered here.
    pub fn render(&self, variables: &Vec<(String, String)>) -> (rendered: Option<
        Result<String, String>,
    >)
        ensures
            rendered is Some <==> is_plain(self.source()),
            (match rendered {
                Some(Ok(text)) => expand(self.source(), bindings(variables.deep_view())) == Some(
                    text@,
                ),
                Some(Err(_)) => expand(self.source(), bindings(variables.deep_view())) is None,
                None => true,
            }),
    {
        proof {
            use_type_invariant(self);
        }
        if self.plain {
            Some(render_plain(self.source.as_str(), variables))
        } else {
            None
        }
    }
}

} // verus!
