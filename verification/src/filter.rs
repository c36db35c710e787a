//! The text filter: a regular expression that a text must match to be
//! dispatched.

use vstd::prelude::*;

verus! {

#[verifier::external_type_specification]
#[verifier::external_body]
pub struct ExRegex(regex::Regex);

/// Whether `pattern` is a regular expression that the `regex` crate compiles
/// (`regex::Regex::new`).
pub uninterp spec fn regex_valid(pattern: Seq<char>) -> bool;

/// Whether the regular expression `pattern`, compiled by `regex::Regex::new`,
/// matches somewhere in `text`.
pub uninterp spec fn regex_matches(pattern: Seq<char>, text: Seq<char>) -> bool;

/// Whether the compiled expression matches somewhere in `text`
/// (`regex::Regex::is_match`).
pub uninterp spec fn regex_accepts(regex: regex::Regex, text: Seq<char>) -> bool;

/// `regex::Regex::new`: compiles exactly the valid patterns. What the
/// compiled expression matches is what its pattern matches.
#[verifier::external_body]
fn compile(pattern: &str) -> (compiled: Option<regex::Regex>)
    ensures
        compiled is Some <==> regex_valid(pattern@),
        compiled matches Some(regex) ==> forall|text: Seq<char>| #[trigger]
            regex_accepts(regex, text) == regex_matches(pattern@, text),
{
    match regex::Regex::new(pattern) {
        Ok(regex) => Some(regex),
        Err(_) => None,
    }
}

/// `regex::Regex::is_match`: whether the expression matches anywhere in
/// `text`, which depends on the expression and the text alone.
#[verifier::external_body]
fn is_match(regex: &regex::Regex, text: &str) -> (found: bool)
    ensures
        found == regex_accepts(*regex, text@),
{
    regex.is_match(text)
}

/// A text filter: a pattern together with the expression compiled from it.
#[derive(Debug)]
pub struct Filter {
    pattern: String,
    regex: regex::Regex,
}

impl Clone for Filter {
    fn clone(&self) -> (copy: Filter)
        ensures
            copy.pattern() == self.pattern(),
    {
        proof {
            use_type_invariant(self);
        }
        match Filter::new(self.pattern.clone()) {
            Some(copy) => copy,
            None => vstd::pervasive::unreached(),
        }
    }
}

impl Filter {
    #[verifier::type_invariant]
    spec fn compiled(self) -> bool {
        &&& regex_valid(self.pattern@)
        &&& forall|text: Seq<char>| #[trigger]
            regex_accepts(self.regex, text) == regex_matches(self.pattern@, text)
    }

    /// The pattern of the filter.
    pub closed spec fn pattern(&self) -> Seq<char> {
        self.pattern@
    }

    /// A filter for `pattern`, if it is a valid regular expression. The
    /// pattern is compiled here, once.
    pub fn new(pattern: String) -> (filter: Option<Filter>)
        ensures
            filter is Some <==> regex_valid(pattern@),
            filter matches Some(f) ==> f.pattern() == pattern@,
    {
        match compile(pattern.as_str()) {
            Some(regex) => Some(Filter { pattern, regex }),
            None => None,
        }
    }

    /// Whether the filter lets `text` pass: whether its pattern matches
    /// somewhere in `text`.
    pub fn accepts(&self, text: &str) -> (accepted: bool)
        ensures
            accepted == regex_matches(self.pattern(), text@),
    {
        proof {
            use_type_invariant(self);
        }
        is_match(&self.regex, text)
    }

    /// The pattern as text.
    pub fn as_str(&self) -> (pattern: &str)
        ensures
            pattern@ == self.pattern(),
    {
        self.pattern.as_str()
    }
}

} // verus!
