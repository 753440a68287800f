use vstd::prelude::*;
use regex::Regex;

verus! {

/// Declares `regex::Regex`, carried as an opaque value inside `Pattern`.
#[verifier::external_type_specification]
#[verifier::external_body]
pub struct ExRegex(Regex);

/// Whether `Regex::new` accepts `pattern` (it is valid syntax and within the
/// default size limits).
pub uninterp spec fn regex_compiles(pattern: Seq<char>) -> bool;

/// Whether the regular expression `pattern` matches somewhere in `text`, as
/// `Regex::is_match` decides it.
pub uninterp spec fn regex_is_match(pattern: Seq<char>, text: Seq<char>) -> bool;

/// A compiled regular expression together with its source text.
///
/// Values are made only by `Pattern::compile`, so `compiled` is always the
/// expression that `source` compiles to.
pub struct Pattern {
    source: String,
    compiled: Regex,
}

impl View for Pattern {
    type V = Seq<char>;

    /// The source text of the expression.
    closed spec fn view(&self) -> Seq<char> {
        self.source@
    }
}

/// Compiles `source` with `Regex::new`; `None` where it is rejected.
#[verifier::external_body]
fn compile_regex(source: &str) -> (res: Option<Pattern>)
    ensures
        res is Some <==> regex_compiles(source@),
        res matches Some(p) ==> p@ == source@,
{
    match Regex::new(source) {
        Ok(compiled) => Some(Pattern { source: source.to_string(), compiled }),
        Err(_) => None,
    }
}

/// Whether `pattern` matches somewhere in `text` (`Regex::is_match`).
#[verifier::external_body]
fn regex_find(pattern: &Pattern, text: &str) -> (res: bool)
    ensures
        res == regex_is_match(pattern@, text@),
{
    pattern.compiled.is_match(text)
}

impl Pattern {
    /// The expression `source`, compiled; `None` where it is not a valid
    /// expression.
    pub fn compile(source: &str) -> (res: Option<Pattern>)
        ensures
            res is Some <==> regex_compiles(source@),
            res matches Some(p) ==> p@ == source@,
    {
        compile_regex(source)
    }

    /// Whether the expression matches somewhere in `text`.
    pub fn is_match(&self, text: &str) -> (res: bool)
        ensures
            res == regex_is_match(self@, text@),
    {
        regex_find(self, text)
    }
}

} // verus!
