//! Compiled filter patterns for playbook file names.
//!
//! The pattern language itself is the regex crate's; this module gives its
//! two operations names that contracts can use: whether a pattern compiles,
//! and whether a compiled pattern matches a text. Both are functions of
//! their string arguments alone.

use vstd::prelude::*;

verus! {

/// What compiling a pattern returns: `None` when the pattern is accepted,
/// the compilation error's text otherwise.
pub uninterp spec fn regex_compile_err(pattern: Seq<char>) -> Option<Seq<char>>;

/// Whether a pattern is accepted by the pattern compiler.
pub open spec fn regex_valid(pattern: Seq<char>) -> bool {
    regex_compile_err(pattern) is None
}

/// Whether a valid pattern matches somewhere in a text.
pub uninterp spec fn regex_match(pattern: Seq<char>, text: Seq<char>) -> bool;

/// Relies on regex::Regex::new: whether a pattern compiles, and the error's
/// text when it does not, depend on the pattern string alone.
#[verifier::external_body]
fn compile_pattern(raw: &str) -> (r: Result<(), String>)
    ensures
        r is Ok <==> regex_valid(raw@),
        r matches Err(e) ==> regex_compile_err(raw@) == Some(e@),
{
    match regex::Regex::new(raw) {
        Ok(_) => Ok(()),
        Err(e) => Err(e.to_string()),
    }
}

/// Relies on regex::Regex::is_match: whether a valid pattern matches a text
/// depends on the pattern and the text alone.
#[verifier::external_body]
fn regex_is_match(raw: &str, text: &str) -> (r: bool)
    requires
        regex_valid(raw@),
    ensures
        r == regex_match(raw@, text@),
{
    regex::Regex::new(raw).unwrap().is_match(text)
}

/// The default playbook filter: any name ending in `.yml` or `.yaml`.
pub open spec fn default_match() -> Seq<char> {
    "\\.ya?ml$"@
}

/// A playbook-name filter that is known to compile.
pub struct Pattern {
    raw: String,
}

impl Pattern {
    /// A `Pattern` only ever holds a pattern the compiler accepted.
    #[verifier::type_invariant]
    closed spec fn inv(self) -> bool {
        regex_valid(self.raw@)
    }

    /// The pattern string this filter was built from.
    pub closed spec fn pat(self) -> Seq<char> {
        self.raw@
    }

    /// Compiles a pattern string into a filter; the error is the pattern
    /// compiler's own message.
    pub fn new(raw: String) -> (r: Result<Pattern, String>)
        ensures
            r is Ok <==> regex_valid(raw@),
            r matches Ok(p) ==> p.pat() == raw@,
            r matches Err(e) ==> regex_compile_err(raw@) == Some(e@),
    {
        match compile_pattern(raw.as_str()) {
            Ok(_) => Ok(Pattern { raw }),
            Err(e) => Err(e),
        }
    }

    /// Relies on regex::Regex::new: the default playbook filter is a valid
    /// pattern, so compiling it cannot fail.
    #[verifier::external_body]
    fn compile_default() -> (p: Pattern)
        ensures
            p.pat() == default_match(),
    {
        let raw = String::from("\\.ya?ml$");
        regex::Regex::new(&raw).unwrap();
        Pattern { raw }
    }

    /// The filter used when a source gives none: it accepts `.yml` and
    /// `.yaml` names.
    pub fn default_filter() -> (p: Pattern)
        ensures
            p.pat() == default_match(),
    {
        Pattern::compile_default()
    }

    /// Whether this filter matches somewhere in the given text.
    pub fn is_match(&self, text: &str) -> (r: bool)
        ensures
            r == regex_match(self.pat(), text@),
    {
        proof {
            use_type_invariant(self);
        }
        regex_is_match(self.raw.as_str(), text)
    }

    /// The pattern string this filter was built from.
    pub fn raw_str(&self) -> (r: &str)
        ensures
            r@ == self.pat(),
    {
        self.raw.as_str()
    }

    /// Whether this filter is the default one.
    pub fn is_default(&self) -> (r: bool)
        ensures
            r == (self.pat() == default_match()),
    {
        self.raw == String::from_str("\\.ya?ml$")
    }
}

} // verus!
