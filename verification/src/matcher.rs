//! The matcher strategies and their façade: fixed-string matching, extended
//! regular expression matching through the `regex` crate, and the tagged
//! union that selects one strategy per pattern.

use vstd::prelude::*;

use crate::substring::contains_substring;
use crate::substring::str_contains;

verus! {

/// The one error this library raises: the pattern handed to the extended
/// regular expression strategy failed to compile. It is raised at
/// construction time only; evaluation never fails. It keeps the offending
/// pattern so the caller can report it.
#[derive(Debug)]
pub struct CompileError {
    pub pattern: String,
}

/// The shared contract of every matching strategy: a pure decision per line,
/// specified by `spec_matches`.
pub trait MatcherTrait: Sized {
    /// What this matcher says of a line, as a function of the matcher's
    /// state and the line alone.
    spec fn spec_matches(&self, line: Seq<char>) -> bool;

    /// Decide whether `line` satisfies this matcher's criterion. Total over
    /// all lines, side-effect free, and deterministic: the result is exactly
    /// `spec_matches` of the line.
    fn execute(&self, line: &str) -> (r: bool)
        ensures
            r == self.spec_matches(line@),
    ;
}

/// Matches a line iff it contains the pattern as a contiguous substring.
/// Every character of the pattern is taken literally; no character is
/// special.
pub struct FixedStringMatcher {
    pattern: String,
}

impl View for FixedStringMatcher {
    type V = Seq<char>;

    closed spec fn view(&self) -> Seq<char> {
        self.pattern@
    }
}

impl FixedStringMatcher {
    /// Construct a fixed-string matcher. Any pattern, including the empty
    /// one, is a legal needle: construction never fails.
    pub fn new(pattern: String) -> (r: FixedStringMatcher)
        ensures
            r@ == pattern@,
    {
        FixedStringMatcher { pattern }
    }
}

impl MatcherTrait for FixedStringMatcher {
    open spec fn spec_matches(&self, line: Seq<char>) -> bool {
        contains_substring(line, self@)
    }

    fn execute(&self, line: &str) -> (r: bool)
        ensures
            r == self.spec_matches(line@),
    {
        str_contains(line, self.pattern.as_str())
    }
}

#[verifier::external_type_specification]
#[verifier::external_body]
pub struct ExRegex(regex::Regex);

#[verifier::external_type_specification]
#[verifier::external_body]
pub struct ExRegexError(regex::Error);

/// Whether `regex::Regex::new`, with its default configuration, accepts
/// `pattern`: the pattern is syntactically valid and compiles within the
/// default size limit. A property of the pattern text alone.
pub uninterp spec fn regex_compiles(pattern: Seq<char>) -> bool;

/// The verdict of `regex::Regex::is_match` for a regex compiled from
/// `pattern` run on `line`: whether a match for the pattern occurs anywhere
/// in the line (unanchored). A function of the pattern and the line alone;
/// matching is deterministic across calls and across processes.
pub uninterp spec fn regex_accepts(pattern: Seq<char>, line: Seq<char>) -> bool;

/// Relies on regex::Regex::new: compilation succeeds or fails depending on
/// the pattern text alone (syntax and the default size limit).
pub assume_specification[ regex::Regex::new ](re: &str) -> (r: Result<
    regex::Regex,
    regex::Error,
>)
    ensures
        r is Ok <==> regex_compiles(re@),
;

/// Matches a line iff a match for the extended regular expression occurs
/// somewhere in it. The pattern is compiled once, at construction; the
/// compiled program is immutable and reused by every `execute` call.
pub struct ExtendedRegexpMatcher {
    pattern: String,
    compiled: regex::Regex,
}

impl View for ExtendedRegexpMatcher {
    type V = Seq<char>;

    closed spec fn view(&self) -> Seq<char> {
        self.pattern@
    }
}

impl ExtendedRegexpMatcher {
    /// Compile `pattern` as an extended regular expression. Fails with
    /// `CompileError` exactly when the pattern does not compile; a failed
    /// construction yields no matcher, so evaluation after failure is
    /// impossible by construction.
    pub fn new(pattern: String) -> (r: Result<ExtendedRegexpMatcher, CompileError>)
        ensures
            r is Ok <==> regex_compiles(pattern@),
            r is Ok ==> (r->Ok_0)@ == pattern@,
            r is Err ==> (r->Err_0).pattern@ == pattern@,
    {
        match regex::Regex::new(pattern.as_str()) {
            Ok(compiled) => Ok(ExtendedRegexpMatcher { pattern, compiled }),
            Err(_) => Err(CompileError { pattern }),
        }
    }
}

/// Relies on regex::Regex::is_match: the verdict is a function of the
/// pattern the regex was compiled from and the haystack alone. The
/// `compiled` field of every `ExtendedRegexpMatcher` holds the regex
/// compiled from its `pattern` field: both fields are private and
/// `ExtendedRegexpMatcher::new` is their only producer.
#[verifier::external_body]
fn compiled_is_match(m: &ExtendedRegexpMatcher, line: &str) -> (r: bool)
    ensures
        r == regex_accepts(m.pattern@, line@),
{
    m.compiled.is_match(line)
}

impl MatcherTrait for ExtendedRegexpMatcher {
    open spec fn spec_matches(&self, line: Seq<char>) -> bool {
        regex_accepts(self@, line)
    }

    fn execute(&self, line: &str) -> (r: bool)
        ensures
            r == self.spec_matches(line@),
    {
        compiled_is_match(self, line)
    }
}

/// The façade: a closed tagged union over the two strategies. The variant is
/// chosen once, at construction, and never changes.
pub enum Matcher {
    ExtendedRegexp(ExtendedRegexpMatcher),
    FixedString(FixedStringMatcher),
}

impl View for Matcher {
    type V = (bool, Seq<char>);

    /// A matcher's model: whether it is the fixed-string variant, and its
    /// pattern.
    open spec fn view(&self) -> (bool, Seq<char>) {
        match self {
            Matcher::FixedString(m) => (true, m@),
            Matcher::ExtendedRegexp(m) => (false, m@),
        }
    }
}

/// What a matcher with model `model` says of `line`: substring containment
/// in fixed-string mode, the regex verdict otherwise. Evaluation is a pure
/// function of the model and the line.
pub open spec fn model_matches(model: (bool, Seq<char>), line: Seq<char>) -> bool {
    if model.0 {
        contains_substring(line, model.1)
    } else {
        regex_accepts(model.1, line)
    }
}

impl Matcher {
    /// Select and build exactly one strategy from a pattern and a mode flag.
    /// In fixed-string mode construction never fails; otherwise it fails
    /// exactly when the pattern does not compile as an extended regular
    /// expression, and the error carries the offending pattern.
    pub fn new(pattern: String, is_fixed_strings_mode: bool) -> (r: Result<Matcher, CompileError>)
        ensures
            is_fixed_strings_mode ==> r is Ok,
            r is Ok <==> (is_fixed_strings_mode || regex_compiles(pattern@)),
            r is Ok ==> (r->Ok_0)@ == (is_fixed_strings_mode, pattern@),
            r is Err ==> !is_fixed_strings_mode && !regex_compiles(pattern@),
            r is Err ==> (r->Err_0).pattern@ == pattern@,
    {
        if is_fixed_strings_mode {
            Ok(Matcher::FixedString(FixedStringMatcher::new(pattern)))
        } else {
            match ExtendedRegexpMatcher::new(pattern) {
                Ok(m) => Ok(Matcher::ExtendedRegexp(m)),
                Err(e) => Err(e),
            }
        }
    }

    /// Dispatch to the held variant and return its verdict unchanged.
    pub fn execute(&self, line: &str) -> (r: bool)
        ensures
            r == model_matches(self@, line@),
    {
        match self {
            Matcher::FixedString(m) => m.execute(line),
            Matcher::ExtendedRegexp(m) => m.execute(line),
        }
    }
}

/// Construction determinism: two matchers with the same mode and pattern
/// agree on every line. Together with the contract of `Matcher::new`, which
/// pins the model of the built matcher to the pattern and mode alone,
/// compiling the same pattern twice yields matchers with identical evaluate
/// behaviour on all lines.
pub proof fn lemma_equal_models_agree(m1: &Matcher, m2: &Matcher)
    requires
        m1@ == m2@,
    ensures
        forall|line: Seq<char>| model_matches(m1@, line) == model_matches(m2@, line),
{
}

} // verus!
