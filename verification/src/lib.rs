//! A line matcher for line-oriented text filtering: decide, per input line,
//! whether the line satisfies a user-supplied pattern, either as a fixed
//! string (substring containment) or as an extended regular expression.

pub mod matcher;
pub mod substring;

pub use matcher::CompileError;
pub use matcher::ExtendedRegexpMatcher;
pub use matcher::FixedStringMatcher;
pub use matcher::Matcher;
pub use matcher::MatcherTrait;
pub use substring::contains_substring;
pub use substring::matches_at;
pub use substring::str_contains;
