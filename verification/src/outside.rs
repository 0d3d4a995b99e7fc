//! What the library takes on trust: the types of the conda crates, which it
//! carries through without looking inside, the calls it makes into them and
//! into the regex crate, and two comparisons of std. Loading metadata and
//! running the solver are not among the calls: both can panic on metadata
//! that cannot be looked into from here, and stay with the caller.

use crate::list::text_le;
use crate::locate::ChannelNames;
use crate::package_name::{is_valid_name, lowered};
use crate::resolve::SolveFailure;
use vstd::prelude::*;

verus! {

/// A package as a channel describes it. The solver chooses among such records
/// and answers with such records.
#[verifier::external_type_specification]
#[verifier::external_body]
pub struct ExRepoDataRecord(rattler_conda_types::RepoDataRecord);

/// The version and build matchers of a specification, without its name.
#[verifier::external_type_specification]
#[verifier::external_body]
pub struct ExNamelessMatchSpec(rattler_conda_types::NamelessMatchSpec);

/// A capability of the machine, in the form the solver takes it.
#[verifier::external_type_specification]
#[verifier::external_body]
pub struct ExGenericVirtualPackage(rattler_conda_types::GenericVirtualPackage);

/// How the names of channels are read.
#[verifier::external_type_specification]
#[verifier::external_body]
pub struct ExChannelConfig(rattler_conda_types::ChannelConfig);

/// Why the solver gave up.
#[verifier::external_type_specification]
#[verifier::external_body]
pub struct ExSolveError(rattler_solve::SolveError);

/// `==` on string slices, which std defines as equality of their contents.
pub assume_specification[ <str as PartialEq>::eq ](a: &str, b: &str) -> (equal: bool)
    ensures
        equal == (a@ == b@),
;

/// `<=` on string slices. Taken on trust, as std documents it: strings are
/// ordered by their bytes, which is the order of their characters' code points.
#[verifier::external_body]
pub(crate) fn text_at_most(a: &str, b: &str) -> (r: bool)
    ensures
        r == text_le(a@, b@),
{
    a <= b
}

/// Is `pattern` a regular expression that `regex::Regex::new` accepts?
pub uninterp spec fn pattern_is_valid(pattern: Seq<char>) -> bool;

/// Does the regular expression `pattern` match somewhere in `text`, as
/// `regex::Regex::is_match` finds?
pub uninterp spec fn pattern_matches(pattern: Seq<char>, text: Seq<char>) -> bool;

/// `regex::Regex::new` on `pattern`, then `Regex::is_match` on each of `names`:
/// nothing where the pattern is refused, else one mark for each name.
#[verifier::external_body]
pub(crate) fn matching_names(pattern: &str, names: &Vec<String>) -> (marks: Option<Vec<bool>>)
    ensures
        marks is Some <==> pattern_is_valid(pattern@),
        marks matches Some(m) ==> m@.len() == names@.len() && forall|i: int|
            0 <= i < names@.len() ==> m@[i] == pattern_matches(pattern@, #[trigger] names@[i]@),
{
    match regex::Regex::new(pattern) {
        Ok(expression) => Some(names.iter().map(|name| expression.is_match(name)).collect()),
        Err(_) => None,
    }
}

/// `rattler_conda_types::PackageName::try_from`, read through `as_normalized`.
/// Taken on trust: the conversion accepts exactly the names made of ASCII
/// letters, ASCII digits, `-`, `_` and `.`, and the normal form of an accepted
/// name is the name with its ASCII capitals made small.
#[verifier::external_body]
pub(crate) fn normalized_name(source: &str) -> (normalized: Option<String>)
    ensures
        normalized is Some <==> is_valid_name(source@),
        normalized matches Some(n) ==> n@ == lowered(source@),
{
    match rattler_conda_types::PackageName::try_from(source) {
        Ok(name) => Some(name.as_normalized().to_string()),
        Err(_) => None,
    }
}

/// `rattler_conda_types::Channel::from_str`, read through the channel's `name`
/// and `canonical_name`; nothing where the text is no channel. Nothing is
/// claimed of the names.
#[verifier::external_body]
pub(crate) fn parse_channel(text: &str, config: &rattler_conda_types::ChannelConfig) -> (parsed: Option<
    ChannelNames,
>) {
    match rattler_conda_types::Channel::from_str(text, config) {
        Ok(channel) => Some(ChannelNames { canonical: channel.canonical_name(), name: channel.name }),
        Err(_) => None,
    }
}

/// Tells the variants of `rattler_solve::SolveError` apart and moves their
/// fields over; the parser's error inside one of them becomes its message.
#[verifier::external_body]
pub(crate) fn solve_failure(error: rattler_solve::SolveError) -> (failure: SolveFailure) {
    match error {
        rattler_solve::SolveError::Unsolvable(reasons) => SolveFailure::Unsolvable(reasons),
        rattler_solve::SolveError::UnsupportedOperations(operations) => {
            SolveFailure::UnsupportedOperations(operations)
        },
        rattler_solve::SolveError::ParseMatchSpecError(e) => SolveFailure::ParseMatchSpec(e.to_string()),
        rattler_solve::SolveError::DuplicateRecords(file) => SolveFailure::DuplicateRecords(file),
        rattler_solve::SolveError::Cancelled => SolveFailure::Cancelled,
    }
}

} // verus!
