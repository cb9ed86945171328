use crate::error::FilterError;
use path_matchers::{glob, PathMatcher, PatternError};
use std::path::Path;
use vstd::prelude::*;

verus! {

/// The error of `path_matchers::glob` (`glob::PatternError`, handed on by
/// `path_matchers`). Nothing is read from it: it only says that a pattern
/// did not compile.
#[verifier::external_type_specification]
#[verifier::external_body]
pub struct ExPatternError(PatternError);

/// Whether `path_matchers::glob` compiles `pattern` into a matcher.
pub uninterp spec fn glob_compiles(pattern: Seq<char>) -> bool;

/// Whether the matcher that `path_matchers::glob` builds from `pattern`
/// matches `path`. Meaningful only where `glob_compiles(pattern)`.
pub uninterp spec fn glob_accepts(pattern: Seq<char>, path: Seq<char>) -> bool;

/// Compiles `pattern` with `path_matchers::glob` and asks the matcher whether
/// it `matches` `path`. Trusted: the call fails exactly on the patterns that
/// do not compile, and otherwise answers what the matcher answers. Both depend
/// on the two strings alone: the matcher is `glob::Pattern` under its default
/// options, which reads no file system (which characters separate the parts
/// of a path is fixed by the target the crate is built for).
#[verifier::external_body]
fn glob_match(pattern: &str, path: &str) -> (r: Result<bool, PatternError>)
    ensures
        r is Ok <==> glob_compiles(pattern@),
        r is Ok ==> r->Ok_0 == glob_accepts(pattern@, path@),
{
    match glob(pattern) {
        Ok(matcher) => Ok(matcher.matches(Path::new(path))),
        Err(error) => Err(error),
    }
}

/// One pattern's outcome with the matcher's error turned into the filter's.
pub fn settle(outcome: Result<bool, PatternError>) -> (r: Result<bool, FilterError>)
    ensures
        r == match outcome {
            Ok(accepted) => Ok::<bool, FilterError>(accepted),
            Err(_) => Err::<bool, FilterError>(FilterError::InvalidPattern),
        },
{
    match outcome {
        Ok(accepted) => Ok(accepted),
        Err(_) => Err(FilterError::InvalidPattern),
    }
}

/// Every pattern of the list compiles.
pub open spec fn all_compile(patterns: Seq<Seq<char>>) -> bool {
    forall|i: int| 0 <= i < patterns.len() ==> glob_compiles(#[trigger] patterns[i])
}

/// One of the first `n` patterns matches `path`.
pub open spec fn some_accepts(patterns: Seq<Seq<char>>, path: Seq<char>, n: int) -> bool {
    exists|i: int| 0 <= i < n && glob_accepts(#[trigger] patterns[i], path)
}

/// Whether `path` is wanted under `patterns`. An empty list wants every path.
/// A list with a pattern that does not compile is an error, whatever the
/// path and the other patterns are. Otherwise the path is wanted where one
/// of the patterns matches it.
pub open spec fn match_outcome(patterns: Seq<Seq<char>>, path: Seq<char>) -> Result<
    bool,
    FilterError,
> {
    if patterns.len() == 0 {
        Ok(true)
    } else if !all_compile(patterns) {
        Err(FilterError::InvalidPattern)
    } else {
        Ok(some_accepts(patterns, path, patterns.len() as int))
    }
}

/// Whether `path` matches one of the patterns of `list`; every path matches
/// an empty list. Every pattern is compiled, so that one that does not
/// compile is an error on every path.
pub fn path_matches(list: &Vec<String>, path: &str) -> (r: Result<bool, FilterError>)
    ensures
        r == match_outcome(list.deep_view(), path@),
        list@.len() == 0 ==> r == Ok::<bool, FilterError>(true),
{
    let ghost patterns = list.deep_view();
    if list.len() == 0 {
        return Ok(true);
    }
    let mut found = false;
    let mut i: usize = 0;
    while i < list.len()
        invariant
            0 <= i <= list.len(),
            patterns == list.deep_view(),
            patterns.len() == list.len(),
            forall|j: int| 0 <= j < i ==> glob_compiles(#[trigger] patterns[j]),
            found == some_accepts(patterns, path@, i as int),
        decreases list.len() - i,
    {
        assert(patterns[i as int] == list[i as int]@);
        let accepted = match settle(glob_match(list[i].as_str(), path)) {
            Ok(accepted) => accepted,
            Err(e) => {
                return Err(e);
            },
        };
        proof {
            if some_accepts(patterns, path@, i + 1) {
                let k = choose|k: int| 0 <= k < i + 1 && glob_accepts(#[trigger] patterns[k], path@);
                if k < i {
                    assert(some_accepts(patterns, path@, i as int));
                }
            }
            if accepted {
                assert(glob_accepts(patterns[i as int], path@));
            }
        }
        found = found || accepted;
        i = i + 1;
    }
    Ok(found)
}

/// Checks every pattern of `list` once, so that a pattern that does not
/// compile is reported before any line is judged.
pub fn validate_patterns(list: &Vec<String>) -> (r: Result<(), FilterError>)
    ensures
        r == if all_compile(list.deep_view()) {
            Ok::<(), FilterError>(())
        } else {
            Err::<(), FilterError>(FilterError::InvalidPattern)
        },
{
    let ghost patterns = list.deep_view();
    let mut i: usize = 0;
    while i < list.len()
        invariant
            0 <= i <= list.len(),
            patterns == list.deep_view(),
            patterns.len() == list.len(),
            forall|j: int| 0 <= j < i ==> glob_compiles(#[trigger] patterns[j]),
        decreases list.len() - i,
    {
        assert(patterns[i as int] == list[i as int]@);
        if glob_match(list[i].as_str(), "").is_err() {
            return Err(FilterError::InvalidPattern);
        }
        i = i + 1;
    }
    Ok(())
}

/// With patterns that all compile, a path is wanted exactly where the list is
/// empty or one of its patterns matches the path; no error arises.
pub proof fn lemma_valid_patterns_match_any(patterns: Seq<Seq<char>>, path: Seq<char>)
    requires
        all_compile(patterns),
    ensures
        match_outcome(patterns, path) == Ok::<bool, FilterError>(
            patterns.len() == 0 || exists|i: int|
                0 <= i < patterns.len() && glob_accepts(#[trigger] patterns[i], path),
        ),
{
}

/// A pattern that does not compile is an error of the list, not of a line:
/// matching fails on every path, whatever the other patterns are.
pub proof fn lemma_invalid_pattern_fails_every_path(
    patterns: Seq<Seq<char>>,
    i: int,
    path: Seq<char>,
)
    requires
        0 <= i < patterns.len(),
        !glob_compiles(patterns[i]),
    ensures
        match_outcome(patterns, path) == Err::<bool, FilterError>(FilterError::InvalidPattern),
{
}

/// Whether matching fails does not depend on the path.
pub proof fn lemma_failure_is_of_the_list(
    patterns: Seq<Seq<char>>,
    one: Seq<char>,
    other: Seq<char>,
)
    ensures
        match_outcome(patterns, one) is Err <==> match_outcome(patterns, other) is Err,
        match_outcome(patterns, one) is Err <==> patterns.len() > 0 && !all_compile(patterns),
{
}

/// An empty pattern list wants every path.
pub proof fn lemma_empty_list_matches_all(path: Seq<char>)
    ensures
        match_outcome(Seq::<Seq<char>>::empty(), path) == Ok::<bool, FilterError>(true),
{
}

/// Two calls of `path_matches` on the same list and path give the same answer.
pub proof fn lemma_path_matches_is_pure(
    list: &Vec<String>,
    path: &str,
    first: Result<bool, FilterError>,
    second: Result<bool, FilterError>,
)
    requires
        call_ensures(path_matches, (list, path), first),
        call_ensures(path_matches, (list, path), second),
    ensures
        first == second,
{
}

} // verus!
