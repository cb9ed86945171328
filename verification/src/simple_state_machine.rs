use crate::error::FilterError;
use crate::pattern::{match_outcome, path_matches};
use crate::state::{Phase, State, StateMachine};
use vstd::prelude::*;
use vstd::std_specs::iter::IteratorSpec;

verus! {

/// The character that ends the path in a line of plain output.
pub const PATH_END: char = '(';

/// Filters output without escape sequences, in which every diagnostic is one
/// line that opens with its path.
pub struct SimpleStateMachine {
    pub state: State,
    /// Globs of which a path must match one for its line to be emitted; none
    /// means that every line is.
    pub patterns: Vec<String>,
}

/// How many characters of `line` come before its first `(`: all of them where
/// it has none.
pub open spec fn path_len(line: Seq<char>) -> int
    decreases line.len(),
{
    if line.len() == 0 || line[0] == PATH_END {
        0
    } else {
        1 + path_len(line.drop_first())
    }
}

/// The path that a line of plain output is about: what stands before its
/// first `(`.
pub open spec fn candidate_path(line: Seq<char>) -> Seq<char> {
    line.take(path_len(line))
}

/// `path_len` is the place of the first `(`.
pub proof fn lemma_path_len(line: Seq<char>)
    ensures
        0 <= path_len(line) <= line.len(),
        forall|i: int| 0 <= i < path_len(line) ==> line[i] != PATH_END,
        path_len(line) < line.len() ==> line[path_len(line)] == PATH_END,
    decreases line.len(),
{
    if line.len() > 0 && line[0] != PATH_END {
        let rest = line.drop_first();
        lemma_path_len(rest);
        assert forall|i: int| 0 <= i < path_len(line) implies line[i] != PATH_END by {
            if i > 0 {
                assert(line[i] == rest[i - 1]);
            }
        }
        if path_len(line) < line.len() {
            assert(line[path_len(line)] == rest[path_len(rest)]);
        }
    }
}

/// A place without `(` before it, which holds `(` or is the end of the line,
/// is `path_len`.
pub proof fn lemma_path_len_is(line: Seq<char>, end: int)
    requires
        0 <= end <= line.len(),
        forall|i: int| 0 <= i < end ==> line[i] != PATH_END,
        end < line.len() ==> line[end] == PATH_END,
    ensures
        path_len(line) == end,
{
    lemma_path_len(line);
    let found = path_len(line);
    if found < end {
        assert(line[found] != PATH_END);
    } else if end < found {
        assert(line[end] != PATH_END);
    }
}

/// What the plain filter answers to `line`: it stays in `phase` and emits the
/// line where its path matches the patterns.
pub open spec fn plain_step(phase: Phase, patterns: Seq<Seq<char>>, line: Seq<char>) -> Result<
    (Phase, bool),
    FilterError,
> {
    match match_outcome(patterns, candidate_path(line)) {
        Ok(wanted) => Ok((phase, wanted)),
        Err(e) => Err(e),
    }
}

/// Cuts the path off a line of plain output.
pub fn path_of(line: &str) -> (path: &str)
    ensures
        path@ == candidate_path(line@),
        path@.len() <= line@.len(),
        path@ == line@.take(path@.len() as int),
        forall|i: int| 0 <= i < path@.len() ==> line@[i] != PATH_END,
        path@.len() < line@.len() ==> line@[path@.len() as int] == PATH_END,
{
    let mut chars = line.chars();
    let mut end: usize = 0;
    let total = line.unicode_len();
    loop
        invariant_except_break
            chars.obeys_prophetic_iter_laws(),
            chars.remaining() == line@.skip(end as int),
        invariant
            0 <= end <= total,
            total == line@.len(),
            forall|i: int| 0 <= i < end ==> line@[i] != PATH_END,
        ensures
            0 <= end <= total,
            forall|i: int| 0 <= i < end ==> line@[i] != PATH_END,
            end < line@.len() ==> line@[end as int] == PATH_END,
        decreases total - end,
    {
        match chars.next() {
            Some(c) => {
                assert(c == line@.skip(end as int)[0]);
                if c == PATH_END {
                    break ;
                }
                assert(line@.skip(end as int).drop_first() == line@.skip(end as int + 1));
                end = end + 1;
            },
            None => {
                break ;
            },
        }
    }
    proof {
        lemma_path_len_is(line@, end as int);
    }
    line.substring_char(0, end)
}

impl SimpleStateMachine {
    /// A filter over `patterns`.
    pub fn new(patterns: Vec<String>) -> (machine: Self)
        ensures
            machine.patterns == patterns,
            machine.state == State::ParseToPause,
    {
        Self { state: State::ParseToPause, patterns }
    }
}

impl StateMachine for SimpleStateMachine {
    open spec fn phase(&self) -> Phase {
        self.state@
    }

    /// Every line is judged by itself: there is no end to wait for.
    open spec fn finished(&self) -> bool {
        false
    }

    open spec fn can_run(&self, line: Seq<char>) -> bool {
        true
    }

    open spec fn verdict(&self, line: Seq<char>) -> Result<(Phase, bool), FilterError> {
        plain_step(self.state@, self.patterns.deep_view(), line)
    }

    fn is_finished(&self) -> (done: bool) {
        false
    }

    fn run(&mut self, line: &String) -> (r: Result<(&State, bool), FilterError>)
        ensures
            *final(self) == *old(self),
            r matches Ok((state, print)) ==> *state == old(self).state && Ok::<bool, FilterError>(
                print,
            ) == match_outcome(old(self).patterns.deep_view(), candidate_path(line@)),
    {
        let path = path_of(line.as_str());
        match path_matches(&self.patterns, path) {
            Ok(wanted) => Ok((&self.state, wanted)),
            Err(e) => Err(e),
        }
    }
}

/// The plain filter has no memory: two filters over the same patterns answer
/// every line alike, whatever lines either has judged before.
pub proof fn lemma_plain_filter_is_stateless(
    first: SimpleStateMachine,
    second: SimpleStateMachine,
    line: Seq<char>,
)
    requires
        first.patterns.deep_view() == second.patterns.deep_view(),
        first.state == second.state,
    ensures
        first.verdict(line) == second.verdict(line),
{
}

/// Whether the plain filter emits a line does not depend on the state it is
/// in, and the state stays what it is.
pub proof fn lemma_plain_step_keeps_phase(
    one: Phase,
    other: Phase,
    patterns: Seq<Seq<char>>,
    line: Seq<char>,
)
    ensures
        plain_step(one, patterns, line) matches Ok((next, print)) ==> next == one && plain_step(
            other,
            patterns,
            line,
        ) == Ok::<(Phase, bool), FilterError>((other, print)),
        plain_step(one, patterns, line) matches Err(e) ==> plain_step(other, patterns, line)
            == Err::<(Phase, bool), FilterError>(e),
{
}

} // verus!
