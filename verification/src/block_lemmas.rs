use crate::ansi_state_machine::{
    block_step, is_header, parse_outcome, run_lines, token_step, ParseResult, SUMMARY_AFTER_BLANKS,
};
use crate::error::FilterError;
use crate::pattern::match_outcome;
use crate::state::Phase;
use crate::token::{lead_is_marker, lead_is_text, text_after_lead, TokenView};
use vstd::prelude::*;

verus! {

/// `End` is terminal: whatever the line, it is emitted and the state stays.
pub proof fn lemma_end_is_terminal(
    marker: Seq<char>,
    patterns: Seq<Seq<char>>,
    blank: bool,
    tokens: Seq<TokenView>,
)
    ensures
        token_step(Phase::End, marker, patterns, blank, tokens) == Ok::<
            (Phase, bool),
            FilterError,
        >((Phase::End, true)),
{
}

/// Once in `End`, every further line is emitted and the state never changes.
pub proof fn lemma_end_absorbs(
    marker: Seq<char>,
    patterns: Seq<Seq<char>>,
    lines: Seq<Seq<char>>,
)
    ensures
        run_lines(Phase::End, marker, patterns, lines) matches Ok((last, prints)) && last
            == Phase::End && prints.len() == lines.len() && forall|i: int|
            0 <= i < prints.len() ==> prints[i],
    decreases lines.len(),
{
    if lines.len() > 0 {
        lemma_end_absorbs(marker, patterns, lines.drop_first());
    }
}

/// While lines are emitted, a line that is no header is emitted too and leaves
/// the filter emitting.
pub proof fn lemma_wanting_until_header(
    phase: Phase,
    marker: Seq<char>,
    patterns: Seq<Seq<char>>,
    blank: bool,
    tokens: Seq<TokenView>,
)
    requires
        phase.wanting(),
        blank || !lead_is_marker(tokens, marker),
    ensures
        token_step(phase, marker, patterns, blank, tokens) matches Ok((next, print)) && print
            && next.wanting(),
{
}

/// A filter emits by default: one that is emitting, as a new one is, and is
/// fed lines of which none is a header emits every one of them, and is
/// emitting still.
pub proof fn lemma_emits_before_first_header(
    phase: Phase,
    marker: Seq<char>,
    patterns: Seq<Seq<char>>,
    lines: Seq<Seq<char>>,
)
    requires
        phase.wanting(),
        forall|i: int| 0 <= i < lines.len() ==> !is_header(marker, #[trigger] lines[i]),
    ensures
        run_lines(phase, marker, patterns, lines) matches Ok((last, prints)) && last.wanting()
            && prints.len() == lines.len() && forall|i: int| 0 <= i < prints.len() ==> prints[i],
    decreases lines.len(),
{
    if lines.len() > 0 {
        assert(!is_header(marker, lines[0]));
        let rest = lines.drop_first();
        assert forall|i: int| 0 <= i < rest.len() implies !is_header(marker, #[trigger] rest[i]) by {
            assert(rest[i] == lines[i + 1]);
        }
        let next = block_step(phase, marker, patterns, lines[0])->Ok_0.0;
        lemma_emits_before_first_header(next, marker, patterns, rest);
    }
}

/// A header decides the disposition of its block by its path alone: the
/// header is emitted, and the block after it, exactly where the path matches
/// the patterns. The state flips exactly where that differs from the
/// disposition so far.
pub proof fn lemma_header_sets_disposition(
    phase: Phase,
    marker: Seq<char>,
    patterns: Seq<Seq<char>>,
    tokens: Seq<TokenView>,
    path: Seq<char>,
    wanted: bool,
)
    requires
        phase != Phase::End,
        lead_is_marker(tokens, marker),
        text_after_lead(tokens) == Some(path),
        match_outcome(patterns, path) == Ok::<bool, FilterError>(wanted),
    ensures
        token_step(phase, marker, patterns, false, tokens) == Ok::<(Phase, bool), FilterError>(
            (Phase::parsing(wanted), wanted),
        ),
        parse_outcome(marker, patterns, false, tokens, phase.wanting()) == Ok::<
            ParseResult,
            FilterError,
        >(
            if wanted == phase.wanting() {
                ParseResult::KeepState
            } else {
                ParseResult::Flip
            },
        ),
{
}

/// A header without a path after the marker is an error in every state but
/// `End`, and so is a header where one of the patterns does not compile.
pub proof fn lemma_header_errors(
    phase: Phase,
    marker: Seq<char>,
    patterns: Seq<Seq<char>>,
    tokens: Seq<TokenView>,
)
    requires
        phase != Phase::End,
        lead_is_marker(tokens, marker),
    ensures
        text_after_lead(tokens) is None ==> token_step(phase, marker, patterns, false, tokens)
            == Err::<(Phase, bool), FilterError>(FilterError::MalformedDiagnostic),
        text_after_lead(tokens) matches Some(path) && match_outcome(patterns, path) is Err
            ==> token_step(phase, marker, patterns, false, tokens) == Err::<
            (Phase, bool),
            FilterError,
        >(FilterError::InvalidPattern),
{
}

/// After enough empty lines, a line that starts with text ends the
/// diagnostics and is itself emitted, whatever the disposition was.
pub proof fn lemma_text_after_blanks_ends(
    resume: bool,
    blank_run: nat,
    marker: Seq<char>,
    patterns: Seq<Seq<char>>,
    tokens: Seq<TokenView>,
)
    requires
        blank_run >= SUMMARY_AFTER_BLANKS,
        lead_is_text(tokens),
    ensures
        token_step(Phase::CheckEnd(resume, blank_run), marker, patterns, false, tokens) == Ok::<
            (Phase, bool),
            FilterError,
        >((Phase::End, true)),
{
}

/// From any state, two empty lines and then a line that starts with text
/// lead to `End`, and that line is emitted.
pub proof fn lemma_two_blanks_then_text_end(
    phase: Phase,
    marker: Seq<char>,
    patterns: Seq<Seq<char>>,
    first: Seq<TokenView>,
    second: Seq<TokenView>,
    tokens: Seq<TokenView>,
)
    requires
        lead_is_text(tokens),
    ensures
        token_step(phase, marker, patterns, true, first) matches Ok((one, _)) && token_step(
            one,
            marker,
            patterns,
            true,
            second,
        ) matches Ok((two, _)) && token_step(two, marker, patterns, false, tokens) == Ok::<
            (Phase, bool),
            FilterError,
        >((Phase::End, true)),
{
}

/// An empty line is emitted as the block around it is, and never an error.
pub proof fn lemma_blank_line_follows_block(
    phase: Phase,
    marker: Seq<char>,
    patterns: Seq<Seq<char>>,
    tokens: Seq<TokenView>,
)
    ensures
        token_step(phase, marker, patterns, true, tokens) matches Ok((next, print)) && print
            == phase.wanting() && next.wanting() == phase.wanting(),
{
}

/// `CheckEnd` is passed through: a line that is not empty never leaves the
/// filter there.
pub proof fn lemma_check_end_is_transient(
    phase: Phase,
    marker: Seq<char>,
    patterns: Seq<Seq<char>>,
    tokens: Seq<TokenView>,
)
    ensures
        token_step(phase, marker, patterns, false, tokens) matches Ok((next, _)) ==> !(next
            is CheckEnd),
{
}

/// Whether a line is emitted is what the state after it says: the filter
/// emits exactly while it is wanting.
pub proof fn lemma_emitted_as_wanted(
    phase: Phase,
    marker: Seq<char>,
    patterns: Seq<Seq<char>>,
    blank: bool,
    tokens: Seq<TokenView>,
)
    ensures
        token_step(phase, marker, patterns, blank, tokens) matches Ok((next, print)) ==> print
            == next.wanting(),
{
}

} // verus!
