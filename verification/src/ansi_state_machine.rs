use crate::error::FilterError;
use crate::pattern::{match_outcome, path_matches};
use crate::state::{Phase, State, StateMachine};
use crate::token::{
    ansi_tokens, lead_is_marker, lead_is_text, second_text, starts_with_marker, starts_with_text,
    text_after_lead, tokenize, Token, TokenView, ESC,
};
use vstd::prelude::*;

verus! {

/// How many empty lines in a row must come before a line of plain text for
/// that line to open the closing summary. A setting, not a law of the format.
pub const SUMMARY_AFTER_BLANKS: u64 = 2;

/// What a line means for the block that is being read.
#[derive(PartialEq, Eq, Debug, Clone, Copy, Structural)]
pub enum ParseResult {
    /// The line is empty: the end may be near. The flag is the disposition to
    /// come back to.
    CheckEnd(bool),
    /// The line belongs to the current block, or opens one of the same
    /// disposition.
    KeepState,
    /// The line opens a block of the other disposition.
    Flip,
}

/// Filters output in which every diagnostic opens with one escape sequence,
/// the marker, followed by the path it is about.
pub struct AnsiStateMachine {
    /// The marker, in the tokenizer's spelling.
    pub identifier: String,
    pub state: State,
    /// Globs of which a path must match one for its block to be emitted; none
    /// means that every block is.
    pub patterns: Vec<String>,
}

/// What a line means while a block of disposition `want` is read. A line that
/// opens with the marker is a header: the text after the marker is the path of
/// a new block, which is wanted where the path matches the patterns.
pub open spec fn parse_outcome(
    marker: Seq<char>,
    patterns: Seq<Seq<char>>,
    blank: bool,
    tokens: Seq<TokenView>,
    want: bool,
) -> Result<ParseResult, FilterError> {
    if blank {
        Ok(ParseResult::CheckEnd(want))
    } else if !lead_is_marker(tokens, marker) {
        Ok(ParseResult::KeepState)
    } else {
        match text_after_lead(tokens) {
            None => Err(FilterError::MalformedDiagnostic),
            Some(path) => match match_outcome(patterns, path) {
                Err(e) => Err(e),
                Ok(wanted) => Ok(
                    if wanted == want {
                        ParseResult::KeepState
                    } else {
                        ParseResult::Flip
                    },
                ),
            },
        }
    }
}

/// The state that follows a parsed line, and whether the line is emitted.
pub open spec fn applied(want: bool, parsed: ParseResult) -> (Phase, bool) {
    match parsed {
        ParseResult::CheckEnd(resume) => (Phase::CheckEnd(resume, 1), want),
        ParseResult::KeepState => (Phase::parsing(want), want),
        ParseResult::Flip => (Phase::parsing(!want), !want),
    }
}

/// One line read while a block of disposition `want` is open.
pub open spec fn parse_step(
    marker: Seq<char>,
    patterns: Seq<Seq<char>>,
    blank: bool,
    tokens: Seq<TokenView>,
    want: bool,
) -> Result<(Phase, bool), FilterError> {
    match parse_outcome(marker, patterns, blank, tokens, want) {
        Ok(parsed) => Ok(applied(want, parsed)),
        Err(e) => Err(e),
    }
}

/// One step of the filter on a line given by its tokens; `blank` says whether
/// the line is empty.
pub open spec fn token_step(
    phase: Phase,
    marker: Seq<char>,
    patterns: Seq<Seq<char>>,
    blank: bool,
    tokens: Seq<TokenView>,
) -> Result<(Phase, bool), FilterError> {
    match phase {
        Phase::End => Ok((Phase::End, true)),
        Phase::ParseToPause => parse_step(marker, patterns, blank, tokens, true),
        Phase::ParseToContinue => parse_step(marker, patterns, blank, tokens, false),
        Phase::CheckEnd(resume, blank_run) => {
            if blank {
                Ok((Phase::CheckEnd(resume, blank_run + 1), resume))
            } else if blank_run >= SUMMARY_AFTER_BLANKS && lead_is_text(tokens) {
                Ok((Phase::End, true))
            } else {
                parse_step(marker, patterns, blank, tokens, resume)
            }
        },
    }
}

/// One step of the filter on a line.
pub open spec fn block_step(
    phase: Phase,
    marker: Seq<char>,
    patterns: Seq<Seq<char>>,
    line: Seq<char>,
) -> Result<(Phase, bool), FilterError> {
    token_step(phase, marker, patterns, line.len() == 0, ansi_tokens(line))
}

/// What a line does that is not empty and opens with no escape character:
/// it belongs to the block that is open, or, after enough empty lines, opens
/// the summary.
pub open spec fn text_step(phase: Phase) -> (Phase, bool) {
    match phase {
        Phase::End => (Phase::End, true),
        Phase::ParseToPause => (Phase::ParseToPause, true),
        Phase::ParseToContinue => (Phase::ParseToContinue, false),
        Phase::CheckEnd(resume, blank_run) => {
            if blank_run >= SUMMARY_AFTER_BLANKS {
                (Phase::End, true)
            } else {
                (Phase::parsing(resume), resume)
            }
        },
    }
}

/// The line opens a diagnostic: it is not empty and starts with the marker.
pub open spec fn is_header(marker: Seq<char>, line: Seq<char>) -> bool {
    line.len() > 0 && lead_is_marker(ansi_tokens(line), marker)
}

/// The filter fed with `lines` one after the other: the state it ends in and,
/// for each line, whether it was emitted; or the first error.
pub open spec fn run_lines(
    phase: Phase,
    marker: Seq<char>,
    patterns: Seq<Seq<char>>,
    lines: Seq<Seq<char>>,
) -> Result<(Phase, Seq<bool>), FilterError>
    decreases lines.len(),
{
    if lines.len() == 0 {
        Ok((phase, Seq::empty()))
    } else {
        match block_step(phase, marker, patterns, lines[0]) {
            Err(e) => Err(e),
            Ok((next, print)) => match run_lines(next, marker, patterns, lines.drop_first()) {
                Err(e) => Err(e),
                Ok((last, prints)) => Ok((last, seq![print] + prints)),
            },
        }
    }
}

/// Whether counting one more empty line stays within `State`.
pub open spec fn can_step(state: State, blank: bool) -> bool {
    match state {
        State::CheckEnd(_, blank_run) => blank ==> blank_run < u64::MAX,
        _ => true,
    }
}

impl AnsiStateMachine {
    /// A filter that has seen no line yet: it emits until a header says
    /// otherwise.
    pub fn new(identifier: String, patterns: Vec<String>) -> (machine: Self)
        ensures
            machine.identifier == identifier,
            machine.patterns == patterns,
            machine.state == State::ParseToPause,
    {
        Self { identifier, state: State::ParseToPause, patterns }
    }

    /// Reads one line, given by its tokens, as part of a block of the
    /// disposition `parsing_to_pause`.
    pub fn parse_line(&self, blank: bool, tokens: &Vec<Token>, parsing_to_pause: bool) -> (r:
        Result<ParseResult, FilterError>)
        ensures
            r == parse_outcome(
                self.identifier@,
                self.patterns.deep_view(),
                blank,
                tokens.deep_view(),
                parsing_to_pause,
            ),
    {
        if blank {
            return Ok(ParseResult::CheckEnd(parsing_to_pause));
        }
        if !starts_with_marker(tokens, &self.identifier) {
            return Ok(ParseResult::KeepState);
        }
        let path = match second_text(tokens) {
            Some(path) => path,
            None => {
                return Err(FilterError::MalformedDiagnostic);
            },
        };
        let wanted = match path_matches(&self.patterns, path.as_str()) {
            Ok(wanted) => wanted,
            Err(e) => {
                return Err(e);
            },
        };
        if wanted == parsing_to_pause {
            Ok(ParseResult::KeepState)
        } else {
            Ok(ParseResult::Flip)
        }
    }

    /// Reads one line as part of a block of the disposition
    /// `parsing_to_pause` and moves to the state that follows.
    pub fn process_parse_result(
        &mut self,
        blank: bool,
        tokens: &Vec<Token>,
        parsing_to_pause: bool,
    ) -> (r: Result<(&State, bool), FilterError>)
        ensures
            final(self).identifier == old(self).identifier,
            final(self).patterns == old(self).patterns,
            r is Ok || old(self).state.wf() ==> final(self).state.wf(),
            match r {
                Ok((state, print)) => {
                    &&& parse_step(
                        old(self).identifier@,
                        old(self).patterns.deep_view(),
                        blank,
                        tokens.deep_view(),
                        parsing_to_pause,
                    ) == Ok::<(Phase, bool), FilterError>((state@, print))
                    &&& final(self).state == *state
                },
                Err(e) => {
                    &&& parse_step(
                        old(self).identifier@,
                        old(self).patterns.deep_view(),
                        blank,
                        tokens.deep_view(),
                        parsing_to_pause,
                    ) == Err::<(Phase, bool), FilterError>(e)
                    &&& final(self).state == old(self).state
                },
            },
    {
        let parsed = match self.parse_line(blank, tokens, parsing_to_pause) {
            Ok(parsed) => parsed,
            Err(e) => {
                return Err(e);
            },
        };
        match parsed {
            ParseResult::CheckEnd(resume) => {
                self.state = State::CheckEnd(resume, 1);
                Ok((&self.state, parsing_to_pause))
            },
            ParseResult::KeepState => {
                self.state = if parsing_to_pause {
                    State::ParseToPause
                } else {
                    State::ParseToContinue
                };
                Ok((&self.state, parsing_to_pause))
            },
            ParseResult::Flip => {
                self.state = if parsing_to_pause {
                    State::ParseToContinue
                } else {
                    State::ParseToPause
                };
                Ok((&self.state, !parsing_to_pause))
            },
        }
    }

    /// Judges one line, given by its tokens; `blank` says whether the line is
    /// empty. On an error the filter stays in the state it was in.
    pub fn step(&mut self, blank: bool, tokens: &Vec<Token>) -> (r: Result<
        (&State, bool),
        FilterError,
    >)
        requires
            can_step(old(self).state, blank),
        ensures
            final(self).identifier == old(self).identifier,
            final(self).patterns == old(self).patterns,
            r is Ok || old(self).state.wf() ==> final(self).state.wf(),
            match r {
                Ok((state, print)) => {
                    &&& token_step(
                        old(self).state@,
                        old(self).identifier@,
                        old(self).patterns.deep_view(),
                        blank,
                        tokens.deep_view(),
                    ) == Ok::<(Phase, bool), FilterError>((state@, print))
                    &&& final(self).state == *state
                },
                Err(e) => {
                    &&& token_step(
                        old(self).state@,
                        old(self).identifier@,
                        old(self).patterns.deep_view(),
                        blank,
                        tokens.deep_view(),
                    ) == Err::<(Phase, bool), FilterError>(e)
                    &&& final(self).state == old(self).state
                },
            },
    {
        match self.state {
            State::ParseToPause => self.process_parse_result(blank, tokens, true),
            State::ParseToContinue => self.process_parse_result(blank, tokens, false),
            State::CheckEnd(should_parse_to_pause, check_count) => {
                if blank {
                    self.state = State::CheckEnd(should_parse_to_pause, check_count + 1);
                    return Ok((&self.state, should_parse_to_pause));
                }
                if starts_with_text(tokens) && check_count >= SUMMARY_AFTER_BLANKS {
                    self.state = State::End;
                    return Ok((&self.state, true));
                }
                self.process_parse_result(blank, tokens, should_parse_to_pause)
            },
            State::End => Ok((&self.state, true)),
        }
    }
}

impl StateMachine for AnsiStateMachine {
    open spec fn phase(&self) -> Phase {
        self.state@
    }

    open spec fn finished(&self) -> bool {
        self.state == State::End
    }

    open spec fn can_run(&self, line: Seq<char>) -> bool {
        can_step(self.state, line.len() == 0)
    }

    open spec fn verdict(&self, line: Seq<char>) -> Result<(Phase, bool), FilterError> {
        block_step(self.state@, self.identifier@, self.patterns.deep_view(), line)
    }

    fn is_finished(&self) -> (done: bool) {
        self.state == State::End
    }

    fn run(&mut self, line: &String) -> (r: Result<(&State, bool), FilterError>)
        ensures
            final(self).identifier == old(self).identifier,
            final(self).patterns == old(self).patterns,
            r is Ok || old(self).state.wf() ==> final(self).state.wf(),
            r matches Ok((state, _)) ==> final(self).state == *state,
            r is Err ==> final(self).state == old(self).state,
            line@.len() > 0 && line@[0] != ESC ==> (r matches Ok((state, print)) && (state@, print)
                == text_step(old(self).state@)),
    {
        let blank = line.as_str().is_empty();
        // An empty line has no tokens to look at, and at the end none is looked at.
        let tokens = if blank || self.is_finished() {
            Vec::new()
        } else {
            tokenize(line.as_str())
        };
        assert(tokens.deep_view().len() > 0 ==> tokens.deep_view()[0] == tokens@[0]@);
        self.step(blank, &tokens)
    }
}

} // verus!
