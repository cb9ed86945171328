use crate::error::FilterError;
use crate::line_filter::{FilterView, LineFilter};
use crate::pattern::{all_compile, validate_patterns};
use crate::state::{State, StateMachine};
use crate::token::{ansi_tokens, tokenize, Token, TokenView};
use vstd::prelude::*;

verus! {

/// What the driver does with the line it has just fed.
#[derive(PartialEq, Eq, Debug, Clone, Copy, Structural)]
pub enum Action {
    /// Write the line out.
    Print,
    /// Drop the line.
    Skip,
    /// Drop the line and read no further: the diagnostics are over and the
    /// summary is not asked for.
    Stop,
}

/// How far a session has come.
pub enum Stage {
    /// No line was fed yet. Holds the patterns for the filter to come.
    Waiting(Vec<String>),
    /// The first line has chosen the filter.
    Filtering(LineFilter),
}

/// One run over a compiler's output.
pub struct Session {
    /// Whether the summary that closes the output is emitted too.
    pub show_full: bool,
    /// Whether a line was emitted as part of a wanted diagnostic.
    pub was_logged: bool,
    pub stage: Stage,
}

/// A `Stage` over mathematical strings.
pub enum StageView {
    Waiting(Seq<Seq<char>>),
    Filtering(FilterView),
}

/// A `Session` over mathematical strings.
pub struct SessionView {
    pub show_full: bool,
    pub was_logged: bool,
    pub stage: StageView,
}

impl View for Stage {
    type V = StageView;

    open spec fn view(&self) -> StageView {
        match self {
            Stage::Waiting(patterns) => StageView::Waiting(patterns.deep_view()),
            Stage::Filtering(filter) => StageView::Filtering(filter@),
        }
    }
}

impl View for Session {
    type V = SessionView;

    open spec fn view(&self) -> SessionView {
        SessionView { show_full: self.show_full, was_logged: self.was_logged, stage: self.stage@ }
    }
}

impl SessionView {
    /// The filter that judges a line with the tokens `tokens`: the one chosen
    /// earlier, or the one that the line chooses as the first line. A pattern
    /// that does not compile is reported here, before any line is judged.
    pub open spec fn filter_for(self, tokens: Seq<TokenView>) -> Result<FilterView, FilterError> {
        match self.stage {
            StageView::Filtering(filter) => Ok(filter),
            StageView::Waiting(patterns) => {
                if all_compile(patterns) {
                    Ok(FilterView::chosen(tokens, patterns))
                } else {
                    Err(FilterError::InvalidPattern)
                }
            },
        }
    }

    /// What feeding `line`, whose tokens are `tokens`, does to the session and
    /// asks of the driver. Once the filter has finished and the summary is
    /// not asked for, the driver is told to stop. A line that is emitted
    /// before the filter has finished is logged: it belongs to a wanted
    /// diagnostic.
    pub open spec fn step_on(self, line: Seq<char>, tokens: Seq<TokenView>) -> Result<
        (SessionView, Action),
        FilterError,
    > {
        match self.filter_for(tokens) {
            Err(e) => Err(e),
            Ok(filter) => match filter.verdict_on(line, tokens) {
                Err(e) => Err(e),
                Ok((phase, print)) => {
                    let moved = filter.at(phase);
                    let stage = StageView::Filtering(moved);
                    if moved.finished() && !self.show_full {
                        Ok((SessionView { stage, ..self }, Action::Stop))
                    } else if print {
                        Ok(
                            (
                                SessionView {
                                    stage,
                                    was_logged: self.was_logged || !moved.finished(),
                                    ..self
                                },
                                Action::Print,
                            ),
                        )
                    } else {
                        Ok((SessionView { stage, ..self }, Action::Skip))
                    }
                },
            },
        }
    }

    /// What feeding `line` does to the session and asks of the driver.
    pub open spec fn step(self, line: Seq<char>) -> Result<(SessionView, Action), FilterError> {
        self.step_on(line, ansi_tokens(line))
    }

    /// The status the process ends with: 1 where a wanted diagnostic was
    /// emitted, 0 otherwise.
    pub open spec fn exit_code(self) -> u8 {
        if self.was_logged {
            1
        } else {
            0
        }
    }
}

impl Session {
    /// A session that has seen no input. It ends in success unless a line is
    /// logged, whatever the patterns are.
    pub fn new(patterns: Vec<String>, show_full: bool) -> (session: Self)
        ensures
            session.show_full == show_full,
            !session.was_logged,
            session.stage == Stage::Waiting(patterns),
            session@.exit_code() == 0,
    {
        Session { show_full, was_logged: false, stage: Stage::Waiting(patterns) }
    }

    /// Whether `line` can be fed: false only where it would take the filter's
    /// count of empty lines past what `State` can hold.
    pub open spec fn can_feed(&self, line: Seq<char>) -> bool {
        match self.stage {
            Stage::Waiting(_) => true,
            Stage::Filtering(filter) => filter.can_take(line),
        }
    }

    /// Tests whether `line` can be fed.
    pub fn accepts(&self, line: &String) -> (ok: bool)
        ensures
            ok == self.can_feed(line@),
    {
        match &self.stage {
            Stage::Waiting(_) => true,
            Stage::Filtering(LineFilter::Plain(_)) => true,
            Stage::Filtering(LineFilter::Block(machine)) => match machine.state {
                State::CheckEnd(_, blank_run) => !line.as_str().is_empty() || blank_run < u64::MAX,
                _ => true,
            },
        }
    }

    /// Feeds the next line of input. On an error the session is left as it
    /// was.
    pub fn feed(&mut self, line: &String) -> (r: Result<Action, FilterError>)
        requires
            old(self).can_feed(line@),
        ensures
            match r {
                Ok(action) => old(self)@.step(line@) == Ok::<(SessionView, Action), FilterError>(
                    (final(self)@, action),
                ),
                Err(e) => {
                    &&& old(self)@.step(line@) == Err::<(SessionView, Action), FilterError>(e)
                    &&& *final(self) == *old(self)
                },
            },
    {
        // The plain filter reads the line itself.
        let tokens = match &self.stage {
            Stage::Filtering(LineFilter::Plain(_)) => Vec::new(),
            _ => tokenize(line.as_str()),
        };
        self.feed_tokens(line, &tokens)
    }

    /// Feeds the next line of input, given with its tokens. On an error the
    /// session is left as it was.
    pub fn feed_tokens(&mut self, line: &String, tokens: &Vec<Token>) -> (r: Result<
        Action,
        FilterError,
    >)
        requires
            old(self).can_feed(line@),
        ensures
            match r {
                Ok(action) => old(self)@.step_on(line@, tokens.deep_view()) == Ok::<
                    (SessionView, Action),
                    FilterError,
                >((final(self)@, action)),
                Err(e) => {
                    &&& old(self)@.step_on(line@, tokens.deep_view()) == Err::<
                        (SessionView, Action),
                        FilterError,
                    >(e)
                    &&& *final(self) == *old(self)
                },
            },
    {
        let mut waiting = false;
        match &self.stage {
            Stage::Waiting(patterns) => {
                waiting = true;
                match validate_patterns(patterns) {
                    Ok(()) => {},
                    Err(e) => {
                        return Err(e);
                    },
                }
            },
            Stage::Filtering(_) => {},
        }
        let mut stage = Stage::Waiting(Vec::new());
        core::mem::swap(&mut self.stage, &mut stage);
        let mut filter = match stage {
            Stage::Waiting(patterns) => LineFilter::from_tokens(tokens, patterns),
            Stage::Filtering(filter) => filter,
        };
        let print = match filter.advance(line, tokens) {
            Ok((_, print)) => print,
            Err(e) => {
                self.stage = if waiting {
                    Stage::Waiting(filter.into_patterns())
                } else {
                    Stage::Filtering(filter)
                };
                return Err(e);
            },
        };
        let done = filter.is_finished();
        self.stage = Stage::Filtering(filter);
        if done && !self.show_full {
            Ok(Action::Stop)
        } else if print {
            if !done {
                self.was_logged = true;
            }
            Ok(Action::Print)
        } else {
            Ok(Action::Skip)
        }
    }

    /// Whether a wanted diagnostic was emitted.
    pub fn failed(&self) -> (failed: bool)
        ensures
            failed == self.was_logged,
    {
        self.was_logged
    }

    /// The status the process ends with.
    pub fn exit_code(&self) -> (code: u8)
        ensures
            code == self@.exit_code(),
    {
        if self.was_logged {
            1
        } else {
            0
        }
    }
}

/// A session fed with `lines` one after the other, up to the line at which it
/// tells the driver to stop: the session at the end and what was asked of the
/// driver for each line fed, or the first error.
pub open spec fn run_session(session: SessionView, lines: Seq<Seq<char>>) -> Result<
    (SessionView, Seq<Action>),
    FilterError,
>
    decreases lines.len(),
{
    if lines.len() == 0 {
        Ok((session, Seq::empty()))
    } else {
        match session.step(lines[0]) {
            Err(e) => Err(e),
            Ok((next, action)) => {
                if action == Action::Stop {
                    Ok((next, seq![action]))
                } else {
                    match run_session(next, lines.drop_first()) {
                        Err(e) => Err(e),
                        Ok((last, actions)) => Ok((last, seq![action] + actions)),
                    }
                }
            },
        }
    }
}

/// Where the summary is not asked for, a run ends in failure exactly where it
/// has printed a line; and nothing is asked of the driver after it was told
/// to stop. A run over no input prints nothing and leaves the status as it
/// was.
pub proof fn lemma_exit_status(session: SessionView, lines: Seq<Seq<char>>)
    requires
        !session.show_full,
    ensures
        lines.len() == 0 ==> run_session(session, lines) == Ok::<
            (SessionView, Seq<Action>),
            FilterError,
        >((session, Seq::empty())),
        run_session(session, lines) matches Ok((last, actions)) ==> {
            &&& actions.len() <= lines.len()
            &&& forall|i: int| 0 <= i < actions.len() - 1 ==> actions[i] != Action::Stop
            &&& last.was_logged == (session.was_logged || exists|i: int|
                0 <= i < actions.len() && actions[i] == Action::Print)
        },
    decreases lines.len(),
{
    if lines.len() > 0 {
        if let Ok((next, action)) = session.step(lines[0]) {
            lemma_logged_and_stopped(session, lines[0], ansi_tokens(lines[0]));
            if action == Action::Stop {
                let actions = seq![action];
                assert forall|i: int| 0 <= i < actions.len() implies actions[i]
                    != Action::Print by {}
            } else {
                let rest = lines.drop_first();
                lemma_exit_status(next, rest);
                if let Ok((last, tail)) = run_session(next, rest) {
                    let actions = seq![action] + tail;
                    assert(actions[0] == action);
                    assert forall|i: int| 0 < i < actions.len() implies actions[i] == tail[i
                        - 1] by {}
                    if exists|i: int| 0 <= i < tail.len() && tail[i] == Action::Print {
                        let i = choose|i: int| 0 <= i < tail.len() && tail[i] == Action::Print;
                        assert(actions[i + 1] == Action::Print);
                    }
                    if exists|i: int| 0 <= i < actions.len() && actions[i] == Action::Print {
                        let i = choose|i: int|
                            0 <= i < actions.len() && actions[i] == Action::Print;
                        if i > 0 {
                            assert(tail[i - 1] == Action::Print);
                        }
                    }
                    assert forall|i: int| 0 <= i < actions.len() - 1 implies actions[i]
                        != Action::Stop by {
                        if i > 0 {
                            assert(actions[i] == tail[i - 1]);
                        }
                    }
                }
            }
        }
    }
}

/// What a line leaves of a session: the setting stays, the filter once chosen
/// stays the same filter, and a session that has logged a line stays so.
pub proof fn lemma_step_keeps_session(
    session: SessionView,
    line: Seq<char>,
    tokens: Seq<TokenView>,
)
    ensures
        session.step_on(line, tokens) matches Ok((next, _)) ==> {
            &&& next.show_full == session.show_full
            &&& session.was_logged ==> next.was_logged
            &&& next.stage is Filtering
            &&& session.stage matches StageView::Filtering(filter) ==> next.stage
                == StageView::Filtering(filter.at(next.stage->Filtering_0.phase()))
        },
{
}

/// A line is logged exactly where it is printed before the filter has
/// finished, and the driver is stopped exactly where the filter has finished
/// and the summary is not asked for.
pub proof fn lemma_logged_and_stopped(
    session: SessionView,
    line: Seq<char>,
    tokens: Seq<TokenView>,
)
    ensures
        session.step_on(line, tokens) matches Ok((next, action)) ==> {
            let done = next.stage->Filtering_0.finished();
            &&& next.stage is Filtering
            &&& next.was_logged == (session.was_logged || (action == Action::Print && !done))
            &&& action == Action::Stop <==> done && !session.show_full
        },
{
}

/// With the plain filter a session never stops by itself, and its status is
/// failure as soon as one line was printed.
pub proof fn lemma_plain_session_logs_what_it_prints(
    session: SessionView,
    line: Seq<char>,
    tokens: Seq<TokenView>,
)
    requires
        session.stage matches StageView::Filtering(filter) && filter is Plain,
    ensures
        session.step_on(line, tokens) matches Ok((next, action)) ==> {
            &&& action != Action::Stop
            &&& next.was_logged == (session.was_logged || action == Action::Print)
        },
{
}

} // verus!
