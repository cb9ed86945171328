use crate::ansi_state_machine::{can_step, token_step, AnsiStateMachine};
use crate::error::FilterError;
use crate::simple_state_machine::{plain_step, SimpleStateMachine};
use crate::state::{Phase, State, StateMachine};
use crate::token::{ansi_tokens, tokenize, Token, TokenView, ESC};
use vstd::prelude::*;

verus! {

/// The filter that suits a compiler's output: chosen once, by its first line.
pub enum LineFilter {
    /// For output without escape sequences.
    Plain(SimpleStateMachine),
    /// For output whose diagnostics open with an escape sequence.
    Block(AnsiStateMachine),
}

/// A `LineFilter` over mathematical strings.
pub enum FilterView {
    Plain { phase: Phase, patterns: Seq<Seq<char>> },
    Block { marker: Seq<char>, phase: Phase, patterns: Seq<Seq<char>> },
}

impl View for LineFilter {
    type V = FilterView;

    open spec fn view(&self) -> FilterView {
        match self {
            LineFilter::Plain(machine) => FilterView::Plain {
                phase: machine.state@,
                patterns: machine.patterns.deep_view(),
            },
            LineFilter::Block(machine) => FilterView::Block {
                marker: machine.identifier@,
                phase: machine.state@,
                patterns: machine.patterns.deep_view(),
            },
        }
    }
}

impl FilterView {
    /// The filter for output whose first line has the tokens `tokens`: the
    /// block filter, with the first token as its marker, where that token is
    /// an escape sequence, and the plain filter otherwise. Either starts out
    /// emitting.
    pub open spec fn chosen(tokens: Seq<TokenView>, patterns: Seq<Seq<char>>) -> FilterView {
        if tokens.len() > 0 && tokens[0] is Escape {
            FilterView::Block {
                marker: tokens[0]->Escape_0,
                phase: Phase::ParseToPause,
                patterns,
            }
        } else {
            FilterView::Plain { phase: Phase::ParseToPause, patterns }
        }
    }

    pub open spec fn phase(self) -> Phase {
        match self {
            FilterView::Plain { phase, .. } => phase,
            FilterView::Block { phase, .. } => phase,
        }
    }

    /// The same filter in another state.
    pub open spec fn at(self, phase: Phase) -> FilterView {
        match self {
            FilterView::Plain { patterns, .. } => FilterView::Plain { phase, patterns },
            FilterView::Block { marker, patterns, .. } => FilterView::Block {
                marker,
                phase,
                patterns,
            },
        }
    }

    /// Only the block filter ever finishes: when it has reached `End`.
    pub open spec fn finished(self) -> bool {
        match self {
            FilterView::Plain { .. } => false,
            FilterView::Block { phase, .. } => phase == Phase::End,
        }
    }

    /// What the filter answers to `line`, whose tokens are `tokens`. The plain
    /// filter reads the line itself, the block filter its tokens.
    pub open spec fn verdict_on(self, line: Seq<char>, tokens: Seq<TokenView>) -> Result<
        (Phase, bool),
        FilterError,
    > {
        match self {
            FilterView::Plain { phase, patterns } => plain_step(phase, patterns, line),
            FilterView::Block { marker, phase, patterns } => token_step(
                phase,
                marker,
                patterns,
                line.len() == 0,
                tokens,
            ),
        }
    }

    /// What the filter answers to `line`.
    pub open spec fn verdict(self, line: Seq<char>) -> Result<(Phase, bool), FilterError> {
        self.verdict_on(line, ansi_tokens(line))
    }
}

impl LineFilter {
    /// Chooses the filter for output whose first line has the tokens `tokens`.
    pub fn from_tokens(tokens: &Vec<Token>, patterns: Vec<String>) -> (filter: LineFilter)
        ensures
            filter@ == FilterView::chosen(tokens.deep_view(), patterns.deep_view()),
            filter.patterns() == patterns,
    {
        if tokens.len() > 0 {
            assert(tokens.deep_view()[0] == tokens@[0]@);
            match &tokens[0] {
                Token::Escape(code) => {
                    return LineFilter::Block(AnsiStateMachine::new(code.clone(), patterns));
                },
                Token::Text(_) => {},
            }
        }
        LineFilter::Plain(SimpleStateMachine::new(patterns))
    }

    /// Chooses the filter for output that starts with `first_line`.
    pub fn select(first_line: &String, patterns: Vec<String>) -> (filter: LineFilter)
        ensures
            filter@ == FilterView::chosen(ansi_tokens(first_line@), patterns.deep_view()),
            filter.patterns() == patterns,
            first_line@.len() == 0 || first_line@[0] != ESC ==> filter is Plain,
    {
        let tokens = tokenize(first_line.as_str());
        assert(tokens.deep_view().len() > 0 ==> tokens.deep_view()[0] == tokens@[0]@);
        LineFilter::from_tokens(&tokens, patterns)
    }

    /// Whether the filter can take `line`: false only where counting it would
    /// take a count of empty lines past what `State` can hold.
    pub open spec fn can_take(&self, line: Seq<char>) -> bool {
        match self {
            LineFilter::Plain(_) => true,
            LineFilter::Block(machine) => can_step(machine.state, line.len() == 0),
        }
    }

    /// Judges one line, given with its tokens. On an error the filter stays as
    /// it was.
    pub fn advance(&mut self, line: &String, tokens: &Vec<Token>) -> (r: Result<
        (&State, bool),
        FilterError,
    >)
        requires
            old(self).can_take(line@),
        ensures
            match r {
                Ok((state, print)) => {
                    &&& old(self)@.verdict_on(line@, tokens.deep_view()) == Ok::<
                        (Phase, bool),
                        FilterError,
                    >((state@, print))
                    &&& final(self)@ == old(self)@.at(state@)
                },
                Err(e) => {
                    &&& old(self)@.verdict_on(line@, tokens.deep_view()) == Err::<
                        (Phase, bool),
                        FilterError,
                    >(e)
                    &&& *final(self) == *old(self)
                },
            },
            final(self).patterns() == old(self).patterns(),
    {
        match self {
            LineFilter::Plain(machine) => machine.run(line),
            LineFilter::Block(machine) => machine.step(line.as_str().is_empty(), tokens),
        }
    }

    /// The patterns the filter was made with.
    pub open spec fn patterns(&self) -> Vec<String> {
        match self {
            LineFilter::Plain(machine) => machine.patterns,
            LineFilter::Block(machine) => machine.patterns,
        }
    }

    /// Gives the patterns back.
    pub fn into_patterns(self) -> (patterns: Vec<String>)
        ensures
            patterns == self.patterns(),
    {
        match self {
            LineFilter::Plain(machine) => machine.patterns,
            LineFilter::Block(machine) => machine.patterns,
        }
    }
}

impl StateMachine for LineFilter {
    open spec fn phase(&self) -> Phase {
        self@.phase()
    }

    open spec fn finished(&self) -> bool {
        self@.finished()
    }

    open spec fn can_run(&self, line: Seq<char>) -> bool {
        self.can_take(line)
    }

    open spec fn verdict(&self, line: Seq<char>) -> Result<(Phase, bool), FilterError> {
        self@.verdict(line)
    }

    fn is_finished(&self) -> (done: bool) {
        match self {
            LineFilter::Plain(machine) => machine.is_finished(),
            LineFilter::Block(machine) => machine.is_finished(),
        }
    }

    fn run(&mut self, line: &String) -> (r: Result<(&State, bool), FilterError>)
        ensures
            r matches Ok((state, _)) ==> final(self)@ == old(self)@.at(state@),
            r is Err ==> *final(self) == *old(self),
            final(self).patterns() == old(self).patterns(),
    {
        match self {
            LineFilter::Plain(machine) => machine.run(line),
            LineFilter::Block(machine) => machine.run(line),
        }
    }
}

} // verus!
