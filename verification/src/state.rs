use crate::error::FilterError;
use vstd::prelude::*;

verus! {

/// Where a filter stands between two lines.
#[derive(PartialEq, Eq, Debug, Clone, Copy, Structural)]
pub enum State {
    /// Inside a wanted block: lines are emitted.
    ParseToPause,
    /// Inside an unwanted block: lines are suppressed.
    ParseToContinue,
    /// An empty line was just seen. The flag says whether the block before it
    /// was wanted, the number counts the empty lines seen in a row.
    CheckEnd(bool, u64),
    /// The diagnostics are over; every further line is emitted.
    End,
}

/// A `State` whose count of empty lines has no upper bound.
pub enum Phase {
    ParseToPause,
    ParseToContinue,
    CheckEnd(bool, nat),
    End,
}

impl View for State {
    type V = Phase;

    open spec fn view(&self) -> Phase {
        match *self {
            State::ParseToPause => Phase::ParseToPause,
            State::ParseToContinue => Phase::ParseToContinue,
            State::CheckEnd(resume, blank_run) => Phase::CheckEnd(resume, blank_run as nat),
            State::End => Phase::End,
        }
    }
}

impl State {
    /// A count of empty lines is at least one: `CheckEnd` is entered on the
    /// first empty line.
    pub open spec fn wf(&self) -> bool {
        match *self {
            State::CheckEnd(_, blank_run) => blank_run >= 1,
            _ => true,
        }
    }
}

impl Phase {
    /// The phase for a block that is wanted, or not.
    pub open spec fn parsing(want: bool) -> Phase {
        if want {
            Phase::ParseToPause
        } else {
            Phase::ParseToContinue
        }
    }

    /// Whether lines of the current block are emitted: true while parsing a
    /// wanted block, while counting empty lines inside one, and at the end.
    pub open spec fn wanting(self) -> bool {
        match self {
            Phase::ParseToPause => true,
            Phase::ParseToContinue => false,
            Phase::CheckEnd(resume, _) => resume,
            Phase::End => true,
        }
    }
}

/// A filter that is fed a compiler's output line by line and says of each
/// line whether it is to be emitted.
pub trait StateMachine {
    /// The state the filter is in.
    spec fn phase(&self) -> Phase;

    /// Whether the filter reports that the diagnostics are over.
    spec fn finished(&self) -> bool;

    /// Whether the filter can take `line`: false only where counting it would
    /// take a count of empty lines past what `State` can hold.
    spec fn can_run(&self, line: Seq<char>) -> bool;

    /// What the filter answers to `line`: the state it moves to and whether
    /// the line is emitted, or the error it stops with.
    spec fn verdict(&self, line: Seq<char>) -> Result<(Phase, bool), FilterError>;

    /// Whether the diagnostics are over.
    fn is_finished(&self) -> (done: bool)
        ensures
            done == self.finished(),
    ;

    /// Judges one line. On an error the filter stays in the state it was in.
    fn run(&mut self, line: &String) -> (r: Result<(&State, bool), FilterError>)
        requires
            old(self).can_run(line@),
        ensures
            match r {
                Ok((state, print)) => {
                    &&& old(self).verdict(line@) == Ok::<(Phase, bool), FilterError>(
                        (state@, print),
                    )
                    &&& final(self).phase() == state@
                },
                Err(e) => {
                    &&& old(self).verdict(line@) == Err::<(Phase, bool), FilterError>(e)
                    &&& final(self).phase() == old(self).phase()
                },
            },
    ;
}

} // verus!
