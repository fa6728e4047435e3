//! What one probe came to, and the line that reports it.
use vstd::prelude::*;
use vstd::string::*;

verus! {

/// The result of one probe in one run.
#[derive(Debug)]
pub enum Outcome {
    /// The check finished and passed.
    Success,
    /// The check finished and failed, with the reason.
    Failure(String),
    /// The deadline expired before the check finished.
    TimedOut,
}

/// The mathematical value of an [`Outcome`].
pub ghost enum OutcomeView {
    Success,
    Failure(Seq<char>),
    TimedOut,
}

impl OutcomeView {
    /// Whether the outcome counts against the run.
    pub open spec fn is_failure(self) -> bool {
        !(self is Success)
    }
}

impl View for Outcome {
    type V = OutcomeView;

    open spec fn view(&self) -> OutcomeView {
        match self {
            Outcome::Success => OutcomeView::Success,
            Outcome::Failure(reason) => OutcomeView::Failure(reason@),
            Outcome::TimedOut => OutcomeView::TimedOut,
        }
    }
}

/// The mathematical value of a check's verdict.
pub open spec fn verdict_view(verdict: Result<(), String>) -> Result<(), Seq<char>> {
    match verdict {
        Ok(_) => Ok(()),
        Err(reason) => Err(reason@),
    }
}

/// Which side of the race between a probe's check and its deadline
/// settled first.
#[derive(Debug)]
pub enum Settled {
    /// The check, with its verdict.
    Check(Result<(), String>),
    /// The deadline.
    Deadline,
}

/// The mathematical value of a [`Settled`].
pub ghost enum SettledView {
    Check(Result<(), Seq<char>>),
    Deadline,
}

impl View for Settled {
    type V = SettledView;

    open spec fn view(&self) -> SettledView {
        match self {
            Settled::Check(verdict) => SettledView::Check(verdict_view(*verdict)),
            Settled::Deadline => SettledView::Deadline,
        }
    }
}

/// The outcome of a race: the check's verdict if the check settled first,
/// a timeout if the deadline did.
pub open spec fn outcome_of(settled: SettledView) -> OutcomeView {
    match settled {
        SettledView::Check(Ok(_)) => OutcomeView::Success,
        SettledView::Check(Err(reason)) => OutcomeView::Failure(reason),
        SettledView::Deadline => OutcomeView::TimedOut,
    }
}

/// The line that announces the probe called `name` before it runs.
pub open spec fn announcement(name: Seq<char>) -> Seq<char> {
    "Running Test "@ + name
}

/// The status line of a probe called `name` that came to `outcome`.
pub open spec fn status_line(name: Seq<char>, outcome: OutcomeView) -> Seq<char> {
    match outcome {
        OutcomeView::Success => "[SUCCESS] "@ + name,
        OutcomeView::Failure(reason) => "[FAILED] "@ + name + ": "@ + reason,
        OutcomeView::TimedOut => "[FAILED] "@ + name + ": Timed out!"@,
    }
}

/// Whether `text` starts with `prefix`.
pub open spec fn begins_with(text: Seq<char>, prefix: Seq<char>) -> bool {
    prefix.len() <= text.len() && text.subrange(0, prefix.len() as int) == prefix
}

/// A status line tells a pass from a failure by how it starts: with
/// "[SUCCESS] " for a success and with "[FAILED] " for a failure or a
/// timeout, whatever the probe's name and the reason are.
pub proof fn lemma_status_line_tag(name: Seq<char>, outcome: OutcomeView)
    ensures
        begins_with(status_line(name, outcome), "[SUCCESS] "@) <==> outcome is Success,
        begins_with(status_line(name, outcome), "[FAILED] "@) <==> outcome.is_failure(),
{
    reveal_strlit("[SUCCESS] ");
    reveal_strlit("[FAILED] ");
    let line = status_line(name, outcome);
    let pass = "[SUCCESS] "@;
    let fail = "[FAILED] "@;
    if outcome is Success {
        assert(line.subrange(0, pass.len() as int) =~= pass);
        assert(line[1] == 'S');
        if begins_with(line, fail) {
            assert(line.subrange(0, fail.len() as int)[1] == 'F');
        }
    } else {
        assert(line.subrange(0, fail.len() as int) =~= fail);
        assert(line[1] == 'F');
        if begins_with(line, pass) {
            assert(line.subrange(0, pass.len() as int)[1] == 'S');
        }
    }
}

impl Outcome {
    /// Turns the side of the race that settled first into the outcome.
    ///
    /// The outcome is a timeout exactly when the deadline settled first;
    /// when the check did, the outcome carries the check's verdict.
    pub fn from_race(settled: Settled) -> (outcome: Outcome)
        ensures
            outcome@ == outcome_of(settled@),
            outcome@ is TimedOut <==> settled@ is Deadline,
            outcome@ is Success <==> settled@ == SettledView::Check(Ok(())),
    {
        match settled {
            Settled::Check(Ok(_)) => Outcome::Success,
            Settled::Check(Err(reason)) => Outcome::Failure(reason),
            Settled::Deadline => Outcome::TimedOut,
        }
    }

    /// Whether the outcome counts against the run: every outcome but
    /// `Success` does.
    pub fn is_failure(&self) -> (failed: bool)
        ensures
            failed == self@.is_failure(),
    {
        match self {
            Outcome::Success => false,
            _ => true,
        }
    }

    /// Formats the status line of the probe called `name`.
    pub fn status_line(&self, name: &str) -> (line: String)
        ensures
            line@ == status_line(name@, self@),
    {
        match self {
            Outcome::Success => {
                let mut line = String::from_str("[SUCCESS] ");
                line.append(name);
                line
            },
            Outcome::Failure(reason) => {
                let mut line = String::from_str("[FAILED] ");
                line.append(name);
                line.append(": ");
                line.append(reason.as_str());
                line
            },
            Outcome::TimedOut => {
                let mut line = String::from_str("[FAILED] ");
                line.append(name);
                line.append(": Timed out!");
                line
            },
        }
    }
}

/// Formats the line that announces the probe called `name` before it runs.
pub fn announce(name: &str) -> (line: String)
    ensures
        line@ == announcement(name@),
{
    let mut line = String::from_str("Running Test ");
    line.append(name);
    line
}

} // verus!
