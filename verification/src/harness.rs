//! The run of the harness, as a state machine.
//!
//! The harness owns the ordered list of probes. It hands out the next probe
//! to launch; the caller races that probe's check against its deadline and
//! reports which side settled first; the harness records the outcome. When
//! every probe is settled the harness gives the response of the run.
use vstd::prelude::*;
use crate::outcome::{
    announce, announcement, outcome_of, status_line, Outcome, OutcomeView, Settled, SettledView,
};
use crate::probe::{declared_probes, ProbeKind, DEADLINE_MS};
use crate::script::{IoFailureView, Script};
use crate::report::{any_failed, report_body, report_lines, report_status, Entry, Report};

verus! {

/// The order to launch one probe.
#[derive(Debug)]
pub struct Launch {
    /// The probe whose script is to run.
    pub probe: ProbeKind,
    /// The line to log before the probe runs.
    pub announcement: String,
    /// Milliseconds after which the deadline settles the race.
    pub deadline_ms: u32,
}

/// The response of a finished run.
#[derive(Debug)]
pub struct RunResponse {
    /// The status lines of all probes, joined by line feeds.
    pub body: String,
    /// Whether every probe passed.
    pub ok: bool,
}

impl RunResponse {
    /// The response status: 200 if every probe passed, else 500.
    pub fn status_code(&self) -> (code: u16)
        ensures
            code == if self.ok { 200u16 } else { 500u16 },
    {
        if self.ok {
            200
        } else {
            500
        }
    }
}

/// The entries of a run in which the first probes of `probes` came to
/// `outcomes`, one outcome per probe in the order of the list.
pub open spec fn entries_of(probes: Seq<ProbeKind>, outcomes: Seq<OutcomeView>) -> Seq<Entry> {
    Seq::new(
        outcomes.len(),
        |i: int| Entry { name: probes[i].spec_name(), outcome: outcomes[i] },
    )
}

/// The outcomes of races that settled as `settled` says.
pub open spec fn outcomes_of(settled: Seq<SettledView>) -> Seq<OutcomeView> {
    Seq::new(settled.len(), |i: int| outcome_of(settled[i]))
}

/// A run of the harness: the probes in their declared order, and the
/// outcomes of those that are settled.
pub struct Harness {
    probes: Vec<ProbeKind>,
    report: Report,
}

impl Harness {
    #[verifier::type_invariant]
    spec fn inv(self) -> bool {
        &&& self.report@.len() <= self.probes@.len()
        &&& forall|i: int|
            0 <= i < self.report@.len() ==> (#[trigger] self.report@[i]).name
                == self.probes@[i].spec_name()
    }

    /// The probes of the run, in the order in which they are taken.
    pub closed spec fn probes(&self) -> Seq<ProbeKind> {
        self.probes@
    }

    /// The outcomes of the probes settled so far, in the order of the
    /// probes.
    pub closed spec fn outcomes(&self) -> Seq<OutcomeView> {
        Seq::new(self.report@.len(), |i: int| self.report@[i].outcome)
    }

    /// Whether every probe is settled.
    pub open spec fn spec_is_done(&self) -> bool {
        self.outcomes().len() == self.probes().len()
    }

    /// A run over `probes`, none of them settled yet.
    pub fn new(probes: Vec<ProbeKind>) -> (harness: Harness)
        ensures
            harness.probes() == probes@,
            harness.outcomes() == Seq::<OutcomeView>::empty(),
    {
        let report = Report::new();
        let harness = Harness { probes, report };
        assert(harness.outcomes() =~= Seq::<OutcomeView>::empty());
        harness
    }

    /// A run over the five declared probes.
    pub fn standard() -> (harness: Harness)
        ensures
            harness.probes() == declared_probes(),
            harness.outcomes() == Seq::<OutcomeView>::empty(),
    {
        Harness::new(ProbeKind::declared())
    }

    /// Whether every probe is settled.
    pub fn is_done(&self) -> (done: bool)
        ensures
            done == self.spec_is_done(),
            self.outcomes().len() <= self.probes().len(),
    {
        proof {
            use_type_invariant(self);
        }
        self.report.len() >= self.probes.len()
    }

    /// The order to launch the first probe that is not settled, or `None`
    /// when every probe is.
    pub fn next_launch(&self) -> (launch: Option<Launch>)
        ensures
            launch is None <==> self.spec_is_done(),
            launch matches Some(l) ==> {
                &&& self.outcomes().len() < self.probes().len()
                &&& l.probe == self.probes()[self.outcomes().len() as int]
                &&& l.announcement@ == announcement(l.probe.spec_name())
                &&& l.deadline_ms == DEADLINE_MS
            },
    {
        proof {
            use_type_invariant(self);
        }
        let settled = self.report.len();
        if settled < self.probes.len() {
            let probe = self.probes[settled];
            Some(Launch { probe, announcement: announce(probe.name()), deadline_ms: DEADLINE_MS })
        } else {
            None
        }
    }

    /// Records how the race of the first unsettled probe ended, and returns
    /// that probe's status line. When every probe is settled already the
    /// run stays as it is and the result is `None`.
    pub fn settle(&mut self, settled: Settled) -> (line: Option<String>)
        ensures
            final(self).probes() == old(self).probes(),
            old(self).spec_is_done() ==> line is None && final(self).outcomes() == old(
                self,
            ).outcomes(),
            !old(self).spec_is_done() ==> {
                &&& final(self).outcomes() == old(self).outcomes().push(outcome_of(settled@))
                &&& line matches Some(text)
                &&& text@ == status_line(
                    old(self).probes()[old(self).outcomes().len() as int].spec_name(),
                    outcome_of(settled@),
                )
            },
    {
        proof {
            use_type_invariant(&*self);
        }
        let count = self.report.len();
        if count >= self.probes.len() {
            return None;
        }
        let probe = self.probes[count];
        let outcome = Outcome::from_race(settled);
        let mut report = Report::new();
        std::mem::swap(&mut self.report, &mut report);
        let line = report.record(probe.name(), &outcome);
        self.report = report;
        assert(self.outcomes() =~= old(self).outcomes().push(outcome@));
        Some(line)
    }

    /// The report of the probes settled so far.
    pub fn report(&self) -> (report: &Report)
        ensures
            report@ == entries_of(self.probes(), self.outcomes()),
    {
        proof {
            use_type_invariant(self);
            assert(self.report@ =~= entries_of(self.probes(), self.outcomes()));
        }
        &self.report
    }

    /// The response of the run, once every probe is settled; `None` before.
    pub fn finish(&self) -> (response: Option<RunResponse>)
        ensures
            response is Some <==> self.spec_is_done(),
            response matches Some(r) ==> {
                &&& r.body@ == report_body(entries_of(self.probes(), self.outcomes()))
                &&& r.ok == !any_failed(entries_of(self.probes(), self.outcomes()))
            },
    {
        if self.is_done() {
            let report = self.report();
            Some(RunResponse { body: report.body(), ok: report.ok() })
        } else {
            None
        }
    }
}

/// A run in which every probe is settled reports each probe exactly once:
/// it has as many status lines as probes, and its line at each position is
/// the status line of the probe declared at that position.
pub proof fn lemma_one_line_per_probe(probes: Seq<ProbeKind>, outcomes: Seq<OutcomeView>)
    requires
        outcomes.len() == probes.len(),
    ensures
        report_lines(entries_of(probes, outcomes)).len() == probes.len(),
        forall|i: int|
            0 <= i < probes.len() ==> #[trigger] report_lines(entries_of(probes, outcomes))[i]
                == status_line(probes[i].spec_name(), outcomes[i]),
{
}

/// A run fails exactly when at least one of its probes failed or timed
/// out.
pub proof fn lemma_run_fails_iff_some_probe_fails(
    probes: Seq<ProbeKind>,
    outcomes: Seq<OutcomeView>,
)
    ensures
        any_failed(entries_of(probes, outcomes)) <==> exists|i: int|
            0 <= i < outcomes.len() && (#[trigger] outcomes[i]).is_failure(),
{
    let entries = entries_of(probes, outcomes);
    if any_failed(entries) {
        let i = choose|i: int| 0 <= i < entries.len() && (#[trigger] entries[i]).outcome.is_failure();
        assert(outcomes[i].is_failure());
    }
    if exists|i: int| 0 <= i < outcomes.len() && (#[trigger] outcomes[i]).is_failure() {
        let i = choose|i: int| 0 <= i < outcomes.len() && (#[trigger] outcomes[i]).is_failure();
        assert(entries[i].outcome.is_failure());
    }
}

/// A run in which every probe passes is ok: its status is 200 and each of
/// its lines is "[SUCCESS] " and the probe's name.
pub proof fn lemma_all_pass(probes: Seq<ProbeKind>, outcomes: Seq<OutcomeView>)
    requires
        outcomes.len() == probes.len(),
        forall|i: int| 0 <= i < outcomes.len() ==> #[trigger] outcomes[i] is Success,
    ensures
        report_status(entries_of(probes, outcomes)) == 200,
        forall|i: int|
            0 <= i < probes.len() ==> #[trigger] report_lines(entries_of(probes, outcomes))[i]
                == "[SUCCESS] "@ + probes[i].spec_name(),
{
    lemma_run_fails_iff_some_probe_fails(probes, outcomes);
}

/// A run in which every check ended at a refused connect: each line is
/// "[FAILED] ", the probe's name and the reason of the failed connect, and
/// a run of at least one probe has status 500.
pub proof fn lemma_all_refused(
    probes: Seq<ProbeKind>,
    refusals: Seq<IoFailureView>,
    outcomes: Seq<OutcomeView>,
)
    requires
        refusals.len() == probes.len(),
        outcomes.len() == probes.len(),
        forall|i: int|
            0 <= i < probes.len() ==> #[trigger] outcomes[i] == outcome_of(
                SettledView::Check(Script::refused(refusals[i])),
            ),
    ensures
        forall|i: int|
            0 <= i < probes.len() ==> #[trigger] report_lines(entries_of(probes, outcomes))[i]
                == "[FAILED] "@ + probes[i].spec_name() + ": "@ + ("connect failed: "@
                + refusals[i].debug),
        probes.len() > 0 ==> report_status(entries_of(probes, outcomes)) == 500,
{
    lemma_run_fails_iff_some_probe_fails(probes, outcomes);
    if probes.len() > 0 {
        assert(outcomes[0].is_failure());
    }
}

/// Two runs over the same probes whose races settle the same way, probe by
/// probe, give the same report: the same lines and the same status.
pub proof fn lemma_rerun_same_report(
    probes: Seq<ProbeKind>,
    first: Seq<SettledView>,
    second: Seq<SettledView>,
)
    requires
        first.len() == second.len(),
        forall|i: int| 0 <= i < first.len() ==> first[i] == second[i],
    ensures
        entries_of(probes, outcomes_of(first)) == entries_of(probes, outcomes_of(second)),
{
    assert(first =~= second);
}

/// Two runs over the same probes in which each probe passes in the one
/// exactly when it passes in the other have the same response status,
/// whatever the reasons of the failures are and whichever of them are
/// timeouts.
pub proof fn lemma_rerun_same_status(
    probes: Seq<ProbeKind>,
    first: Seq<OutcomeView>,
    second: Seq<OutcomeView>,
)
    requires
        first.len() == second.len(),
        forall|i: int|
            0 <= i < first.len() ==> (#[trigger] first[i]).is_failure() == second[i].is_failure(),
    ensures
        any_failed(entries_of(probes, first)) == any_failed(entries_of(probes, second)),
        report_status(entries_of(probes, first)) == report_status(entries_of(probes, second)),
{
    lemma_run_fails_iff_some_probe_fails(probes, first);
    lemma_run_fails_iff_some_probe_fails(probes, second);
    if exists|i: int| 0 <= i < first.len() && (#[trigger] first[i]).is_failure() {
        let i = choose|i: int| 0 <= i < first.len() && (#[trigger] first[i]).is_failure();
        assert(second[i].is_failure());
    }
    if exists|i: int| 0 <= i < second.len() && (#[trigger] second[i]).is_failure() {
        let i = choose|i: int| 0 <= i < second.len() && (#[trigger] second[i]).is_failure();
        assert(first[i].is_failure() == second[i].is_failure());
    }
}

} // verus!
