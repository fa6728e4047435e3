//! The report of a run: one status line per probe, and whether any failed.
use vstd::prelude::*;
use vstd::string::*;
use crate::outcome::{status_line, Outcome, OutcomeView};

verus! {

/// A probe's name and what the probe came to.
pub ghost struct Entry {
    pub name: Seq<char>,
    pub outcome: OutcomeView,
}

/// The status lines of the entries, in their order.
pub open spec fn report_lines(entries: Seq<Entry>) -> Seq<Seq<char>> {
    Seq::new(entries.len(), |i: int| status_line(entries[i].name, entries[i].outcome))
}

/// Whether at least one entry holds a failure or a timeout.
pub open spec fn any_failed(entries: Seq<Entry>) -> bool {
    exists|i: int| 0 <= i < entries.len() && (#[trigger] entries[i]).outcome.is_failure()
}

/// The lines with one line feed between each two neighbours.
pub open spec fn joined(lines: Seq<Seq<char>>) -> Seq<char>
    decreases lines.len(),
{
    if lines.len() == 0 {
        Seq::empty()
    } else if lines.len() == 1 {
        lines[0]
    } else {
        joined(lines.drop_last()) + seq!['\n'] + lines.last()
    }
}

/// The response body of a run with these entries.
pub open spec fn report_body(entries: Seq<Entry>) -> Seq<char> {
    joined(report_lines(entries))
}

/// The response status of a run with these entries.
pub open spec fn report_status(entries: Seq<Entry>) -> u16 {
    if any_failed(entries) {
        500
    } else {
        200
    }
}

/// The texts of a vector of strings.
pub open spec fn texts(lines: Seq<String>) -> Seq<Seq<char>> {
    Seq::new(lines.len(), |i: int| lines[i]@)
}

/// Recording one more probe ORs its failure into the flag: the flag of the
/// longer report is set exactly when it was set before or the new outcome
/// is a failure or a timeout.
pub proof fn lemma_any_failed_push(entries: Seq<Entry>, entry: Entry)
    ensures
        any_failed(entries.push(entry)) == (any_failed(entries) || entry.outcome.is_failure()),
{
    let grown = entries.push(entry);
    if any_failed(entries) {
        let i = choose|i: int| 0 <= i < entries.len() && (#[trigger] entries[i]).outcome.is_failure();
        assert(grown[i] == entries[i]);
    }
    if entry.outcome.is_failure() {
        assert(grown[entries.len() as int] == entry);
    }
    if any_failed(grown) {
        let i = choose|i: int| 0 <= i < grown.len() && (#[trigger] grown[i]).outcome.is_failure();
        if i < entries.len() {
            assert(entries[i] == grown[i]);
        }
    }
}

/// The report of a run, built up one probe at a time.
///
/// Its value is the sequence of entries recorded so far; the lines and the
/// failure flag that it keeps are functions of that sequence.
pub struct Report {
    lines: Vec<String>,
    failed: bool,
    entries: Ghost<Seq<Entry>>,
}

impl View for Report {
    type V = Seq<Entry>;

    closed spec fn view(&self) -> Seq<Entry> {
        self.entries@
    }
}

impl Report {
    #[verifier::type_invariant]
    spec fn inv(self) -> bool {
        &&& texts(self.lines@) == report_lines(self.entries@)
        &&& self.failed == any_failed(self.entries@)
    }

    /// A report with no entry.
    pub fn new() -> (report: Report)
        ensures
            report@ == Seq::<Entry>::empty(),
    {
        let lines: Vec<String> = Vec::new();
        let ghost entries = Seq::<Entry>::empty();
        assert(texts(lines@) =~= report_lines(entries));
        Report { lines, failed: false, entries: Ghost(entries) }
    }

    /// Records what the probe called `name` came to, and returns its
    /// status line. Entries recorded before stay as they are.
    pub fn record(&mut self, name: &str, outcome: &Outcome) -> (line: String)
        ensures
            final(self)@ == old(self)@.push(Entry { name: name@, outcome: outcome@ }),
            line@ == status_line(name@, outcome@),
    {
        let mut taken = Report::new();
        std::mem::swap(self, &mut taken);
        proof {
            use_type_invariant(&taken);
        }
        let Report { lines, failed, entries } = taken;
        let mut lines = lines;
        let ghost before = lines@;
        let line = outcome.status_line(name);
        lines.push(line.clone());
        let failed = failed || outcome.is_failure();
        let ghost entry = Entry { name: name@, outcome: outcome@ };
        let ghost grown = entries@.push(entry);
        proof {
            lemma_any_failed_push(entries@, entry);
            assert(texts(before).len() == report_lines(entries@).len());
            assert forall|i: int| 0 <= i < entries@.len() implies texts(lines@)[i]
                == report_lines(grown)[i] by {
                assert(texts(before)[i] == report_lines(entries@)[i]);
            }
            assert(texts(lines@) =~= report_lines(grown));
        }
        *self = Report { lines, failed, entries: Ghost(grown) };
        line
    }

    /// How many probes have been recorded.
    pub fn len(&self) -> (n: usize)
        ensures
            n == self@.len(),
    {
        proof {
            use_type_invariant(self);
            assert(texts(self.lines@).len() == self.lines@.len());
        }
        self.lines.len()
    }

    /// The status lines, in the order in which they were recorded.
    pub fn lines(&self) -> (lines: &Vec<String>)
        ensures
            texts(lines@) == report_lines(self@),
    {
        proof {
            use_type_invariant(self);
        }
        &self.lines
    }

    /// Whether any recorded probe failed or timed out.
    pub fn any_failed(&self) -> (failed: bool)
        ensures
            failed == any_failed(self@),
    {
        proof {
            use_type_invariant(self);
        }
        self.failed
    }

    /// Whether every recorded probe passed.
    pub fn ok(&self) -> (ok: bool)
        ensures
            ok == !any_failed(self@),
    {
        !self.any_failed()
    }

    /// The response status: 500 if any probe failed or timed out, else 200.
    pub fn status_code(&self) -> (code: u16)
        ensures
            code == report_status(self@),
    {
        if self.any_failed() {
            500
        } else {
            200
        }
    }

    /// The response body: the status lines joined by line feeds.
    pub fn body(&self) -> (body: String)
        ensures
            body@ == report_body(self@),
    {
        proof {
            use_type_invariant(self);
        }
        join_lines(&self.lines)
    }
}

/// Joins the lines with one line feed between each two neighbours.
pub fn join_lines(lines: &Vec<String>) -> (text: String)
    ensures
        text@ == joined(texts(lines@)),
{
    let mut text = String::new();
    let mut i: usize = 0;
    while i < lines.len()
        invariant
            i <= lines.len(),
            text@ == joined(texts(lines@).take(i as int)),
        decreases lines.len() - i,
    {
        let ghost before = texts(lines@).take(i as int);
        let ghost after = texts(lines@).take(i + 1);
        proof {
            assert(after.drop_last() =~= before);
            assert(after.last() == lines@[i as int]@);
            reveal_strlit("\n");
            assert("\n"@ =~= seq!['\n']);
        }
        if i > 0 {
            text.append("\n");
        }
        text.append(lines[i].as_str());
        proof {
            if i == 0 {
                assert(text@ =~= after[0]);
            }
        }
        i += 1;
    }
    assert(texts(lines@).take(lines.len() as int) =~= texts(lines@));
    text
}

} // verus!
