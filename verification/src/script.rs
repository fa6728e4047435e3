//! The script of a probe, as a state machine.
//!
//! A probe connects, writes its request and reads the response to the end;
//! the two half-open probes then write once more. The caller performs each
//! socket operation and reports how it ended; the script answers with the
//! next operation, or with the probe's verdict.
use vstd::prelude::*;
use vstd::string::*;
use crate::outcome::verdict_view;
use crate::probe::{request, late_write_payload, late_write_bytes, request_bytes, ConnectPlan, ConnectPlanView, HalfOpenPolicy, ProbeKind};

verus! {

/// The error carried inside an I/O error.
#[derive(Debug)]
pub struct Cause {
    /// The error in its display form.
    pub display: String,
    /// The error in its debug form.
    pub debug: String,
}

/// The mathematical value of a [`Cause`].
pub ghost struct CauseView {
    pub display: Seq<char>,
    pub debug: Seq<char>,
}

impl View for Cause {
    type V = CauseView;

    open spec fn view(&self) -> CauseView {
        CauseView { display: self.display@, debug: self.debug@ }
    }
}

/// What a script reads of a failed socket operation.
#[derive(Debug)]
pub struct IoFailure {
    /// The error in its debug form.
    pub debug: String,
    /// The error carried inside it, if it carries one.
    pub cause: Option<Cause>,
}

/// The mathematical value of an [`IoFailure`].
pub ghost struct IoFailureView {
    pub debug: Seq<char>,
    pub cause: Option<CauseView>,
}

impl View for IoFailure {
    type V = IoFailureView;

    open spec fn view(&self) -> IoFailureView {
        IoFailureView {
            debug: self.debug@,
            cause: match self.cause {
                Some(cause) => Some(cause@),
                None => None,
            },
        }
    }
}

/// How a socket operation ended.
#[derive(Debug)]
pub enum IoEvent {
    Completed,
    Failed(IoFailure),
}

/// The mathematical value of an [`IoEvent`].
pub ghost enum IoEventView {
    Completed,
    Failed(IoFailureView),
}

impl View for IoEvent {
    type V = IoEventView;

    open spec fn view(&self) -> IoEventView {
        match self {
            IoEvent::Completed => IoEventView::Completed,
            IoEvent::Failed(failure) => IoEventView::Failed(failure@),
        }
    }
}

/// A socket operation that a script asks its caller to perform.
#[derive(Debug)]
pub enum Action {
    /// Open the connection, and upgrade it if the plan says so.
    Connect(ConnectPlan),
    /// Write these bytes.
    Write(Vec<u8>),
    /// Read until the peer's end of stream.
    ReadToEnd,
}

/// The mathematical value of an [`Action`].
pub ghost enum ActionView {
    Connect(ConnectPlanView),
    Write(Seq<u8>),
    ReadToEnd,
}

impl View for Action {
    type V = ActionView;

    open spec fn view(&self) -> ActionView {
        match self {
            Action::Connect(plan) => ActionView::Connect(plan@),
            Action::Write(bytes) => ActionView::Write(bytes@),
            Action::ReadToEnd => ActionView::ReadToEnd,
        }
    }
}

/// The operation a script is waiting for.
#[derive(Clone, Copy, Debug, PartialEq, Eq, Structural)]
pub enum Stage {
    Connecting,
    SendingRequest,
    ReadingResponse,
    /// The write after the peer's end of stream, judged under the policy.
    WritingAfterEof(HalfOpenPolicy),
}

/// A probe's script while an operation is in flight.
#[derive(Clone, Copy, Debug, PartialEq, Eq, Structural)]
pub struct Script {
    pub kind: ProbeKind,
    pub stage: Stage,
}

/// What a script answers to an event.
#[derive(Debug)]
pub enum Step {
    /// The script goes on: perform the action and report how it ended.
    Continue(Script, Action),
    /// The script is over, with the probe's verdict.
    Finished(Result<(), String>),
}

/// The mathematical value of a [`Step`].
pub ghost enum StepView {
    Continue(Script, ActionView),
    Finished(Result<(), Seq<char>>),
}

impl View for Step {
    type V = StepView;

    open spec fn view(&self) -> StepView {
        match self {
            Step::Continue(script, action) => StepView::Continue(*script, action@),
            Step::Finished(verdict) => StepView::Finished(verdict_view(*verdict)),
        }
    }
}

/// The display form of the one error with which a late write passes.
pub open spec fn expected_phrase(policy: HalfOpenPolicy) -> Seq<char> {
    match policy {
        HalfOpenPolicy::Allowed => "Error: Network connection lost."@,
        HalfOpenPolicy::Disallowed => "TypeError: This WritableStream has been closed."@,
    }
}

/// The verdict on a write made after the peer's end of stream.
///
/// A write that goes through passes where half-open is allowed and fails
/// where it is not. A write that fails passes only if the error inside
/// the I/O error displays as exactly the phrase expected under the policy.
pub open spec fn late_write_verdict(policy: HalfOpenPolicy, event: IoEventView) -> Result<
    (),
    Seq<char>,
> {
    match event {
        IoEventView::Completed => match policy {
            HalfOpenPolicy::Allowed => Ok(()),
            HalfOpenPolicy::Disallowed => Err("Write after EOF succeeded."@),
        },
        IoEventView::Failed(failure) => match failure.cause {
            None => Err("std::io::Error no inner"@),
            Some(cause) => if cause.display == expected_phrase(policy) {
                Ok(())
            } else {
                Err("Unexpected error: "@ + cause.debug)
            },
        },
    }
}

impl Script {
    /// The verdict of a check whose connect failed with `failure`.
    pub open spec fn refused(failure: IoFailureView) -> Result<(), Seq<char>> {
        Err("connect failed: "@ + failure.debug)
    }

    /// The answer of the script to `event`, the end of the operation it
    /// was waiting for.
    ///
    /// A failure of the connect, of the request's write or of the read ends
    /// the script with a reason that names the operation and carries the
    /// error's debug form. The late write is judged by
    /// [`late_write_verdict`].
    pub open spec fn spec_step(self, event: IoEventView) -> StepView {
        match self.stage {
            Stage::Connecting => match event {
                IoEventView::Failed(failure) => StepView::Finished(
                    Err("connect failed: "@ + failure.debug),
                ),
                IoEventView::Completed => StepView::Continue(
                    Script { kind: self.kind, stage: Stage::SendingRequest },
                    ActionView::Write(request_bytes()),
                ),
            },
            Stage::SendingRequest => match event {
                IoEventView::Failed(failure) => StepView::Finished(
                    Err("socket.write failed: "@ + failure.debug),
                ),
                IoEventView::Completed => StepView::Continue(
                    Script { kind: self.kind, stage: Stage::ReadingResponse },
                    ActionView::ReadToEnd,
                ),
            },
            Stage::ReadingResponse => match event {
                IoEventView::Failed(failure) => StepView::Finished(
                    Err("socket.read_to_end failed: "@ + failure.debug),
                ),
                IoEventView::Completed => match self.kind.spec_late_write() {
                    Some(policy) => StepView::Continue(
                        Script { kind: self.kind, stage: Stage::WritingAfterEof(policy) },
                        ActionView::Write(late_write_bytes()),
                    ),
                    None => StepView::Finished(Ok(())),
                },
            },
            Stage::WritingAfterEof(policy) => StepView::Finished(late_write_verdict(policy, event)),
        }
    }
}

/// Judges a write made after the peer's end of stream.
pub fn judge_late_write(policy: HalfOpenPolicy, event: &IoEvent) -> (verdict: Result<(), String>)
    ensures
        verdict_view(verdict) == late_write_verdict(policy, event@),
{
    match event {
        IoEvent::Completed => match policy {
            HalfOpenPolicy::Allowed => Ok(()),
            HalfOpenPolicy::Disallowed => Err(String::from_str("Write after EOF succeeded.")),
        },
        IoEvent::Failed(failure) => match &failure.cause {
            None => Err(String::from_str("std::io::Error no inner")),
            Some(cause) => {
                let expected = match policy {
                    HalfOpenPolicy::Allowed => String::from_str("Error: Network connection lost."),
                    HalfOpenPolicy::Disallowed => String::from_str(
                        "TypeError: This WritableStream has been closed.",
                    ),
                };
                if cause.display == expected {
                    Ok(())
                } else {
                    let mut reason = String::from_str("Unexpected error: ");
                    reason.append(cause.debug.as_str());
                    Err(reason)
                }
            },
        },
    }
}

impl Script {
    /// Starts the script of `kind`: the first operation is its connect.
    pub fn begin(kind: ProbeKind) -> (start: (Script, Action))
        ensures
            start.0 == (Script { kind, stage: Stage::Connecting }),
            start.1@ == ActionView::Connect(kind.spec_connect_plan()),
    {
        (Script { kind, stage: Stage::Connecting }, Action::Connect(kind.connect_plan()))
    }

    /// Takes the end of the operation the script was waiting for, and
    /// answers with the next operation or with the probe's verdict.
    pub fn step(self, event: &IoEvent) -> (step: Step)
        ensures
            step@ == self.spec_step(event@),
    {
        match self.stage {
            Stage::Connecting => match event {
                IoEvent::Failed(failure) => Step::Finished(
                    Err(reason_of("connect failed: ", failure)),
                ),
                IoEvent::Completed => Step::Continue(
                    Script { kind: self.kind, stage: Stage::SendingRequest },
                    Action::Write(request()),
                ),
            },
            Stage::SendingRequest => match event {
                IoEvent::Failed(failure) => Step::Finished(
                    Err(reason_of("socket.write failed: ", failure)),
                ),
                IoEvent::Completed => Step::Continue(
                    Script { kind: self.kind, stage: Stage::ReadingResponse },
                    Action::ReadToEnd,
                ),
            },
            Stage::ReadingResponse => match event {
                IoEvent::Failed(failure) => Step::Finished(
                    Err(reason_of("socket.read_to_end failed: ", failure)),
                ),
                IoEvent::Completed => match self.kind.late_write() {
                    Some(policy) => Step::Continue(
                        Script { kind: self.kind, stage: Stage::WritingAfterEof(policy) },
                        Action::Write(late_write_payload()),
                    ),
                    None => Step::Finished(Ok(())),
                },
            },
            Stage::WritingAfterEof(policy) => Step::Finished(judge_late_write(policy, event)),
        }
    }
}

/// The reason of a failed operation: the text that names the operation,
/// then the error's debug form.
fn reason_of(prefix: &str, failure: &IoFailure) -> (reason: String)
    ensures
        reason@ == prefix@ + failure@.debug,
{
    let mut reason = String::from_str(prefix);
    reason.append(failure.debug.as_str());
    reason
}

/// The verdict of a probe whose connect, request, read and late write end
/// as given: the first of the three required operations that fails decides,
/// and if none fails, the late write does where the probe makes one.
pub open spec fn probe_verdict(
    kind: ProbeKind,
    connect: IoEventView,
    request: IoEventView,
    response: IoEventView,
    late_write: IoEventView,
) -> Result<(), Seq<char>> {
    if let IoEventView::Failed(failure) = connect {
        Err("connect failed: "@ + failure.debug)
    } else if let IoEventView::Failed(failure) = request {
        Err("socket.write failed: "@ + failure.debug)
    } else if let IoEventView::Failed(failure) = response {
        Err("socket.read_to_end failed: "@ + failure.debug)
    } else {
        match kind.spec_late_write() {
            Some(policy) => late_write_verdict(policy, late_write),
            None => Ok(()),
        }
    }
}

/// The verdict that `script` reaches when its operations end as `events`
/// says, in that order; `None` while the script still waits for more.
pub open spec fn run_script(script: Script, events: Seq<IoEventView>) -> Option<
    Result<(), Seq<char>>,
>
    decreases events.len(),
{
    if events.len() == 0 {
        None
    } else {
        match script.spec_step(events[0]) {
            StepView::Finished(verdict) => Some(verdict),
            StepView::Continue(next, _) => run_script(next, events.drop_first()),
        }
    }
}

/// Where half-open is disallowed, a late write that goes through fails the
/// probe, and one that fails passes it exactly when the error inside the
/// I/O error displays as "TypeError: This WritableStream has been closed.".
pub proof fn lemma_disallowed_late_write(event: IoEventView)
    ensures
        late_write_verdict(HalfOpenPolicy::Disallowed, IoEventView::Completed) == Err::<
            (),
            Seq<char>,
        >("Write after EOF succeeded."@),
        late_write_verdict(HalfOpenPolicy::Disallowed, event) is Ok <==> {
            &&& event matches IoEventView::Failed(failure)
            &&& failure.cause matches Some(cause)
            &&& cause.display == "TypeError: This WritableStream has been closed."@
        },
{
}

/// Where half-open is allowed, a late write passes the probe exactly when
/// it goes through, or fails with an error inside the I/O error that
/// displays as "Error: Network connection lost.".
pub proof fn lemma_allowed_late_write(event: IoEventView)
    ensures
        late_write_verdict(HalfOpenPolicy::Allowed, event) is Ok <==> {
            ||| event is Completed
            ||| {
                &&& event matches IoEventView::Failed(failure)
                &&& failure.cause matches Some(cause)
                &&& cause.display == "Error: Network connection lost."@
            }
        },
{
}

/// No error passes a late write under both policies: the phrase that is
/// expected where half-open is allowed fails the probe where it is not,
/// and the other way round.
pub proof fn lemma_policies_exclude_each_other(event: IoEventView)
    requires
        event is Failed,
    ensures
        !(late_write_verdict(HalfOpenPolicy::Allowed, event) is Ok && late_write_verdict(
            HalfOpenPolicy::Disallowed,
            event,
        ) is Ok),
{
    reveal_strlit("Error: Network connection lost.");
    reveal_strlit("TypeError: This WritableStream has been closed.");
    assert("Error: Network connection lost."@.len() == 31);
    assert("TypeError: This WritableStream has been closed."@.len() == 47);
}

/// A script that starts at the connect reaches its verdict within four
/// events, and the verdict is the one of [`probe_verdict`]: events after
/// the one that ends the script are not looked at.
pub proof fn lemma_script_reaches_verdict(kind: ProbeKind, events: Seq<IoEventView>)
    requires
        events.len() >= 4,
    ensures
        run_script(Script { kind, stage: Stage::Connecting }, events) == Some(
            probe_verdict(kind, events[0], events[1], events[2], events[3]),
        ),
{
    reveal_with_fuel(run_script, 5);
    let rest1 = events.drop_first();
    let rest2 = rest1.drop_first();
    let rest3 = rest2.drop_first();
    assert(rest1[0] == events[1]);
    assert(rest2[0] == events[2]);
    assert(rest3[0] == events[3]);
}

/// A check whose connect fails ends there, with the connect's error as its
/// reason, whatever the probe is: no request is written to a peer that
/// could not be reached.
pub proof fn lemma_refused_connect_decides(kind: ProbeKind, failure: IoFailureView)
    ensures
        (Script { kind, stage: Stage::Connecting }).spec_step(IoEventView::Failed(failure))
            == StepView::Finished(Script::refused(failure)),
        forall|events: Seq<IoEventView>|
            events.len() > 0 && events[0] == IoEventView::Failed(failure) ==> #[trigger] run_script(
                Script { kind, stage: Stage::Connecting },
                events,
            ) == Some(Script::refused(failure)),
{
}

/// A probe passes only if its connect, its request and its read all went
/// through.
pub proof fn lemma_pass_needs_required_operations(
    kind: ProbeKind,
    connect: IoEventView,
    request: IoEventView,
    response: IoEventView,
    late_write: IoEventView,
)
    requires
        probe_verdict(kind, connect, request, response, late_write) is Ok,
    ensures
        connect is Completed,
        request is Completed,
        response is Completed,
{
}

} // verus!
