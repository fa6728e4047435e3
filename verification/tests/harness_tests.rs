use socket_harness::harness::Harness;
use socket_harness::outcome::Settled;
use socket_harness::probe::ProbeKind;
use socket_harness::script::{Action, Cause, IoEvent, IoFailure, Script, Step};

/// How a peer answers the operations of a probe.
#[derive(Clone, Copy)]
enum Peer {
    /// Serves the request and closes its side when the response is done.
    Reachable,
    /// Refuses every connection.
    Unreachable,
}

fn io_failure(message: &str) -> IoEvent {
    IoEvent::Failed(IoFailure {
        debug: format!("Custom {{ kind: Other, error: {:?} }}", message),
        cause: Some(Cause { display: message.to_string(), debug: format!("{:?}", message) }),
    })
}

fn answer(peer: Peer, action: &Action, writes_so_far: usize) -> IoEvent {
    match (peer, action) {
        (Peer::Unreachable, Action::Connect(_)) => IoEvent::Failed(IoFailure {
            debug: "JsError(\"connection refused\")".to_string(),
            cause: None,
        }),
        (Peer::Unreachable, _) => io_failure("not connected"),
        (Peer::Reachable, Action::Connect(_)) => IoEvent::Completed,
        (Peer::Reachable, Action::ReadToEnd) => IoEvent::Completed,
        (Peer::Reachable, Action::Write(_)) if writes_so_far == 0 => IoEvent::Completed,
        (Peer::Reachable, Action::Write(_)) => panic!("answered by the caller"),
    }
}

/// Runs the check of `kind` against `peer`, as the caller of the library
/// does: perform the action, hand back the event.
fn check(kind: ProbeKind, peer: Peer) -> Result<(), String> {
    let (mut script, mut action) = Script::begin(kind);
    let mut allow_half_open = false;
    let mut writes = 0;
    loop {
        let event = match &action {
            Action::Connect(plan) => {
                allow_half_open = plan.allow_half_open;
                answer(peer, &action, writes)
            }
            Action::Write(_) if writes > 0 && matches!(peer, Peer::Reachable) => {
                // The peer has closed its side. With half-open disallowed the
                // local stream closed with it; with half-open allowed the
                // write reaches a peer that is gone.
                if allow_half_open {
                    io_failure("Error: Network connection lost.")
                } else {
                    io_failure("TypeError: This WritableStream has been closed.")
                }
            }
            _ => answer(peer, &action, writes),
        };
        if matches!(action, Action::Write(_)) {
            writes += 1;
        }
        match script.step(&event) {
            Step::Continue(next, next_action) => {
                script = next;
                action = next_action;
            }
            Step::Finished(verdict) => return verdict,
        }
    }
}

fn run_against(peer: Peer) -> (Vec<String>, Vec<String>, Harness) {
    let mut harness = Harness::standard();
    let mut announcements = Vec::new();
    let mut lines = Vec::new();
    while let Some(launch) = harness.next_launch() {
        assert_eq!(launch.deadline_ms, 5_000);
        announcements.push(launch.announcement);
        let line = harness.settle(Settled::Check(check(launch.probe, peer)));
        lines.push(line.expect("a probe was pending"));
    }
    (announcements, lines, harness)
}

#[test]
fn reachable_peer_passes_all_five_probes() {
    let (announcements, lines, harness) = run_against(Peer::Reachable);
    assert_eq!(
        announcements,
        vec![
            "Running Test NO_SSL",
            "Running Test SSL",
            "Running Test StartTls",
            "Running Test ALLOW_HALF_OPEN",
            "Running Test DISALLOW_HALF_OPEN",
        ]
    );
    let response = harness.finish().expect("every probe is settled");
    assert!(response.ok);
    assert_eq!(response.status_code(), 200);
    assert_eq!(
        response.body,
        "[SUCCESS] NO_SSL\n[SUCCESS] SSL\n[SUCCESS] StartTls\n[SUCCESS] ALLOW_HALF_OPEN\n[SUCCESS] DISALLOW_HALF_OPEN"
    );
    let body_lines: Vec<&str> = response.body.split('\n').collect();
    assert_eq!(body_lines.len(), 5);
    assert!(body_lines.iter().all(|line| line.starts_with("[SUCCESS]")));
    assert_eq!(body_lines, lines);
}

#[test]
fn unreachable_peer_fails_all_five_probes_at_connect() {
    let (_, lines, harness) = run_against(Peer::Unreachable);
    let response = harness.finish().expect("every probe is settled");
    assert!(!response.ok);
    assert_eq!(response.status_code(), 500);
    let body_lines: Vec<&str> = response.body.split('\n').collect();
    assert_eq!(body_lines.len(), 5);
    let names = ["NO_SSL", "SSL", "StartTls", "ALLOW_HALF_OPEN", "DISALLOW_HALF_OPEN"];
    for (line, name) in body_lines.iter().zip(names) {
        assert_eq!(
            *line,
            format!("[FAILED] {}: connect failed: JsError(\"connection refused\")", name)
        );
    }
    assert_eq!(body_lines, lines);
}

#[test]
fn one_line_per_probe_in_declaration_order() {
    let mut harness = Harness::standard();
    let settlements = vec![
        Settled::Check(Ok(())),
        Settled::Deadline,
        Settled::Check(Err("socket.write failed: x".to_string())),
        Settled::Check(Ok(())),
        Settled::Deadline,
    ];
    let mut lines = Vec::new();
    for settled in settlements {
        lines.push(harness.settle(settled).expect("a probe was pending"));
    }
    assert!(harness.is_done());
    assert_eq!(
        lines,
        vec![
            "[SUCCESS] NO_SSL",
            "[FAILED] SSL: Timed out!",
            "[FAILED] StartTls: socket.write failed: x",
            "[SUCCESS] ALLOW_HALF_OPEN",
            "[FAILED] DISALLOW_HALF_OPEN: Timed out!",
        ]
    );
    assert_eq!(harness.report().lines(), &lines);
    assert_eq!(harness.report().len(), 5);
    let response = harness.finish().expect("every probe is settled");
    assert_eq!(response.body, lines.join("\n"));
    assert!(!response.ok);
}

#[test]
fn later_probes_run_after_a_failure() {
    let mut harness = Harness::standard();
    harness.settle(Settled::Check(Err("connect failed: x".to_string())));
    let launch = harness.next_launch().expect("the second probe is pending");
    assert_eq!(launch.probe, ProbeKind::Ssl);
    assert_eq!(launch.announcement, "Running Test SSL");
    assert!(!harness.is_done());
}

#[test]
fn one_timeout_among_passes_fails_the_run() {
    let mut harness = Harness::standard();
    for position in 0..5 {
        let settled = if position == 3 { Settled::Deadline } else { Settled::Check(Ok(())) };
        harness.settle(settled);
    }
    let response = harness.finish().expect("every probe is settled");
    assert!(!response.ok);
    assert_eq!(response.status_code(), 500);
    assert_eq!(
        response.body,
        "[SUCCESS] NO_SSL\n[SUCCESS] SSL\n[SUCCESS] StartTls\n[FAILED] ALLOW_HALF_OPEN: Timed out!\n[SUCCESS] DISALLOW_HALF_OPEN"
    );
}

#[test]
fn two_runs_against_the_same_peer_agree() {
    for peer in [Peer::Reachable, Peer::Unreachable] {
        let (_, first_lines, first) = run_against(peer);
        let (_, second_lines, second) = run_against(peer);
        assert_eq!(first_lines, second_lines);
        let first = first.finish().expect("every probe is settled");
        let second = second.finish().expect("every probe is settled");
        assert_eq!(first.body, second.body);
        assert_eq!(first.ok, second.ok);
    }
}

#[test]
fn response_is_withheld_until_every_probe_is_settled() {
    let mut harness = Harness::standard();
    assert!(harness.finish().is_none());
    for _ in 0..4 {
        harness.settle(Settled::Check(Ok(())));
        assert!(harness.finish().is_none());
        assert!(!harness.is_done());
    }
    harness.settle(Settled::Check(Ok(())));
    assert!(harness.is_done());
    assert!(harness.finish().is_some());
}

#[test]
fn settling_a_finished_run_changes_nothing() {
    let mut harness = Harness::new(vec![ProbeKind::Ssl]);
    assert_eq!(harness.settle(Settled::Check(Ok(()))), Some("[SUCCESS] SSL".to_string()));
    assert!(harness.next_launch().is_none());
    assert_eq!(harness.settle(Settled::Deadline), None);
    assert_eq!(harness.report().len(), 1);
    let response = harness.finish().expect("every probe is settled");
    assert!(response.ok);
    assert_eq!(response.body, "[SUCCESS] SSL");
}

#[test]
fn run_without_probes_is_finished_and_ok() {
    let mut harness = Harness::new(Vec::new());
    assert!(harness.is_done());
    assert!(harness.next_launch().is_none());
    assert_eq!(harness.settle(Settled::Deadline), None);
    let response = harness.finish().expect("nothing is pending");
    assert!(response.ok);
    assert_eq!(response.status_code(), 200);
    assert_eq!(response.body, "");
}

#[test]
fn probes_are_taken_in_the_order_given() {
    let order = vec![ProbeKind::DisallowHalfOpen, ProbeKind::NoSsl, ProbeKind::DisallowHalfOpen];
    let mut harness = Harness::new(order.clone());
    let mut seen = Vec::new();
    while let Some(launch) = harness.next_launch() {
        seen.push(launch.probe);
        harness.settle(Settled::Check(Ok(())));
    }
    assert_eq!(seen, order);
    assert_eq!(
        harness.finish().expect("every probe is settled").body,
        "[SUCCESS] DISALLOW_HALF_OPEN\n[SUCCESS] NO_SSL\n[SUCCESS] DISALLOW_HALF_OPEN"
    );
}
