use sidecar_supervisor::registry::{EndpointRegistry, PortError};
use sidecar_supervisor::severity::Severity;
use sidecar_supervisor::supervisor::{Notification, Phase, Record, StreamEvent, Supervisor};

fn out(s: &str) -> StreamEvent {
    StreamEvent::StdoutLine(s.to_string())
}

fn running() -> Supervisor {
    let mut s = Supervisor::new();
    assert!(s.begin_launch().is_some());
    s.launched();
    s
}

#[test]
fn launch_request_asks_for_auto_port() {
    let mut s = Supervisor::new();
    assert_eq!(s.phase(), Phase::Idle);
    let req = s.begin_launch().unwrap();
    assert_eq!(req.worker, "vn-sidecar");
    assert_eq!(req.args, vec!["--port".to_string(), "0".to_string()]);
    assert_eq!(s.phase(), Phase::Launching);
    assert!(s.begin_launch().is_none());
    s.launched();
    assert_eq!(s.phase(), Phase::Running);
    assert!(!s.is_finished());
}

#[test]
fn listening_then_port_then_exit() {
    let mut s = running();
    let mut reg = EndpointRegistry::new();
    let mut notes = Vec::new();
    for line in "Listening...\nSERVER_PORT=54213\n".lines() {
        if let Some(n) = s.step(&mut reg, &out(line)).notice {
            notes.push(n);
        }
    }
    if let Some(n) = s.step(&mut reg, &StreamEvent::Terminated(Some(0))).notice {
        notes.push(n);
    }
    assert_eq!(reg.get_port(), Ok(54213));
    assert_eq!(
        notes,
        vec![Notification::PortReady(54213), Notification::WorkerTerminated(Some(0))]
    );
    assert!(s.is_finished());
}

#[test]
fn listening_then_port_then_exit_in_one_batch() {
    let mut s = running();
    let mut reg = EndpointRegistry::new();
    let events = vec![out("Listening..."), out("SERVER_PORT=54213"), StreamEvent::Terminated(Some(0))];
    let notes = s.process_all(&mut reg, &events);
    assert_eq!(
        notes,
        vec![Notification::PortReady(54213), Notification::WorkerTerminated(Some(0))]
    );
    assert_eq!(reg.get_port(), Ok(54213));
    assert_eq!(s.phase(), Phase::Terminated);
}

#[test]
fn no_port_before_port_line() {
    let mut s = running();
    let mut reg = EndpointRegistry::new();
    assert_eq!(reg.get_port(), Err(PortError::NotAvailable));
    let events = vec![
        out("Listening..."),
        out("SERVER_PORT=oops"),
        StreamEvent::StderrLine("INFO: loading".to_string()),
    ];
    let notes = s.process_all(&mut reg, &events);
    assert!(notes.is_empty());
    assert_eq!(reg.get_port(), Err(PortError::NotAvailable));
}

#[test]
fn later_port_lines_are_ignored() {
    let mut s = running();
    let mut reg = EndpointRegistry::new();
    let r1 = s.step(&mut reg, &out("SERVER_PORT=5000"));
    assert_eq!(r1.notice, Some(Notification::PortReady(5000)));
    assert_eq!(r1.record, Record::PortStored(5000));
    let r2 = s.step(&mut reg, &out("SERVER_PORT=6000"));
    assert_eq!(r2.notice, None);
    assert_eq!(r2.record, Record::PortIgnored(6000));
    assert_eq!(reg.get_port(), Ok(5000));
}

#[test]
fn spawn_failure_ends_the_run() {
    let mut s = Supervisor::new();
    s.begin_launch();
    let mut reg = EndpointRegistry::new();
    let events = vec![
        StreamEvent::SpawnError("binary not found".to_string()),
        out("SERVER_PORT=5000"),
        StreamEvent::Terminated(Some(1)),
    ];
    let notes = s.process_all(&mut reg, &events);
    assert_eq!(notes, vec![Notification::WorkerError("binary not found".to_string())]);
    assert_eq!(s.phase(), Phase::Failed);
    assert_eq!(reg.get_port(), Err(PortError::NotAvailable));
}

#[test]
fn termination_keeps_port() {
    let mut s = running();
    let mut reg = EndpointRegistry::new();
    s.step(&mut reg, &out("SERVER_PORT=7000"));
    let r = s.step(&mut reg, &StreamEvent::Terminated(None));
    assert_eq!(r.notice, Some(Notification::WorkerTerminated(None)));
    assert_eq!(r.record, Record::Exited);
    assert_eq!(reg.get_port(), Ok(7000));
    let after = s.step(&mut reg, &out("SERVER_PORT=8000"));
    assert_eq!(after.notice, None);
    assert_eq!(after.record, Record::AfterEnd);
    assert_eq!(reg.get_port(), Ok(7000));
}

#[test]
fn records_of_each_event() {
    let mut s = running();
    let mut reg = EndpointRegistry::new();
    assert_eq!(s.step(&mut reg, &out("hello")).record, Record::Diagnostic);
    assert_eq!(s.step(&mut reg, &out("SERVER_PORT=70000")).record, Record::MalformedPort);
    assert_eq!(
        s.step(&mut reg, &StreamEvent::StderrLine("Failed to load".to_string())).record,
        Record::Stderr(Severity::Error)
    );
    assert_eq!(
        s.step(&mut reg, &StreamEvent::StderrLine("client connected".to_string())).record,
        Record::Stderr(Severity::Info)
    );
    let r = s.step(&mut reg, &StreamEvent::StreamError("invalid utf-8".to_string()));
    assert_eq!(r.record, Record::StreamFault);
    assert_eq!(r.notice, None);
    assert!(!s.is_finished());
    assert_eq!(reg.get_port(), Err(PortError::NotAvailable));
}

#[test]
fn exit_code_is_passed_on() {
    let mut s = running();
    let mut reg = EndpointRegistry::new();
    let r = s.step(&mut reg, &StreamEvent::Terminated(Some(-9)));
    assert_eq!(r.notice, Some(Notification::WorkerTerminated(Some(-9))));
}

#[test]
fn notification_channels() {
    assert_eq!(Notification::PortReady(1).channel(), "sidecar-port");
    assert_eq!(Notification::WorkerError("x".to_string()).channel(), "sidecar-error");
    assert_eq!(Notification::WorkerTerminated(Some(0)).channel(), "sidecar-terminated");
}
