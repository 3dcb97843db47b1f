use vstd::prelude::*;

use crate::port::{has_marker, line_has_marker, parse_port_line, port_of_line};
use crate::registry::EndpointRegistry;
use crate::severity::{classify_stderr, severity_of, Severity};

verus! {

/// Where supervision of the worker stands.
#[derive(Clone, Copy, Debug, PartialEq, Eq, Structural)]
pub enum Phase {
    /// Nothing has been started.
    Idle,
    /// A launch was requested and its outcome is not known yet.
    Launching,
    /// The worker runs; whether its port is known is up to the registry.
    Running,
    /// The worker could not be started; nothing follows.
    Failed,
    /// The worker has exited; nothing follows.
    Terminated,
}

/// One observation of the worker, as it arrives.
#[derive(Debug, PartialEq, Eq)]
pub enum StreamEvent {
    /// A line of standard output.
    StdoutLine(String),
    /// A line of standard error.
    StderrLine(String),
    /// The worker's streams could not be read; supervision goes on.
    StreamError(String),
    /// The worker could not be started, with the reason.
    SpawnError(String),
    /// The worker exited, with its exit code where it had one.
    Terminated(Option<i32>),
}

/// What the front end is told.
#[derive(Debug, PartialEq, Eq)]
pub enum Notification {
    PortReady(u16),
    WorkerError(String),
    WorkerTerminated(Option<i32>),
}

/// What an event amounted to, for the log.
#[derive(Clone, Copy, Debug, PartialEq, Eq, Structural)]
pub enum Record {
    /// A line of standard output without the port marker.
    Diagnostic,
    /// The port was read and stored.
    PortStored(u16),
    /// A port was read while one was stored already; it was left out.
    PortIgnored(u16),
    /// The marker was there but no port could be read after it.
    MalformedPort,
    /// A line of standard error, with the severity it is logged at.
    Stderr(Severity),
    /// Reading the worker's streams failed.
    StreamFault,
    /// The worker could not be started.
    LaunchFailed,
    /// The worker exited.
    Exited,
    /// An event after supervision had ended; it changes nothing.
    AfterEnd,
}

/// The outcome of one event: what to tell the front end and what to log.
pub struct Reaction {
    pub notice: Option<Notification>,
    pub record: Record,
}

/// How the worker is started: which packaged program, with which arguments.
pub struct LaunchRequest {
    pub worker: String,
    pub args: Vec<String>,
}

/// Supervision goes on: the worker has neither failed to start nor exited.
pub open spec fn is_live(p: Phase) -> bool {
    p != Phase::Failed && p != Phase::Terminated
}

/// The port that `ev` brings to a registry that holds `port`: one is
/// stored only where none was.
pub open spec fn discovered(p: Phase, port: Option<u16>, ev: StreamEvent) -> Option<u16> {
    match ev {
        StreamEvent::StdoutLine(l) => if is_live(p) && port is None {
            port_of_line(l@)
        } else {
            None
        },
        _ => None,
    }
}

/// The phase after `ev`.
pub open spec fn next_phase(p: Phase, ev: StreamEvent) -> Phase {
    if !is_live(p) {
        p
    } else {
        match ev {
            StreamEvent::SpawnError(_) => Phase::Failed,
            StreamEvent::Terminated(_) => Phase::Terminated,
            _ => Phase::Running,
        }
    }
}

/// The stored port after `ev`.
pub open spec fn next_port(p: Phase, port: Option<u16>, ev: StreamEvent) -> Option<u16> {
    match discovered(p, port, ev) {
        Some(q) => Some(q),
        None => port,
    }
}

/// What `ev` tells the front end.
pub open spec fn notice_of(p: Phase, port: Option<u16>, ev: StreamEvent) -> Option<Notification> {
    if !is_live(p) {
        None
    } else {
        match ev {
            StreamEvent::StdoutLine(_) => match discovered(p, port, ev) {
                Some(q) => Some(Notification::PortReady(q)),
                None => None,
            },
            StreamEvent::StderrLine(_) => None,
            StreamEvent::StreamError(_) => None,
            StreamEvent::SpawnError(m) => Some(Notification::WorkerError(m)),
            StreamEvent::Terminated(c) => Some(Notification::WorkerTerminated(c)),
        }
    }
}

/// What `ev` amounts to in the log.
pub open spec fn record_of(p: Phase, port: Option<u16>, ev: StreamEvent) -> Record {
    if !is_live(p) {
        Record::AfterEnd
    } else {
        match ev {
            StreamEvent::StdoutLine(l) => if !has_marker(l@) {
                Record::Diagnostic
            } else {
                match port_of_line(l@) {
                    None => Record::MalformedPort,
                    Some(q) => if port is None {
                        Record::PortStored(q)
                    } else {
                        Record::PortIgnored(q)
                    },
                }
            },
            StreamEvent::StderrLine(l) => Record::Stderr(severity_of(l@)),
            StreamEvent::StreamError(_) => Record::StreamFault,
            StreamEvent::SpawnError(_) => Record::LaunchFailed,
            StreamEvent::Terminated(_) => Record::Exited,
        }
    }
}

/// Phase and stored port after the events `evs`, from phase `p` and
/// stored port `port`.
pub open spec fn run(p: Phase, port: Option<u16>, evs: Seq<StreamEvent>) -> (Phase, Option<u16>)
    decreases evs.len(),
{
    if evs.len() == 0 {
        (p, port)
    } else {
        let s = run(p, port, evs.drop_last());
        (next_phase(s.0, evs.last()), next_port(s.0, s.1, evs.last()))
    }
}

/// The notifications that the events `evs` give, in order.
pub open spec fn notices(p: Phase, port: Option<u16>, evs: Seq<StreamEvent>) -> Seq<Notification>
    decreases evs.len(),
{
    if evs.len() == 0 {
        Seq::empty()
    } else {
        let s = run(p, port, evs.drop_last());
        let before = notices(p, port, evs.drop_last());
        match notice_of(s.0, s.1, evs.last()) {
            Some(n) => before.push(n),
            None => before,
        }
    }
}

/// The arguments ask the worker to pick a free port itself: `--port 0`.
pub open spec fn asks_auto_port(args: Seq<String>) -> bool {
    exists|i: int|
        0 <= i && i + 1 < args.len() && (#[trigger] args[i])@ == "--port"@ && args[i + 1]@
            == "0"@
}

impl Notification {
    /// The name of the front-end event that carries this notification.
    pub fn channel(&self) -> (r: &'static str)
        ensures
            match self {
                Notification::PortReady(_) => r@ == "sidecar-port"@,
                Notification::WorkerError(_) => r@ == "sidecar-error"@,
                Notification::WorkerTerminated(_) => r@ == "sidecar-terminated"@,
            },
    {
        match self {
            Notification::PortReady(_) => "sidecar-port",
            Notification::WorkerError(_) => "sidecar-error",
            Notification::WorkerTerminated(_) => "sidecar-terminated",
        }
    }
}

/// Supervises one run of the worker: turns what it reports into updates of
/// the endpoint registry, notifications and log records.
pub struct Supervisor {
    phase: Phase,
}

impl View for Supervisor {
    type V = Phase;

    closed spec fn view(&self) -> Phase {
        self.phase
    }
}

impl Supervisor {
    /// A supervisor that has started nothing yet.
    pub fn new() -> (r: Supervisor)
        ensures
            r@ == Phase::Idle,
    {
        Supervisor { phase: Phase::Idle }
    }

    /// Where supervision stands.
    pub fn phase(&self) -> (r: Phase)
        ensures
            r == self@,
    {
        self.phase
    }

    /// Supervision has ended: the worker failed to start or exited.
    pub fn is_finished(&self) -> (r: bool)
        ensures
            r == !is_live(self@),
    {
        self.phase == Phase::Failed || self.phase == Phase::Terminated
    }

    /// Starts a launch: from `Idle`, moves to `Launching` and gives the
    /// worker to start and its arguments, which ask for a port picked by the
    /// worker. In any other phase nothing changes and `None` comes back.
    pub fn begin_launch(&mut self) -> (r: Option<LaunchRequest>)
        ensures
            old(self)@ == Phase::Idle ==> final(self)@ == Phase::Launching && (r matches Some(req)
                && req.worker@ == "vn-sidecar"@ && req.args@.len() == 2 && req.args@[0]@
                == "--port"@ && req.args@[1]@ == "0"@ && asks_auto_port(req.args@)),
            old(self)@ != Phase::Idle ==> final(self)@ == old(self)@ && r is None,
    {
        if self.phase != Phase::Idle {
            return None;
        }
        self.phase = Phase::Launching;
        let mut args: Vec<String> = Vec::new();
        args.push(String::from_str("--port"));
        args.push(String::from_str("0"));
        assert((args@[0])@ == "--port"@ && args@[1]@ == "0"@);
        Some(LaunchRequest { worker: String::from_str("vn-sidecar"), args })
    }

    /// The worker was started: `Launching` moves to `Running`; any other
    /// phase stays.
    pub fn launched(&mut self)
        ensures
            final(self)@ == if old(self)@ == Phase::Launching {
                Phase::Running
            } else {
                old(self)@
            },
    {
        if self.phase == Phase::Launching {
            self.phase = Phase::Running;
        }
    }

    /// Handles one event of the worker. A port line stores the port in
    /// `registry` if it holds none yet, and asks for `PortReady`; a spawn
    /// failure or an exit ends supervision with its notification. Events
    /// after the end change nothing.
    pub fn step(&mut self, registry: &mut EndpointRegistry, ev: &StreamEvent) -> (r: Reaction)
        ensures
            final(self)@ == next_phase(old(self)@, *ev),
            final(registry)@ == next_port(old(self)@, old(registry)@, *ev),
            r.notice == notice_of(old(self)@, old(registry)@, *ev),
            r.record == record_of(old(self)@, old(registry)@, *ev),
    {
        if self.is_finished() {
            return Reaction { notice: None, record: Record::AfterEnd };
        }
        match ev {
            StreamEvent::StdoutLine(line) => {
                self.phase = Phase::Running;
                match parse_port_line(line.as_str()) {
                    Some(q) => {
                        if registry.set(q) {
                            Reaction {
                                notice: Some(Notification::PortReady(q)),
                                record: Record::PortStored(q),
                            }
                        } else {
                            Reaction { notice: None, record: Record::PortIgnored(q) }
                        }
                    },
                    None => {
                        let record = if line_has_marker(line.as_str()) {
                            Record::MalformedPort
                        } else {
                            Record::Diagnostic
                        };
                        Reaction { notice: None, record }
                    },
                }
            },
            StreamEvent::StderrLine(line) => {
                self.phase = Phase::Running;
                Reaction { notice: None, record: Record::Stderr(classify_stderr(line.as_str())) }
            },
            StreamEvent::StreamError(_) => {
                self.phase = Phase::Running;
                Reaction { notice: None, record: Record::StreamFault }
            },
            StreamEvent::SpawnError(m) => {
                self.phase = Phase::Failed;
                Reaction {
                    notice: Some(Notification::WorkerError(m.clone())),
                    record: Record::LaunchFailed,
                }
            },
            StreamEvent::Terminated(c) => {
                self.phase = Phase::Terminated;
                Reaction {
                    notice: Some(Notification::WorkerTerminated(*c)),
                    record: Record::Exited,
                }
            },
        }
    }

    /// Handles `events` in order and gives the notifications they produce.
    pub fn process_all(&mut self, registry: &mut EndpointRegistry, events: &Vec<StreamEvent>) -> (r:
        Vec<Notification>)
        ensures
            (final(self)@, final(registry)@) == run(old(self)@, old(registry)@, events@),
            r@ == notices(old(self)@, old(registry)@, events@),
    {
        let ghost p0 = self@;
        let ghost port0 = registry@;
        let mut out: Vec<Notification> = Vec::new();
        let mut k: usize = 0;
        while k < events.len()
            invariant
                k <= events@.len(),
                (self@, registry@) == run(p0, port0, events@.take(k as int)),
                out@ == notices(p0, port0, events@.take(k as int)),
            decreases events@.len() - k,
        {
            assert(events@.take(k + 1).drop_last() =~= events@.take(k as int));
            let reaction = self.step(registry, &events[k]);
            match reaction.notice {
                Some(n) => out.push(n),
                None => {},
            }
            k = k + 1;
        }
        assert(events@.take(k as int) =~= events@);
        out
    }
}

} // verus!
