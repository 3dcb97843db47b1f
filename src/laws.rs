use vstd::prelude::*;

use crate::port::{all_digits, decimal_value, first_marker_from, is_digit, marker, marker_at, parse_u16, port_of_line};
use crate::registry::{answer, PortError};
use crate::severity::{reports_error, severity_of, word_error, word_exception, word_failed, Severity};
use crate::supervisor::{is_live, next_phase, next_port, notice_of, notices, run, Notification, Phase, StreamEvent};
use crate::text::{contains_ci, is_white, trim, trim_end, trim_start};

verus! {

/// The event is a line of standard output that announces a port.
pub open spec fn announces_port(ev: StreamEvent) -> bool {
    ev matches StreamEvent::StdoutLine(l) && port_of_line(l@) is Some
}

/// The word `connected`.
pub open spec fn word_connected() -> Seq<char> {
    seq!['c', 'o', 'n', 'n', 'e', 'c', 't', 'e', 'd']
}

/// Running `a` and then `b` is running `a + b`, for the state and for the
/// notifications.
pub proof fn lemma_run_append(p: Phase, port: Option<u16>, a: Seq<StreamEvent>, b: Seq<StreamEvent>)
    ensures
        run(p, port, a + b) == run(run(p, port, a).0, run(p, port, a).1, b),
        notices(p, port, a + b) == notices(p, port, a) + notices(
            run(p, port, a).0,
            run(p, port, a).1,
            b,
        ),
    decreases b.len(),
{
    let s = run(p, port, a);
    if b.len() == 0 {
        assert(a + b =~= a);
        assert(notices(p, port, a) + notices(s.0, s.1, b) =~= notices(p, port, a));
    } else {
        assert((a + b).drop_last() =~= a + b.drop_last());
        lemma_run_append(p, port, a, b.drop_last());
        assert((a + b).last() == b.last());
        let n = notices(s.0, s.1, b.drop_last());
        match notice_of(run(s.0, s.1, b.drop_last()).0, run(s.0, s.1, b.drop_last()).1, b.last()) {
            Some(x) => {
                assert(notices(p, port, a) + n.push(x) =~= (notices(p, port, a) + n).push(x));
            },
            None => {},
        }
    }
}

/// Once supervision has ended, later events change nothing and notify
/// nobody.
pub proof fn lemma_after_end(p: Phase, port: Option<u16>, evs: Seq<StreamEvent>)
    requires
        !is_live(p),
    ensures
        run(p, port, evs) == (p, port),
        notices(p, port, evs) == Seq::<Notification>::empty(),
    decreases evs.len(),
{
    if evs.len() > 0 {
        lemma_after_end(p, port, evs.drop_last());
    }
}

proof fn lemma_single(p: Phase, port: Option<u16>, ev: StreamEvent)
    ensures
        run(p, port, seq![ev]) == (next_phase(p, ev), next_port(p, port, ev)),
        notices(p, port, seq![ev]) == match notice_of(p, port, ev) {
            Some(n) => seq![n],
            None => Seq::<Notification>::empty(),
        },
{
    let none = Seq::<StreamEvent>::empty();
    assert(seq![ev].drop_last() =~= none);
    assert(seq![ev].last() == ev);
    assert(run(p, port, none) == (p, port));
    assert(notices(p, port, none) == Seq::<Notification>::empty());
    assert(run(p, port, seq![ev]) == (next_phase(p, ev), next_port(p, port, ev)));
    match notice_of(p, port, ev) {
        Some(n) => {
            assert(Seq::<Notification>::empty().push(n) =~= seq![n]);
        },
        None => {},
    }
}

/// A line `SERVER_PORT=d`, for digits `d` that write a number of at most
/// 65535, stores that number in an empty registry, and a port query then
/// gives it.
pub proof fn lemma_announced_port_is_served(p: Phase, line: String, d: Seq<char>)
    requires
        is_live(p),
        d.len() > 0,
        all_digits(d),
        decimal_value(d) <= 65535,
        line@ == marker() + d,
    ensures
        port_of_line(line@) == Some(decimal_value(d) as u16),
        answer(run(p, None, seq![StreamEvent::StdoutLine(line)]).1) == Ok::<u16, PortError>(
            decimal_value(d) as u16,
        ),
{
    let s = line@;
    assert(s.subrange(0, marker().len() as int) =~= marker());
    assert(marker_at(s, 0));
    assert(first_marker_from(s, 0) == Some(0int));
    assert(s.subrange(marker().len() as int, s.len() as int) =~= d);
    assert(is_digit(d[0]));
    assert(!is_white(d[0]));
    assert(trim_start(d) == d);
    assert(is_digit(d.last()));
    assert(trim_end(d) == d);
    assert(trim(d) == d);
    assert(d[0] != '+');
    assert(parse_u16(d) == Some(decimal_value(d) as u16));
    lemma_single(p, None, StreamEvent::StdoutLine(line));
}

/// Once the registry holds a port, no sequence of events changes it, port
/// lines included, and a port query keeps giving it.
pub proof fn lemma_port_is_kept(p: Phase, q: u16, evs: Seq<StreamEvent>)
    ensures
        run(p, Some(q), evs).1 == Some(q),
        answer(run(p, Some(q), evs).1) == Ok::<u16, PortError>(q),
    decreases evs.len(),
{
    if evs.len() > 0 {
        lemma_port_is_kept(p, q, evs.drop_last());
    }
}

/// As long as no line has announced a port, the registry stays empty and a
/// port query gives `NotAvailable`.
pub proof fn lemma_no_port_before_announcement(p: Phase, evs: Seq<StreamEvent>)
    requires
        forall|i: int| 0 <= i < evs.len() ==> !announces_port(#[trigger] evs[i]),
    ensures
        run(p, None, evs).1 is None,
        answer(run(p, None, evs).1) == Err::<u16, PortError>(PortError::NotAvailable),
    decreases evs.len(),
{
    if evs.len() > 0 {
        assert forall|i: int| 0 <= i < evs.drop_last().len() implies !announces_port(
            #[trigger] evs.drop_last()[i],
        ) by {
            assert(evs.drop_last()[i] == evs[i]);
        }
        lemma_no_port_before_announcement(p, evs.drop_last());
        assert(!announces_port(evs[evs.len() - 1]));
    }
}

/// A line of standard error that holds `failed`, in any case, is logged as
/// an error.
pub proof fn lemma_failed_is_error(s: Seq<char>)
    requires
        contains_ci(s, word_failed()),
    ensures
        severity_of(s) == Severity::Error,
{
}

/// A line of standard error that holds `connected` and none of the error
/// words is logged as information.
pub proof fn lemma_connected_is_info(s: Seq<char>)
    requires
        contains_ci(s, word_connected()),
        !contains_ci(s, word_error()),
        !contains_ci(s, word_failed()),
        !contains_ci(s, word_exception()),
    ensures
        severity_of(s) == Severity::Info,
{
}

/// A spawn failure while supervision is on notifies the error, and then
/// nothing at all follows in that run: in particular no `PortReady`.
pub proof fn lemma_spawn_failure_is_final(
    p: Phase,
    port: Option<u16>,
    reason: String,
    evs: Seq<StreamEvent>,
)
    requires
        is_live(p),
    ensures
        notices(p, port, seq![StreamEvent::SpawnError(reason)] + evs) == seq![
            Notification::WorkerError(reason),
        ],
        forall|i: int|
            0 <= i < notices(p, port, seq![StreamEvent::SpawnError(reason)] + evs).len()
                ==> !(notices(p, port, seq![StreamEvent::SpawnError(reason)] + evs)[i] is PortReady),
{
    let ev = StreamEvent::SpawnError(reason);
    lemma_single(p, port, ev);
    lemma_run_append(p, port, seq![ev], evs);
    lemma_after_end(Phase::Failed, port, evs);
    assert(seq![Notification::WorkerError(reason)] + Seq::<Notification>::empty() =~= seq![
        Notification::WorkerError(reason),
    ]);
}

/// With a port known, the worker's exit still notifies `WorkerTerminated`,
/// and the port stays known for every later query.
pub proof fn lemma_termination_keeps_port(
    p: Phase,
    q: u16,
    code: Option<i32>,
    evs: Seq<StreamEvent>,
)
    requires
        is_live(p),
    ensures
        notices(p, Some(q), seq![StreamEvent::Terminated(code)] + evs) == seq![
            Notification::WorkerTerminated(code),
        ],
        answer(run(p, Some(q), seq![StreamEvent::Terminated(code)] + evs).1) == Ok::<
            u16,
            PortError,
        >(q),
{
    let ev = StreamEvent::Terminated(code);
    lemma_single(p, Some(q), ev);
    lemma_run_append(p, Some(q), seq![ev], evs);
    lemma_after_end(Phase::Terminated, Some(q), evs);
    assert(seq![Notification::WorkerTerminated(code)] + Seq::<Notification>::empty() =~= seq![
        Notification::WorkerTerminated(code),
    ]);
}

} // verus!
