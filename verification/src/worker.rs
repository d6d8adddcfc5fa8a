use vstd::prelude::*;
use crate::command::Command;

verus! {

/// Why the connection supervisor left its loop, or never entered it.
#[derive(Clone, Copy, Debug, PartialEq, Eq, Structural)]
pub enum StopCause {
    /// The broker client could not be constructed: the worker ends
    /// silently, and whatever is enqueued is never published.
    ConnectRefused,
    /// A `Shutdown` command arrived; the normal end.
    ShutdownReceived,
    /// A publish on the established connection failed: fatal, since the
    /// sink has no way to tell its caller that records are being lost.
    PublishFailed,
    /// The queue closed without a `Shutdown` command.
    QueueClosed,
}

/// The connection supervisor's state: establishing the connection,
/// serving the command queue, or done.
#[derive(Clone, Copy, Debug, PartialEq, Eq, Structural)]
pub enum WorkerState {
    Connecting,
    Running,
    Stopped(StopCause),
}

/// One observation the supervisor reacts to. The embedding that owns the
/// connection and the receiver feeds these in; every decision about them
/// is made here.
#[derive(Clone, Debug, PartialEq, Eq)]
pub enum WorkerEvent {
    ConnectionEstablished,
    ConnectionRefused,
    CommandArrived(Command),
    PublishSucceeded,
    PublishFailed,
    QueueDropped,
}

/// What the supervisor orders next.
#[derive(Clone, Debug, PartialEq, Eq)]
pub enum WorkerAction {
    /// Wait for the next event.
    Wait,
    /// Publish this payload under the sink's topic.
    Publish(String),
    /// Leave the loop.
    Halt,
}

/// The supervisor's transition function. Events that cannot occur in a
/// state are ignored; a stopped worker stays stopped.
pub open spec fn spec_step(s: WorkerState, e: WorkerEvent) -> (WorkerState, WorkerAction) {
    match s {
        WorkerState::Connecting => match e {
            WorkerEvent::ConnectionEstablished => (WorkerState::Running, WorkerAction::Wait),
            WorkerEvent::ConnectionRefused => (
                WorkerState::Stopped(StopCause::ConnectRefused),
                WorkerAction::Halt,
            ),
            _ => (s, WorkerAction::Wait),
        },
        WorkerState::Running => match e {
            WorkerEvent::CommandArrived(Command::Publish(p)) => (
                WorkerState::Running,
                WorkerAction::Publish(p),
            ),
            WorkerEvent::CommandArrived(Command::Shutdown) => (
                WorkerState::Stopped(StopCause::ShutdownReceived),
                WorkerAction::Halt,
            ),
            WorkerEvent::PublishFailed => (
                WorkerState::Stopped(StopCause::PublishFailed),
                WorkerAction::Halt,
            ),
            WorkerEvent::QueueDropped => (
                WorkerState::Stopped(StopCause::QueueClosed),
                WorkerAction::Halt,
            ),
            _ => (s, WorkerAction::Wait),
        },
        WorkerState::Stopped(_) => (s, WorkerAction::Halt),
    }
}

/// Runtime transition, exactly `spec_step`.
pub fn step(s: WorkerState, e: WorkerEvent) -> (r: (WorkerState, WorkerAction))
    ensures
        r == spec_step(s, e),
{
    match s {
        WorkerState::Connecting => match e {
            WorkerEvent::ConnectionEstablished => (WorkerState::Running, WorkerAction::Wait),
            WorkerEvent::ConnectionRefused => (
                WorkerState::Stopped(StopCause::ConnectRefused),
                WorkerAction::Halt,
            ),
            _ => (s, WorkerAction::Wait),
        },
        WorkerState::Running => match e {
            WorkerEvent::CommandArrived(Command::Publish(p)) => (
                WorkerState::Running,
                WorkerAction::Publish(p),
            ),
            WorkerEvent::CommandArrived(Command::Shutdown) => (
                WorkerState::Stopped(StopCause::ShutdownReceived),
                WorkerAction::Halt,
            ),
            WorkerEvent::PublishFailed => (
                WorkerState::Stopped(StopCause::PublishFailed),
                WorkerAction::Halt,
            ),
            WorkerEvent::QueueDropped => (
                WorkerState::Stopped(StopCause::QueueClosed),
                WorkerAction::Halt,
            ),
            _ => (s, WorkerAction::Wait),
        },
        WorkerState::Stopped(_) => (s, WorkerAction::Halt),
    }
}

/// Whether a stop is a fatal condition for the process. Only the loss of
/// an established connection is: silently dropping records forever is
/// worse than stopping, while a shutdown and a refused first connection
/// end the worker quietly.
pub open spec fn spec_stop_is_fatal(c: StopCause) -> bool {
    c is PublishFailed
}

/// Runtime counterpart of `spec_stop_is_fatal`.
pub fn stop_is_fatal(c: StopCause) -> (r: bool)
    ensures
        r == spec_stop_is_fatal(c),
{
    match c {
        StopCause::PublishFailed => true,
        _ => false,
    }
}

/// The payloads a worker in `Running` publishes from `cmds`, in order:
/// every `Publish` payload before the first `Shutdown`, and nothing after
/// it.
pub open spec fn published_of(cmds: Seq<Command>) -> Seq<Seq<char>>
    decreases cmds.len(),
{
    if cmds.len() == 0 {
        Seq::empty()
    } else {
        match cmds.first() {
            Command::Publish(p) => seq![p@] + published_of(cmds.drop_first()),
            Command::Shutdown => Seq::empty(),
        }
    }
}

/// The payloads of a command sequence, position by position.
pub open spec fn payload_views(cmds: Seq<Command>) -> Seq<Seq<char>> {
    cmds.map_values(|c: Command| c.payload_view())
}

/// Law: a run of publishes is delivered whole — every payload, in the
/// order enqueued, nothing lost, nothing duplicated.
pub proof fn lemma_all_publishes_delivered(a: Seq<Command>)
    requires
        forall|i: int| 0 <= i < a.len() ==> a[i] is Publish,
    ensures
        published_of(a) == payload_views(a),
    decreases a.len(),
{
    if a.len() == 0 {
        assert(published_of(a) =~= payload_views(a));
    } else {
        assert(a[0] is Publish);
        lemma_all_publishes_delivered(a.drop_first());
        assert(payload_views(a) =~= seq![a.first().payload_view()] + payload_views(
            a.drop_first(),
        ));
        assert(published_of(a) =~= payload_views(a));
    }
}

/// Law: while no `Shutdown` stands in `a`, the worker's output on
/// `a + b` is every payload of `a` followed by its output on `b` —
/// nothing is lost, duplicated or reordered at the seam.
pub proof fn lemma_published_concat(a: Seq<Command>, b: Seq<Command>)
    requires
        forall|i: int| 0 <= i < a.len() ==> a[i] is Publish,
    ensures
        published_of(a + b) == payload_views(a) + published_of(b),
    decreases a.len(),
{
    if a.len() == 0 {
        assert(a + b =~= b);
        assert(payload_views(a) =~= Seq::<Seq<char>>::empty());
        assert(published_of(a + b) =~= payload_views(a) + published_of(b));
    } else {
        assert(a[0] is Publish);
        assert((a + b).first() == a.first());
        assert((a + b).drop_first() =~= a.drop_first() + b);
        lemma_published_concat(a.drop_first(), b);
        assert(payload_views(a) =~= seq![a.first().payload_view()] + payload_views(
            a.drop_first(),
        ));
        assert(published_of(a + b) =~= payload_views(a) + published_of(b));
    }
}

/// Law (ordering): a producer that enqueues `msgs` one after the other
/// and then shuts down has exactly `msgs` published, in that order.
pub proof fn lemma_ordered_delivery(msgs: Seq<String>)
    ensures
        published_of(
            msgs.map_values(|m: String| Command::Publish(m)).push(Command::Shutdown),
        ) == msgs.map_values(|m: String| m@),
{
    let cmds = msgs.map_values(|m: String| Command::Publish(m));
    assert(forall|i: int| 0 <= i < cmds.len() ==> cmds[i] is Publish);
    assert(cmds.push(Command::Shutdown) =~= cmds + seq![Command::Shutdown]);
    lemma_published_concat(cmds, seq![Command::Shutdown]);
    assert(published_of(seq![Command::Shutdown]) =~= Seq::<Seq<char>>::empty());
    assert(payload_views(cmds) =~= msgs.map_values(|m: String| m@));
    assert(published_of(cmds.push(Command::Shutdown)) =~= msgs.map_values(|m: String| m@));
}

/// Law (end to end): a sink whose queue log is a run of publishes
/// followed by the shutdown order has exactly those payloads published,
/// in the order they were enqueued — none lost, none duplicated.
pub proof fn lemma_sink_round_trip(s: crate::sink::Sink, msgs: Seq<String>)
    requires
        s.queue_log() == msgs.map_values(|m: String| Command::Publish(m)).push(Command::Shutdown),
    ensures
        published_of(s.queue_log()) == msgs.map_values(|m: String| m@),
{
    lemma_ordered_delivery(msgs);
}

/// Law (shutdown cuts the stream): once a `Shutdown` stands in the
/// queue, nothing enqueued after it is ever published.
pub proof fn lemma_no_publish_after_shutdown(a: Seq<Command>, b: Seq<Command>)
    requires
        a.contains(Command::Shutdown),
    ensures
        published_of(a + b) == published_of(a),
    decreases a.len(),
{
    let i = choose|i: int| 0 <= i < a.len() && a[i] == Command::Shutdown;
    assert((a + b).first() == a.first());
    if a.first() is Shutdown {
        assert(published_of(a + b) =~= published_of(a));
    } else {
        assert(i != 0);
        assert(a.drop_first()[i - 1] == Command::Shutdown);
        assert(a.drop_first().contains(Command::Shutdown));
        lemma_no_publish_after_shutdown(a.drop_first(), b);
        assert((a + b).drop_first() =~= a.drop_first() + b);
        assert(published_of(a + b) =~= published_of(a));
    }
}

/// Law (shutdown terminates): in `Running`, a `Shutdown` command stops
/// the worker at once.
pub proof fn lemma_shutdown_halts()
    ensures
        spec_step(WorkerState::Running, WorkerEvent::CommandArrived(Command::Shutdown)) == (
            WorkerState::Stopped(StopCause::ShutdownReceived),
            WorkerAction::Halt,
        ),
{
}

/// Law (stopped is final): whatever arrives at a stopped worker, it
/// stays stopped and never orders another publish.
pub proof fn lemma_stopped_absorbing(c: StopCause, e: WorkerEvent)
    ensures
        spec_step(WorkerState::Stopped(c), e) == (WorkerState::Stopped(c), WorkerAction::Halt),
{
}

/// Drains a recorded batch of commands exactly as the worker in
/// `Running` does: each payload in order, stopping at the first
/// `Shutdown` and reading nothing further. The loop visits each command
/// at most once, so a batch ending in `Shutdown` is done within bounded
/// steps.
pub fn process_batch(cmds: &Vec<Command>) -> (out: Vec<String>)
    ensures
        out@.map_values(|p: String| p@) == published_of(cmds@),
{
    let mut out: Vec<String> = Vec::new();
    let mut i: usize = 0;
    let mut stopped: bool = false;
    while i < cmds.len() && !stopped
        invariant
            i <= cmds@.len(),
            stopped ==> out@.map_values(|p: String| p@) == published_of(cmds@),
            !stopped ==> out@.map_values(|p: String| p@) == published_of(cmds@.take(i as int)),
            !stopped ==> forall|j: int| 0 <= j < i ==> cmds@[j] is Publish,
        decreases cmds@.len() - i,
    {
        let ghost prefix = cmds@.take(i as int);
        let ghost out_before = out@;
        match &cmds[i] {
            Command::Publish(p) => {
                out.push(p.clone());
                proof {
                    lemma_published_concat(prefix, seq![cmds@[i as int]]);
                    lemma_all_publishes_delivered(prefix);
                    assert(cmds@.take(i + 1) =~= prefix + seq![cmds@[i as int]]);
                    let ghost single = seq![cmds@[i as int]];
                    assert(cmds@[i as int] == Command::Publish(*p));
                    assert(single.drop_first() =~= Seq::<Command>::empty());
                    assert(published_of(single.drop_first()) =~= Seq::<Seq<char>>::empty());
                    assert(published_of(single) =~= seq![p@]);
                    assert(out@.map_values(|q: String| q@) =~= out_before.map_values(
                        |q: String| q@,
                    ) + seq![p@]);
                    assert(out@.map_values(|q: String| q@) =~= published_of(cmds@.take(i + 1)));
                }
            },
            Command::Shutdown => {
                stopped = true;
                proof {
                    lemma_published_concat(prefix, cmds@.skip(i as int));
                    assert(prefix + cmds@.skip(i as int) =~= cmds@);
                    assert(cmds@.skip(i as int).first() == cmds@[i as int]);
                    assert(published_of(cmds@.skip(i as int)) =~= Seq::<Seq<char>>::empty());
                    lemma_all_publishes_delivered(prefix);
                    assert(out@.map_values(|q: String| q@) =~= published_of(cmds@));
                }
            },
        }
        i = i + 1;
    }
    proof {
        if !stopped {
            assert(cmds@.take(cmds@.len() as int) =~= cmds@);
        }
    }
    out
}

} // verus!
