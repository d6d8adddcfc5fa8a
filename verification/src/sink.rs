use vstd::prelude::*;
use vstd::string::StringExecFns;
use crate::command::Command;
use crate::errors::SinkError;
use crate::format::{Config, Formatter, Record};
use crate::level::{enabled_at, level_enabled, Level, LevelFilter};
use crate::payload::{prepare_payload, trimmed_end};
use crate::queue::{new_queue, queue_send};

verus! {

/// The topic every payload of a sink is published under: the fixed
/// `logging/` prefix joined with the application name chosen at
/// construction.
pub open spec fn topic_of(application_name: Seq<char>) -> Seq<char> {
    "logging/"@ + application_name
}

/// How one `log` call ended when no fatal condition arose.
#[derive(Clone, Copy, Debug, PartialEq, Eq, Structural)]
pub enum LogOutcome {
    /// The record's level is not enabled; nothing was formatted or sent.
    Skipped,
    /// The formatter failed on this record; it is dropped.
    FormatFailed,
    /// The formatter produced no bytes; nothing is enqueued.
    EmptyPayload,
    /// A `Publish` command went onto the queue.
    Enqueued,
}

/// The object the host logging framework holds. It gates records by
/// level, hands them to the formatter, and enqueues the resulting
/// payloads for the worker that owns the broker connection. The ghost
/// `sent` field records every command this sink has handed to the queue,
/// oldest first, so contracts can speak about what was enqueued.
pub struct Sink {
    log_level: LevelFilter,
    config: Config,
    topic: String,
    sender: crossbeam_channel::Sender<Command>,
    worker_live: bool,
    sent: Ghost<Seq<Command>>,
}

impl Sink {
    /// The threshold the sink was constructed with; immutable.
    pub closed spec fn configured_level(self) -> LevelFilter {
        self.log_level
    }

    /// The formatting options the sink forwards, unread.
    pub closed spec fn config_spec(self) -> Config {
        self.config
    }

    /// The topic the worker publishes under, fixed at construction.
    pub closed spec fn topic_view(self) -> Seq<char> {
        self.topic@
    }

    /// True until the shutdown order has been accepted once.
    pub closed spec fn live(self) -> bool {
        self.worker_live
    }

    /// Every command this sink has handed to the queue, oldest first.
    pub closed spec fn queue_log(self) -> Seq<Command> {
        self.sent@
    }

    /// The parts of a sink that no operation after construction changes.
    pub open spec fn same_identity(self, other: Sink) -> bool {
        &&& self.configured_level() == other.configured_level()
        &&& self.config_spec() == other.config_spec()
        &&& self.topic_view() == other.topic_view()
    }

    /// Builds a sink and the receiving end of its fresh command queue.
    /// The caller moves the receiver into the worker it spawns; the
    /// connection attempt happens there, never on this path.
    pub fn new(log_level: LevelFilter, config: Config, application_name: &str) -> (r: (
        Sink,
        crossbeam_channel::Receiver<Command>,
    ))
        ensures
            r.0.configured_level() == log_level,
            r.0.config_spec() == config,
            r.0.topic_view() == topic_of(application_name@),
            r.0.live(),
            r.0.queue_log() == Seq::<Command>::empty(),
    {
        let mut topic = String::from_str("logging/");
        topic.append(application_name);
        let (tx, rx) = new_queue();
        let sink = Sink {
            log_level,
            config,
            topic,
            sender: tx,
            worker_live: true,
            sent: Ghost(Seq::empty()),
        };
        (sink, rx)
    }

    /// The level gate: a record passes exactly when it is at least as
    /// severe as the configured threshold.
    pub fn enabled(&self, level: Level) -> (r: bool)
        ensures
            r == level_enabled(level, self.configured_level()),
    {
        enabled_at(level, self.log_level)
    }

    /// Hands one command to the queue and records it in the ghost log.
    fn send_command(&mut self, cmd: Command) -> (r: Result<(), SinkError>)
        ensures
            old(self).same_identity(*final(self)),
            final(self).live() == old(self).live(),
            r is Ok ==> final(self).queue_log() == old(self).queue_log().push(cmd),
            r is Err ==> r == Err::<(), SinkError>(SinkError::QueueDown) && final(self).queue_log()
                == old(self).queue_log(),
    {
        let ghost cmd_spec = cmd;
        match queue_send(&self.sender, cmd) {
            Ok(()) => {
                self.sent = Ghost(self.sent@.push(cmd_spec));
                Ok(())
            },
            Err(_) => Err(SinkError::QueueDown),
        }
    }

    /// The path a record takes after the formatter has run: empty bytes
    /// are dropped, bytes that are not text are a fatal condition, and
    /// anything else is trimmed of trailing whitespace and enqueued as a
    /// `Publish` command.
    pub fn submit_formatted(&mut self, data: &Vec<u8>) -> (r: Result<LogOutcome, SinkError>)
        ensures
            old(self).same_identity(*final(self)),
            final(self).live() == old(self).live(),
            r == Ok::<LogOutcome, SinkError>(LogOutcome::EmptyPayload) <==> data@.len() == 0,
            r == Err::<LogOutcome, SinkError>(SinkError::MalformedPayload) <==> (data@.len() > 0
                && !vstd::utf8::valid_utf8(data@)),
            r == Err::<LogOutcome, SinkError>(SinkError::QueueDown) ==> data@.len() > 0
                && vstd::utf8::valid_utf8(data@),
            data@.len() > 0 && vstd::utf8::valid_utf8(data@) ==> (r == Ok::<
                LogOutcome,
                SinkError,
            >(LogOutcome::Enqueued) || r == Err::<LogOutcome, SinkError>(SinkError::QueueDown)),
            r != Ok::<LogOutcome, SinkError>(LogOutcome::Skipped) && r != Ok::<
                LogOutcome,
                SinkError,
            >(LogOutcome::FormatFailed) && r != Err::<LogOutcome, SinkError>(
                SinkError::AlreadyShutDown,
            ),
            r == Ok::<LogOutcome, SinkError>(LogOutcome::Enqueued) ==> (
            final(self).queue_log().last() matches Command::Publish(p) && p@ == trimmed_end(
                vstd::utf8::decode_utf8(data@),
            )) && final(self).queue_log() == old(self).queue_log().push(
                final(self).queue_log().last(),
            ),
            r != Ok::<LogOutcome, SinkError>(LogOutcome::Enqueued) ==> final(self).queue_log()
                == old(self).queue_log(),
    {
        match prepare_payload(data) {
            Ok(Some(payload)) => match self.send_command(Command::Publish(payload)) {
                Ok(()) => Ok(LogOutcome::Enqueued),
                Err(e) => Err(e),
            },
            Ok(None) => Ok(LogOutcome::EmptyPayload),
            Err(e) => Err(e),
        }
    }

    /// The logging entry point: a no-op for a record below the threshold,
    /// otherwise the record is formatted and the result goes through
    /// `submit_formatted`. A formatter failure drops the record silently,
    /// as the queue never learns of it.
    pub fn log<F: Formatter>(&mut self, record: &Record, formatter: &F) -> (r: Result<
        LogOutcome,
        SinkError,
    >)
        ensures
            old(self).same_identity(*final(self)),
            final(self).live() == old(self).live(),
            r == Ok::<LogOutcome, SinkError>(LogOutcome::Skipped) <==> !level_enabled(
                record.level,
                old(self).configured_level(),
            ),
            r != Err::<LogOutcome, SinkError>(SinkError::AlreadyShutDown),
            r == Ok::<LogOutcome, SinkError>(LogOutcome::Enqueued) ==> exists|p: String|
                final(self).queue_log() == old(self).queue_log().push(Command::Publish(p)),
            r != Ok::<LogOutcome, SinkError>(LogOutcome::Enqueued) ==> final(self).queue_log()
                == old(self).queue_log(),
    {
        if !self.enabled(record.level) {
            return Ok(LogOutcome::Skipped);
        }
        match formatter.format(&self.config, record) {
            Ok(data) => self.submit_formatted(&data),
            Err(_) => Ok(LogOutcome::FormatFailed),
        }
    }

    /// The shutdown order: accepted once. The first call enqueues
    /// `Shutdown` and marks the worker handed over; any further call
    /// reports the teardown already done, a lifecycle fault in the
    /// caller. The embedding joins the worker thread after an `Ok`.
    pub fn shutdown(&mut self) -> (r: Result<(), SinkError>)
        ensures
            old(self).same_identity(*final(self)),
            r == Err::<(), SinkError>(SinkError::AlreadyShutDown) <==> !old(self).live(),
            r is Ok ==> !final(self).live() && final(self).queue_log() == old(self).queue_log().push(Command::Shutdown),
            r == Err::<(), SinkError>(SinkError::QueueDown) ==> final(self).live()
                && final(self).queue_log() == old(self).queue_log(),
            r == Err::<(), SinkError>(SinkError::AlreadyShutDown) ==> !final(self).live()
                && final(self).queue_log() == old(self).queue_log(),
            r != Err::<(), SinkError>(SinkError::MalformedPayload),
    {
        if !self.worker_live {
            return Err(SinkError::AlreadyShutDown);
        }
        match self.send_command(Command::Shutdown) {
            Ok(()) => {
                self.worker_live = false;
                Ok(())
            },
            Err(e) => Err(e),
        }
    }

    /// Intentionally a no-op: the design offers no synchronous drain, and
    /// flushing is only approximated by a full shutdown.
    pub fn flush(&self) {
    }

    /// Read accessor for the configured threshold, for a composing host.
    pub fn level(&self) -> (r: LevelFilter)
        ensures
            r == self.configured_level(),
    {
        self.log_level
    }

    /// Read accessor for the forwarded formatting options.
    pub fn config(&self) -> (r: &Config)
        ensures
            *r == self.config_spec(),
    {
        &self.config
    }

    /// The topic the worker publishes under.
    pub fn topic(&self) -> (r: &String)
        ensures
            r@ == self.topic_view(),
    {
        &self.topic
    }

    /// Whether the shutdown path has not yet run.
    pub fn is_live(&self) -> (r: bool)
        ensures
            r == self.live(),
    {
        self.worker_live
    }
}

} // verus!
