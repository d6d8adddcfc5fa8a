use crossbeam_channel::Receiver;
use mqttlog::command::Command;
use mqttlog::errors::SinkError;
use mqttlog::format::{Config, FormatError, Formatter, Record};
use mqttlog::level::{enabled_at, filter_for, Level, LevelFilter};
use mqttlog::sink::{LogOutcome, Sink};
use mqttlog::worker::process_batch;

/// A formatter that always hands back the same bytes.
struct FixedFormatter {
    out: Vec<u8>,
}

impl Formatter for FixedFormatter {
    fn format(&self, _config: &Config, _record: &Record) -> Result<Vec<u8>, FormatError> {
        Ok(self.out.clone())
    }
}

/// A formatter that emits the record's message, with a trailing newline
/// as a text formatter would.
struct MessageFormatter;

impl Formatter for MessageFormatter {
    fn format(&self, _config: &Config, record: &Record) -> Result<Vec<u8>, FormatError> {
        let mut out = record.message.as_bytes().to_vec();
        out.push(b'\n');
        Ok(out)
    }
}

/// A formatter that always fails.
struct FailingFormatter;

impl Formatter for FailingFormatter {
    fn format(&self, _config: &Config, _record: &Record) -> Result<Vec<u8>, FormatError> {
        Err(FormatError {})
    }
}

fn record(level: Level, message: &str) -> Record {
    Record {
        level,
        target: String::from("test"),
        message: String::from(message),
    }
}

fn drain(rx: &Receiver<Command>) -> Vec<Command> {
    let mut out = Vec::new();
    while let Ok(cmd) = rx.try_recv() {
        out.push(cmd);
    }
    out
}

#[test]
fn enabled_threshold_boundaries() {
    let (sink, _rx) = Sink::new(LevelFilter::Info, Config::default(), "app");
    assert!(sink.enabled(Level::Error));
    assert!(sink.enabled(Level::Warn));
    assert!(sink.enabled(Level::Info));
    assert!(!sink.enabled(Level::Debug));
    assert!(!sink.enabled(Level::Trace));
}

#[test]
fn filter_off_rejects_everything() {
    assert!(!enabled_at(Level::Error, LevelFilter::Off));
    assert!(!enabled_at(Level::Trace, LevelFilter::Off));
}

#[test]
fn filter_for_matches_exact_level() {
    assert!(enabled_at(Level::Warn, filter_for(Level::Warn)));
    assert!(!enabled_at(Level::Info, filter_for(Level::Warn)));
}

#[test]
fn log_below_threshold_is_skipped() {
    let (mut sink, rx) = Sink::new(LevelFilter::Info, Config::default(), "app");
    let r = sink.log(&record(Level::Debug, "quiet"), &MessageFormatter);
    assert_eq!(r, Ok(LogOutcome::Skipped));
    assert!(drain(&rx).is_empty());
}

#[test]
fn empty_formatter_output_enqueues_nothing() {
    let (mut sink, rx) = Sink::new(LevelFilter::Info, Config::default(), "app");
    let empty = FixedFormatter { out: Vec::new() };
    let r = sink.log(&record(Level::Info, "anything"), &empty);
    assert_eq!(r, Ok(LogOutcome::EmptyPayload));
    assert!(drain(&rx).is_empty());
}

#[test]
fn format_error_drops_record() {
    let (mut sink, rx) = Sink::new(LevelFilter::Info, Config::default(), "app");
    let r = sink.log(&record(Level::Info, "anything"), &FailingFormatter);
    assert_eq!(r, Ok(LogOutcome::FormatFailed));
    assert!(drain(&rx).is_empty());
}

#[test]
fn formatted_payload_is_trimmed() {
    let (mut sink, rx) = Sink::new(LevelFilter::Info, Config::default(), "app");
    let f = FixedFormatter {
        out: b"hello  \t\n".to_vec(),
    };
    let r = sink.log(&record(Level::Info, "x"), &f);
    assert_eq!(r, Ok(LogOutcome::Enqueued));
    let got = drain(&rx);
    assert_eq!(got, vec![Command::Publish(String::from("hello"))]);
}

#[test]
fn whitespace_only_payload_is_sent_empty() {
    let (mut sink, rx) = Sink::new(LevelFilter::Info, Config::default(), "app");
    let f = FixedFormatter {
        out: b"  \n".to_vec(),
    };
    let r = sink.log(&record(Level::Info, "x"), &f);
    assert_eq!(r, Ok(LogOutcome::Enqueued));
    assert_eq!(drain(&rx), vec![Command::Publish(String::new())]);
}

#[test]
fn malformed_payload_is_fatal() {
    let (mut sink, rx) = Sink::new(LevelFilter::Info, Config::default(), "app");
    let bad = FixedFormatter {
        out: vec![0xff, 0xfe, b'a'],
    };
    let r = sink.log(&record(Level::Info, "x"), &bad);
    assert_eq!(r, Err(SinkError::MalformedPayload));
    assert!(drain(&rx).is_empty());
}

#[test]
fn submit_formatted_direct_path() {
    let (mut sink, rx) = Sink::new(LevelFilter::Info, Config::default(), "app");
    assert_eq!(
        sink.submit_formatted(&Vec::new()),
        Ok(LogOutcome::EmptyPayload)
    );
    assert_eq!(
        sink.submit_formatted(&b"payload ".to_vec()),
        Ok(LogOutcome::Enqueued)
    );
    assert_eq!(
        sink.submit_formatted(&vec![0x80]),
        Err(SinkError::MalformedPayload)
    );
    assert_eq!(drain(&rx), vec![Command::Publish(String::from("payload"))]);
}

#[test]
fn queue_down_after_receiver_dropped() {
    let (mut sink, rx) = Sink::new(LevelFilter::Info, Config::default(), "app");
    drop(rx);
    let f = FixedFormatter {
        out: b"hello".to_vec(),
    };
    let r = sink.log(&record(Level::Info, "x"), &f);
    assert_eq!(r, Err(SinkError::QueueDown));
}

#[test]
fn shutdown_enqueues_shutdown_command() {
    let (mut sink, rx) = Sink::new(LevelFilter::Info, Config::default(), "app");
    assert!(sink.is_live());
    assert_eq!(sink.shutdown(), Ok(()));
    assert!(!sink.is_live());
    assert_eq!(drain(&rx), vec![Command::Shutdown]);
}

#[test]
fn double_shutdown_is_fatal() {
    let (mut sink, _rx) = Sink::new(LevelFilter::Info, Config::default(), "app");
    assert_eq!(sink.shutdown(), Ok(()));
    assert_eq!(sink.shutdown(), Err(SinkError::AlreadyShutDown));
    assert_eq!(sink.shutdown(), Err(SinkError::AlreadyShutDown));
}

#[test]
fn sequential_messages_arrive_in_order() {
    let (mut sink, rx) = Sink::new(LevelFilter::Trace, Config::default(), "app");
    let messages = ["one", "two", "three", "four", "five"];
    for m in messages.iter() {
        let r = sink.log(&record(Level::Info, m), &MessageFormatter);
        assert_eq!(r, Ok(LogOutcome::Enqueued));
    }
    assert_eq!(sink.shutdown(), Ok(()));
    let cmds = drain(&rx);
    assert_eq!(cmds.len(), 6);
    let published = process_batch(&cmds);
    let expected: Vec<String> = messages.iter().map(|m| String::from(*m)).collect();
    assert_eq!(published, expected);
}

#[test]
fn end_to_end_hello() {
    let (mut sink, rx) = Sink::new(LevelFilter::Info, Config::default(), "app");
    assert_eq!(sink.topic(), "logging/app");
    assert_eq!(
        sink.log(&record(Level::Info, "hello"), &MessageFormatter),
        Ok(LogOutcome::Enqueued)
    );
    assert_eq!(
        sink.log(&record(Level::Debug, "unseen"), &MessageFormatter),
        Ok(LogOutcome::Skipped)
    );
    let cmds = drain(&rx);
    let published = process_batch(&cmds);
    let recorded: Vec<(String, String)> = published
        .into_iter()
        .map(|p| (sink.topic().clone(), p))
        .collect();
    assert_eq!(
        recorded,
        vec![(String::from("logging/app"), String::from("hello"))]
    );
}

#[test]
fn flush_is_a_no_op() {
    let (mut sink, rx) = Sink::new(LevelFilter::Info, Config::default(), "app");
    let f = FixedFormatter {
        out: b"kept".to_vec(),
    };
    assert_eq!(sink.log(&record(Level::Info, "x"), &f), Ok(LogOutcome::Enqueued));
    sink.flush();
    assert_eq!(drain(&rx), vec![Command::Publish(String::from("kept"))]);
}

#[test]
fn accessors_return_configuration() {
    let (sink, _rx) = Sink::new(LevelFilter::Warn, Config::default(), "svc");
    assert_eq!(sink.level(), LevelFilter::Warn);
    assert_eq!(*sink.config(), Config::default());
    assert_eq!(sink.topic(), "logging/svc");
}
