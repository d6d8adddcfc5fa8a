use mqttlog::command::Command;
use mqttlog::worker::{
    process_batch, step, stop_is_fatal, StopCause, WorkerAction, WorkerEvent, WorkerState,
};

fn publish(m: &str) -> Command {
    Command::Publish(String::from(m))
}

#[test]
fn step_connect_success_enters_running() {
    let (s, a) = step(WorkerState::Connecting, WorkerEvent::ConnectionEstablished);
    assert_eq!(s, WorkerState::Running);
    assert_eq!(a, WorkerAction::Wait);
}

#[test]
fn step_connect_refused_stops_silently() {
    let (s, a) = step(WorkerState::Connecting, WorkerEvent::ConnectionRefused);
    assert_eq!(s, WorkerState::Stopped(StopCause::ConnectRefused));
    assert_eq!(a, WorkerAction::Halt);
    assert!(!stop_is_fatal(StopCause::ConnectRefused));
}

#[test]
fn step_publish_command_orders_publish() {
    let (s, a) = step(
        WorkerState::Running,
        WorkerEvent::CommandArrived(publish("payload")),
    );
    assert_eq!(s, WorkerState::Running);
    assert_eq!(a, WorkerAction::Publish(String::from("payload")));
}

#[test]
fn step_shutdown_halts() {
    let (s, a) = step(
        WorkerState::Running,
        WorkerEvent::CommandArrived(Command::Shutdown),
    );
    assert_eq!(s, WorkerState::Stopped(StopCause::ShutdownReceived));
    assert_eq!(a, WorkerAction::Halt);
    assert!(!stop_is_fatal(StopCause::ShutdownReceived));
}

#[test]
fn step_publish_failure_is_fatal() {
    let (s, a) = step(WorkerState::Running, WorkerEvent::PublishFailed);
    assert_eq!(s, WorkerState::Stopped(StopCause::PublishFailed));
    assert_eq!(a, WorkerAction::Halt);
    assert!(stop_is_fatal(StopCause::PublishFailed));
}

#[test]
fn step_queue_dropped_stops_quietly() {
    let (s, a) = step(WorkerState::Running, WorkerEvent::QueueDropped);
    assert_eq!(s, WorkerState::Stopped(StopCause::QueueClosed));
    assert_eq!(a, WorkerAction::Halt);
    assert!(!stop_is_fatal(StopCause::QueueClosed));
}

#[test]
fn step_stopped_is_absorbing() {
    let stopped = WorkerState::Stopped(StopCause::ShutdownReceived);
    let events = [
        WorkerEvent::ConnectionEstablished,
        WorkerEvent::CommandArrived(publish("late")),
        WorkerEvent::PublishSucceeded,
        WorkerEvent::QueueDropped,
    ];
    for e in events {
        let (s, a) = step(stopped, e);
        assert_eq!(s, stopped);
        assert_eq!(a, WorkerAction::Halt);
    }
}

#[test]
fn process_batch_all_publishes() {
    let cmds = vec![publish("a"), publish("b"), publish("c")];
    assert_eq!(
        process_batch(&cmds),
        vec![String::from("a"), String::from("b"), String::from("c")]
    );
}

#[test]
fn process_batch_stops_at_shutdown() {
    let cmds = vec![
        publish("before"),
        Command::Shutdown,
        publish("after"),
        Command::Shutdown,
    ];
    assert_eq!(process_batch(&cmds), vec![String::from("before")]);
}

#[test]
fn process_batch_empty() {
    assert!(process_batch(&Vec::new()).is_empty());
}

#[test]
fn process_batch_interleaved_producers() {
    // Three producers of four messages each, interleaved as a queue might
    // linearize them: all twelve appear, each producer's in its order.
    let mut cmds = Vec::new();
    for round in 0..4 {
        for producer in 0..3 {
            cmds.push(publish(&format!("p{producer}-m{round}")));
        }
    }
    cmds.push(Command::Shutdown);
    let published = process_batch(&cmds);
    assert_eq!(published.len(), 12);
    for producer in 0..3 {
        let own: Vec<&String> = published
            .iter()
            .filter(|m| m.starts_with(&format!("p{producer}-")))
            .collect();
        let expected: Vec<String> = (0..4).map(|r| format!("p{producer}-m{r}")).collect();
        assert_eq!(own.len(), 4);
        for (got, want) in own.iter().zip(expected.iter()) {
            assert_eq!(*got, want);
        }
    }
}
