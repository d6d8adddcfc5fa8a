use vstd::prelude::*;
use crate::command::Command;

verus! {

#[verifier::external_type_specification]
#[verifier::external_body]
#[verifier::reject_recursive_types(T)]
pub struct ExSender<T>(crossbeam_channel::Sender<T>);

#[verifier::external_type_specification]
#[verifier::external_body]
#[verifier::reject_recursive_types(T)]
pub struct ExReceiver<T>(crossbeam_channel::Receiver<T>);

/// Relies on crossbeam_channel::unbounded: the two endpoints of a fresh
/// unbounded multi-producer queue. What later flows through it is shared
/// with other threads, so nothing is stated of the endpoints themselves;
/// the sink keeps its own ghost log of what it sent.
#[verifier::external_body]
pub(crate) fn new_queue() -> (r: (
    crossbeam_channel::Sender<Command>,
    crossbeam_channel::Receiver<Command>,
))
{
    crossbeam_channel::unbounded()
}

/// Relies on crossbeam_channel::Sender::send: on an unbounded queue it
/// never blocks, it fails exactly when the receiving side is gone, and a
/// failure hands the message back (the field of `SendError`).
#[verifier::external_body]
pub(crate) fn queue_send(sender: &crossbeam_channel::Sender<Command>, cmd: Command) -> (r: Result<
    (),
    Command,
>)
    ensures
        r matches Err(c) ==> c == cmd,
{
    sender.send(cmd).map_err(|e| e.0)
}

} // verus!
