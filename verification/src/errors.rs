use vstd::prelude::*;

verus! {

/// The fatal conditions of the sink, surfaced as explicit values; the
/// embedding decides whether each one aborts or degrades.
#[derive(Clone, Copy, Debug, PartialEq, Eq, Structural)]
pub enum SinkError {
    /// The formatter produced bytes that are not text.
    MalformedPayload,
    /// The consumer end of the command queue is gone: the sink was used
    /// after its worker was torn down.
    QueueDown,
    /// The shutdown path ran a second time on the same sink.
    AlreadyShutDown,
}

} // verus!
