use vstd::prelude::*;

verus! {

/// One message on the command queue between the sink and its worker:
/// either a payload to publish, or the order to stop.
#[derive(Clone, Debug, PartialEq, Eq)]
pub enum Command {
    Publish(String),
    Shutdown,
}

impl Command {
    /// The payload a `Publish` command carries, as a character sequence;
    /// meaningless for `Shutdown`.
    pub open spec fn payload_view(self) -> Seq<char> {
        match self {
            Command::Publish(p) => p@,
            Command::Shutdown => Seq::empty(),
        }
    }
}

} // verus!
