use vstd::prelude::*;
use crate::level::Level;

verus! {

/// Formatting options owned by the host and handed through, unread, to the
/// formatter collaborator. The sink itself never interprets it.
#[derive(Clone, Copy, Debug, PartialEq, Eq, Structural)]
pub struct Config {}

impl Default for Config {
    fn default() -> (r: Config)
        ensures
            r == (Config {  }),
    {
        Config {  }
    }
}

/// One log record as the sink sees it: the severity used for gating, and
/// the fields the formatter collaborator may read.
#[derive(Clone, Debug)]
pub struct Record {
    pub level: Level,
    pub target: String,
    pub message: String,
}

/// Failure reported by the formatter collaborator; a record whose
/// formatting fails is skipped, never enqueued.
#[derive(Clone, Copy, Debug, PartialEq, Eq, Structural)]
pub struct FormatError {}

/// The formatter collaborator: turns a record, under the given options,
/// into the bytes to publish. Record formatting is the host's business;
/// the sink only gates, trims and enqueues what comes back, so the trait
/// promises nothing about the bytes.
pub trait Formatter {
    fn format(&self, config: &Config, record: &Record) -> Result<Vec<u8>, FormatError>;
}

} // verus!
