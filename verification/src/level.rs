use vstd::prelude::*;

verus! {

/// Severity of a single log record, from most severe (`Error`) to most
/// verbose (`Trace`).
#[derive(Clone, Copy, Debug, PartialEq, Eq, Structural)]
pub enum Level {
    Error,
    Warn,
    Info,
    Debug,
    Trace,
}

/// Threshold a sink is configured with: `Off` accepts nothing, otherwise
/// every record at least as severe as the named level is accepted.
#[derive(Clone, Copy, Debug, PartialEq, Eq, Structural)]
pub enum LevelFilter {
    Off,
    Error,
    Warn,
    Info,
    Debug,
    Trace,
}

/// Rank of a record level: smaller means more severe.
pub open spec fn level_rank(l: Level) -> int {
    match l {
        Level::Error => 1,
        Level::Warn => 2,
        Level::Info => 3,
        Level::Debug => 4,
        Level::Trace => 5,
    }
}

/// Rank of a threshold; `Off` sits below every record level.
pub open spec fn filter_rank(f: LevelFilter) -> int {
    match f {
        LevelFilter::Off => 0,
        LevelFilter::Error => 1,
        LevelFilter::Warn => 2,
        LevelFilter::Info => 3,
        LevelFilter::Debug => 4,
        LevelFilter::Trace => 5,
    }
}

/// A record at `l` passes a sink configured at `f` exactly when its rank
/// does not exceed the threshold's rank.
pub open spec fn level_enabled(l: Level, f: LevelFilter) -> bool {
    level_rank(l) <= filter_rank(f)
}

fn rank_of_level(l: Level) -> (r: u8)
    ensures
        r as int == level_rank(l),
{
    match l {
        Level::Error => 1,
        Level::Warn => 2,
        Level::Info => 3,
        Level::Debug => 4,
        Level::Trace => 5,
    }
}

fn rank_of_filter(f: LevelFilter) -> (r: u8)
    ensures
        r as int == filter_rank(f),
{
    match f {
        LevelFilter::Off => 0,
        LevelFilter::Error => 1,
        LevelFilter::Warn => 2,
        LevelFilter::Info => 3,
        LevelFilter::Debug => 4,
        LevelFilter::Trace => 5,
    }
}

/// Runtime gate mirroring `level_enabled`.
pub fn enabled_at(l: Level, f: LevelFilter) -> (r: bool)
    ensures
        r == level_enabled(l, f),
{
    let lr: u8 = rank_of_level(l);
    let fr: u8 = rank_of_filter(f);
    lr <= fr
}

/// The threshold that admits exactly the records at least as severe as `l`.
pub open spec fn filter_of(l: Level) -> LevelFilter {
    match l {
        Level::Error => LevelFilter::Error,
        Level::Warn => LevelFilter::Warn,
        Level::Info => LevelFilter::Info,
        Level::Debug => LevelFilter::Debug,
        Level::Trace => LevelFilter::Trace,
    }
}

/// Runtime counterpart of `filter_of`.
pub fn filter_for(l: Level) -> (r: LevelFilter)
    ensures
        r == filter_of(l),
{
    match l {
        Level::Error => LevelFilter::Error,
        Level::Warn => LevelFilter::Warn,
        Level::Info => LevelFilter::Info,
        Level::Debug => LevelFilter::Debug,
        Level::Trace => LevelFilter::Trace,
    }
}

/// Law: with the sink configured at `threshold`, a record is accepted
/// exactly when it is at least as severe as that threshold; the record at
/// the exact threshold is accepted, and anything strictly less severe is
/// rejected.
pub proof fn lemma_enabled_threshold(threshold: Level, record: Level)
    ensures
        level_enabled(record, filter_of(threshold)) <==> level_rank(record) <= level_rank(
            threshold,
        ),
        level_enabled(threshold, filter_of(threshold)),
        level_rank(record) > level_rank(threshold) ==> !level_enabled(
            record,
            filter_of(threshold),
        ),
{
}

} // verus!
