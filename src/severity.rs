use vstd::prelude::*;

verus! {

/// How severe a log record is, from the least to the most severe.
#[derive(Clone, Copy, Debug, PartialEq, Eq, Structural)]
pub enum Severity {
    Trace,
    Debug,
    Info,
    Warn,
    Error,
}

/// The most verbose severity that a sink still accepts, or `Off`.
#[derive(Clone, Copy, Debug, PartialEq, Eq, Structural)]
pub enum Threshold {
    Off,
    Error,
    Warn,
    Info,
    Debug,
    Trace,
}

/// The severity of a breadcrumb as the remote collection service knows it.
#[derive(Clone, Copy, Debug, PartialEq, Eq, Structural)]
pub enum RemoteLevel {
    Debug,
    Info,
    Warning,
    Error,
}

/// Verbosity rank of a severity: the larger, the more verbose.
pub open spec fn severity_rank(s: Severity) -> int {
    match s {
        Severity::Error => 1,
        Severity::Warn => 2,
        Severity::Info => 3,
        Severity::Debug => 4,
        Severity::Trace => 5,
    }
}

/// Verbosity rank of a threshold: a record passes when its rank is at most this.
pub open spec fn threshold_rank(t: Threshold) -> int {
    match t {
        Threshold::Off => 0,
        Threshold::Error => 1,
        Threshold::Warn => 2,
        Threshold::Info => 3,
        Threshold::Debug => 4,
        Threshold::Trace => 5,
    }
}

pub open spec fn spec_passes(s: Severity, t: Threshold) -> bool {
    severity_rank(s) <= threshold_rank(t)
}

/// The threshold that admits exactly the given severity and those more severe.
pub open spec fn spec_threshold_of(s: Severity) -> Threshold {
    match s {
        Severity::Error => Threshold::Error,
        Severity::Warn => Threshold::Warn,
        Severity::Info => Threshold::Info,
        Severity::Debug => Threshold::Debug,
        Severity::Trace => Threshold::Trace,
    }
}

pub open spec fn spec_remote_level(s: Severity) -> RemoteLevel {
    match s {
        Severity::Trace | Severity::Debug => RemoteLevel::Debug,
        Severity::Info => RemoteLevel::Info,
        Severity::Warn => RemoteLevel::Warning,
        Severity::Error => RemoteLevel::Error,
    }
}

/// The fixed threshold of the breadcrumb sink: everything but trace records.
pub const REMOTE_THRESHOLD: Threshold = Threshold::Debug;

/// Whether a sink with threshold `t` accepts a record of severity `s`.
pub fn passes(s: Severity, t: Threshold) -> (r: bool)
    ensures
        r == spec_passes(s, t),
{
    let rank: u8 = match s {
        Severity::Error => 1,
        Severity::Warn => 2,
        Severity::Info => 3,
        Severity::Debug => 4,
        Severity::Trace => 5,
    };
    let limit: u8 = match t {
        Threshold::Off => 0,
        Threshold::Error => 1,
        Threshold::Warn => 2,
        Threshold::Info => 3,
        Threshold::Debug => 4,
        Threshold::Trace => 5,
    };
    rank <= limit
}

/// The threshold that admits `s` and every more severe record.
pub fn threshold_of(s: Severity) -> (r: Threshold)
    ensures
        r == spec_threshold_of(s),
{
    match s {
        Severity::Error => Threshold::Error,
        Severity::Warn => Threshold::Warn,
        Severity::Info => Threshold::Info,
        Severity::Debug => Threshold::Debug,
        Severity::Trace => Threshold::Trace,
    }
}

/// The console threshold before any override: the configured severity, else warnings.
pub fn console_threshold(configured: Option<Severity>) -> (r: Threshold)
    ensures
        r == match configured {
            Some(s) => spec_threshold_of(s),
            None => Threshold::Warn,
        },
{
    match configured {
        Some(s) => threshold_of(s),
        None => Threshold::Warn,
    }
}

/// The remote severity of a breadcrumb made from a record of severity `s`.
pub fn remote_level(s: Severity) -> (r: RemoteLevel)
    ensures
        r == spec_remote_level(s),
{
    match s {
        Severity::Trace => RemoteLevel::Debug,
        Severity::Debug => RemoteLevel::Debug,
        Severity::Info => RemoteLevel::Info,
        Severity::Warn => RemoteLevel::Warning,
        Severity::Error => RemoteLevel::Error,
    }
}

} // verus!
