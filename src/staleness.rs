//! Whether a compiled artifact is older than its source.

use vstd::prelude::*;

verus! {

/// Nanoseconds in one second.
pub const NANOS_PER_SEC: i128 = 1_000_000_000;

/// A modification time, as signed nanoseconds from the Unix epoch.
#[derive(Clone, Copy, Debug, PartialEq, Eq, Structural)]
pub struct Timestamp {
    pub nanos: i128,
}

impl Timestamp {
    /// The time `secs` seconds and `subsec_nanos` nanoseconds after the epoch.
    pub fn after_epoch(secs: u64, subsec_nanos: u32) -> (r: Timestamp)
        ensures
            r.nanos == secs * NANOS_PER_SEC + subsec_nanos,
    {
        assert(0 <= secs * NANOS_PER_SEC <= 0xffff_ffff_ffff_ffff * NANOS_PER_SEC)
            by (nonlinear_arith);
        Timestamp { nanos: secs as i128 * NANOS_PER_SEC + subsec_nanos as i128 }
    }

    /// The time `secs` seconds and `subsec_nanos` nanoseconds before the epoch.
    pub fn before_epoch(secs: u64, subsec_nanos: u32) -> (r: Timestamp)
        ensures
            r.nanos == -(secs * NANOS_PER_SEC + subsec_nanos),
    {
        assert(0 <= secs * NANOS_PER_SEC <= 0xffff_ffff_ffff_ffff * NANOS_PER_SEC)
            by (nonlinear_arith);
        Timestamp { nanos: -(secs as i128 * NANOS_PER_SEC + subsec_nanos as i128) }
    }

    /// Whether `self` is strictly earlier than `other`.
    pub fn is_before(&self, other: &Timestamp) -> (r: bool)
        ensures
            r == (self.nanos < other.nanos),
    {
        self.nanos < other.nanos
    }
}

/// A target is stale unless both times are known and the target's is not
/// strictly earlier than the source's: an unknown time asks for a rebuild.
pub open spec fn is_stale(target: Option<Timestamp>, source: Option<Timestamp>) -> bool {
    match (target, source) {
        (Some(t), Some(s)) => t.nanos < s.nanos,
        _ => true,
    }
}

/// Decides from the modification times of a target and of its source (`None`
/// where the time could not be read) whether the target must be rebuilt.
pub fn needs_rebuild(target: Option<Timestamp>, source: Option<Timestamp>) -> (r: bool)
    ensures
        r == is_stale(target, source),
        target is None ==> r,
        source is None ==> r,
        target is Some && source is Some ==> (r <==> target->0.nanos < source->0.nanos),
{
    match target {
        None => true,
        Some(t) => match source {
            None => true,
            Some(s) => t.is_before(&s),
        },
    }
}

} // verus!
