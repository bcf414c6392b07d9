//! Certificate validity period in seconds since the Unix epoch.
use vstd::prelude::*;

verus! {

/// Seconds by which a freshly issued certificate is backdated.
pub const BACKDATE_SECONDS: u64 = 600;

/// The instant ten minutes before `now` (the epoch when `now` is earlier).
pub open spec fn backdated(now: u64) -> u64 {
    if now >= BACKDATE_SECONDS { (now - BACKDATE_SECONDS) as u64 } else { 0 }
}

/// Certificate validity: `not_before` and `not_after` in Unix epoch seconds.
#[derive(Debug, Clone, Copy, PartialEq, Eq, Structural)]
pub struct Validity {
    pub not_before_epoch_seconds: u64,
    pub not_after_epoch_seconds: u64,
}

impl Validity {
    /// Return a new instance.
    pub fn new(not_before: u64, not_after: u64) -> (r: Self)
        ensures
            r.not_before_epoch_seconds == not_before,
            r.not_after_epoch_seconds == not_after,
    {
        Validity { not_before_epoch_seconds: not_before, not_after_epoch_seconds: not_after }
    }

    /// Return a new instance whose `not_before` lies ten minutes before `now`
    /// (or at the epoch, when `now` is earlier than that).
    pub fn with_backdated_not_before(now: u64, not_after: u64) -> (r: Self)
        ensures
            r.not_before_epoch_seconds == if now >= BACKDATE_SECONDS { now - BACKDATE_SECONDS } else { 0 },
            r.not_after_epoch_seconds == not_after,
    {
        let not_before = if now >= BACKDATE_SECONDS { now - BACKDATE_SECONDS } else { 0 };
        Self::new(not_before, not_after)
    }

    /// Return a new instance whose `not_before` lies ten minutes before the
    /// current time.
    pub fn with_backdated_not_before_now(not_after: u64) -> (r: Self)
        ensures
            r.not_after_epoch_seconds == not_after,
    {
        Self::with_backdated_not_before(Self::now_epoch_seconds(), not_after)
    }

    /// Return the current time as seconds since the epoch (0 for a clock set
    /// before the epoch).
    pub fn now_epoch_seconds() -> (r: u64) {
        let t = utc_now_timestamp();
        if t < 0 {
            0
        } else {
            t as u64
        }
    }

    /// Return `not_before` in epoch seconds.
    pub fn get_not_before(&self) -> (r: u64)
        ensures
            r == self.not_before_epoch_seconds,
    {
        self.not_before_epoch_seconds
    }

    /// Return `not_after` in epoch seconds.
    pub fn get_not_after(&self) -> (r: u64)
        ensures
            r == self.not_after_epoch_seconds,
    {
        self.not_after_epoch_seconds
    }

    /// `true` when `t` lies within the closed interval.
    pub open spec fn spec_valid_at(&self, t: u64) -> bool {
        self.not_before_epoch_seconds <= t <= self.not_after_epoch_seconds
    }

    /// Return `true` if the period covers `point_in_time_epoch_seconds`, both
    /// ends included.
    pub fn is_valid_at(&self, point_in_time_epoch_seconds: u64) -> (r: bool)
        ensures
            r == self.spec_valid_at(point_in_time_epoch_seconds),
    {
        if point_in_time_epoch_seconds > self.not_after_epoch_seconds {
            return false;
        }
        if point_in_time_epoch_seconds < self.not_before_epoch_seconds {
            return false;
        }
        true
    }
}

/// Relies on chrono::Utc::now and DateTime::timestamp: the current time in
/// whole seconds since the epoch.
#[verifier::external_body]
fn utc_now_timestamp() -> (r: i64) {
    chrono::Utc::now().timestamp()
}

} // verus!
