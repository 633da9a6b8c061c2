use vstd::prelude::*;

use crate::roles::RoleChange;

verus! {

pub const SECONDS_PER_DAY: i64 = 86400;

/// Hour of the day (UTC) at which a parental timeout ends.
pub const WAKE_HOUR: i64 = 6;

/// What a parental-control request comes to.
#[derive(Clone, Copy, Debug, PartialEq, Eq, Structural)]
pub enum ParentalDecision {
    /// the author may not change the target's parental control
    Denied,
    /// the parental-control role is to be added or removed
    Apply(RoleChange),
}

/// A member may toggle another's parental control only when their highest
/// role stands strictly above the target's and they may manage roles; the
/// role is then removed from a target who holds it and added otherwise.
pub fn parental_decision(
    author_pos: u16,
    target_pos: u16,
    author_manages_roles: bool,
    target_holds_role: bool,
) -> (r: ParentalDecision)
    ensures
        r == (if author_pos <= target_pos || !author_manages_roles {
            ParentalDecision::Denied
        } else if target_holds_role {
            ParentalDecision::Apply(RoleChange::Remove)
        } else {
            ParentalDecision::Apply(RoleChange::Add)
        }),
{
    if author_pos <= target_pos || !author_manages_roles {
        ParentalDecision::Denied
    } else if target_holds_role {
        ParentalDecision::Apply(RoleChange::Remove)
    } else {
        ParentalDecision::Apply(RoleChange::Add)
    }
}

/// Start of the UTC day holding the instant `secs` (seconds since the epoch).
pub open spec fn day_start(secs: int) -> int {
    secs - secs % SECONDS_PER_DAY as int
}

/// The instant at which a parental timeout that begins at `now` ends: the
/// next 06:00:00 UTC, today's if `now` is not past it, else tomorrow's.
/// `now` is `now_secs` seconds and `now_nanos` nanoseconds after the epoch.
pub open spec fn wake_time(now_secs: int, now_nanos: int) -> int {
    let planned = day_start(now_secs) + WAKE_HOUR * 3600;
    if now_secs > planned || (now_secs == planned && now_nanos > 0) {
        planned + SECONDS_PER_DAY
    } else {
        planned
    }
}

/// The end of a parental timeout begun at the given instant, in seconds
/// since the epoch.
pub fn parental_timeout(now_secs: i64, now_nanos: u32) -> (r: i64)
    requires
        i64::MIN + 2 * SECONDS_PER_DAY <= now_secs <= i64::MAX - 2 * SECONDS_PER_DAY,
    ensures
        r == wake_time(now_secs as int, now_nanos as int),
{
    let rem = now_secs % SECONDS_PER_DAY;
    let rem = if rem < 0 {
        rem + SECONDS_PER_DAY
    } else {
        rem
    };
    assert(rem == (now_secs as int) % (SECONDS_PER_DAY as int));
    let planned = now_secs - rem + WAKE_HOUR * 3600;
    if now_secs > planned || (now_secs == planned && now_nanos > 0) {
        planned + SECONDS_PER_DAY
    } else {
        planned
    }
}

} // verus!
