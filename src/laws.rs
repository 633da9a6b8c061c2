use vstd::prelude::*;

use crate::models::VcpingSettings;
use crate::presence::{elapsed, GateScope, PresenceView};
use crate::processor::{
    accrual, destination, notification_for, sessions_after, transition, view_after, Transition,
    VoiceTransitionEvent,
};

verus! {

/// Seconds recorded by the session store while the events, each with the
/// instant at which it is processed, run over `sessions` in order.
pub open spec fn accrued_total(sessions: Map<u64, u64>, evs: Seq<(VoiceTransitionEvent, u64)>) -> int
    decreases evs.len(),
{
    if evs.len() == 0 {
        0
    } else {
        let (ev, now) = evs[0];
        let here: int = match accrual(sessions, ev, now) {
            Some(inc) => inc.seconds as int,
            None => 0,
        };
        here + accrued_total(sessions_after(sessions, ev, now), evs.drop_first())
    }
}

/// Wall-clock time between each join and the leave that follows it, in a
/// sequence that alternates join, leave, join, leave, ...
pub open spec fn paired_elapsed(evs: Seq<(VoiceTransitionEvent, u64)>) -> int
    decreases evs.len(),
{
    if evs.len() < 2 {
        0
    } else {
        (evs[1].1 as int) - (evs[0].1 as int) + paired_elapsed(evs.subrange(2, evs.len() as int))
    }
}

/// One user's presence history without redelivery: joins at even positions,
/// leaves at odd ones, instants non-decreasing.
pub open spec fn alternating_history(user: u64, evs: Seq<(VoiceTransitionEvent, u64)>) -> bool {
    &&& forall|i: int| 0 <= i < evs.len() ==> (#[trigger] evs[i]).0.user_id == user
    &&& forall|i: int| 0 <= i < evs.len() && i % 2 == 0 ==> (transition((#[trigger] evs[i]).0) matches Some(Transition::Join(_)))
    &&& forall|i: int| 0 <= i < evs.len() && i % 2 == 1 ==> (transition((#[trigger] evs[i]).0) matches Some(Transition::Leave(_)))
    &&& forall|i: int, j: int| 0 <= i <= j < evs.len() ==> (#[trigger] evs[i]).1 <= (#[trigger] evs[j]).1
}

/// For one user's joins and leaves, delivered once each, the time recorded
/// equals the sum of the spans between each join and the matching leave.
pub proof fn accrual_matches_presence(sessions: Map<u64, u64>, user: u64, evs: Seq<(VoiceTransitionEvent, u64)>)
    requires
        !sessions.contains_key(user),
        alternating_history(user, evs),
    ensures
        accrued_total(sessions, evs) == paired_elapsed(evs),
    decreases evs.len(),
{
    if evs.len() == 0 {
    } else if evs.len() == 1 {
        let (ev, now) = evs[0];
        assert(transition(ev) matches Some(Transition::Join(_)));
        let s1 = sessions_after(sessions, ev, now);
        assert(evs.drop_first().len() == 0);
        assert(accrued_total(s1, evs.drop_first()) == 0);
    } else {
        let (j, t0) = evs[0];
        let (l, t1) = evs[1];
        assert(transition(j) matches Some(Transition::Join(_)));
        assert(transition(l) matches Some(Transition::Leave(_)));
        assert(evs[0].1 <= evs[1].1);
        let s1 = sessions_after(sessions, j, t0);
        assert(s1 == sessions.insert(user, t0));
        let rest1 = evs.drop_first();
        assert(rest1[0] == evs[1]);
        let s2 = sessions_after(s1, l, t1);
        assert(s2 == s1.remove(user));
        assert(!s2.contains_key(user));
        let rest2 = rest1.drop_first();
        assert(rest2 == evs.subrange(2, evs.len() as int));
        assert(alternating_history(user, rest2)) by {
            assert forall|i: int| 0 <= i < rest2.len() implies (#[trigger] rest2[i]) == evs[i + 2] by {}
            assert forall|i: int| 0 <= i < rest2.len() && i % 2 == 0 implies (transition((#[trigger] rest2[i]).0) matches Some(Transition::Join(_))) by {
                assert(rest2[i] == evs[i + 2]);
                assert((i + 2) % 2 == 0);
            }
            assert forall|i: int| 0 <= i < rest2.len() && i % 2 == 1 implies (transition((#[trigger] rest2[i]).0) matches Some(Transition::Leave(_))) by {
                assert(rest2[i] == evs[i + 2]);
                assert((i + 2) % 2 == 1);
            }
            assert forall|i: int, k: int| 0 <= i <= k < rest2.len() implies (#[trigger] rest2[i]).1 <= (#[trigger] rest2[k]).1 by {
                assert(rest2[i] == evs[i + 2]);
                assert(rest2[k] == evs[k + 2]);
            }
        }
        accrual_matches_presence(s2, user, rest2);
        assert(accrual(sessions, j, t0) is None);
        assert(accrual(s1, l, t1) == Some(crate::processor::Increment {
            user_id: user,
            guild_id: l.guild_id,
            seconds: (t1 - t0) as u64,
        }));
        assert(accrued_total(s1, rest1) == (t1 - t0) + accrued_total(s2, rest2));
    }
}

/// A join delivered twice in immediate succession leaves one live session,
/// begun at the first delivery, and records nothing; a single leave after it
/// records that session once and leaves nothing to record a second time.
pub proof fn duplicate_join_absorbed(
    s: PresenceView,
    join: VoiceTransitionEvent,
    leave: VoiceTransitionEvent,
    settings: Option<VcpingSettings>,
    t1: u64,
    t2: u64,
    t3: u64,
)
    requires
        transition(join) matches Some(Transition::Join(_)),
        transition(leave) matches Some(Transition::Leave(_)),
        leave.user_id == join.user_id,
        !s.sessions.contains_key(join.user_id),
        t1 <= t3,
    ensures
        ({
            let u = join.user_id;
            let s1 = view_after(s, join, settings, t1);
            let s2 = view_after(s1, join, settings, t2);
            let s3 = view_after(s2, leave, settings, t3);
            &&& s2.sessions == s1.sessions
            &&& s2.sessions.contains_key(u) && s2.sessions[u] == t1
            &&& accrual(s.sessions, join, t1) is None
            &&& accrual(s1.sessions, join, t2) is None
            &&& accrual(s2.sessions, leave, t3) == Some(crate::processor::Increment {
                user_id: u,
                guild_id: leave.guild_id,
                seconds: (t3 - t1) as u64,
            })
            &&& !s3.sessions.contains_key(u)
            &&& accrual(s3.sessions, leave, t3) is None
        }),
{
}

/// Two arrivals in one channel less than the debounce window apart yield at
/// most one notification, whatever single event comes between them.
pub proof fn debounce_within_window(
    s: PresenceView,
    first: VoiceTransitionEvent,
    between: VoiceTransitionEvent,
    second: VoiceTransitionEvent,
    settings: Option<VcpingSettings>,
    t1: u64,
    tm: u64,
    t2: u64,
)
    requires
        destination(first) is Some,
        destination(second) == destination(first),
        t1 <= tm <= t2,
        (t2 as int) - (t1 as int) < s.debounce_window as int,
    ensures
        ({
            let s1 = view_after(s, first, settings, t1);
            let s2 = view_after(s1, between, settings, tm);
            notification_for(s, first, settings, t1) is None
                || notification_for(s2, second, settings, t2) is None
        }),
{
}

/// A lone arrival in a channel whose gates are open is announced; after a
/// leave, a second lone arrival at least the debounce window later is
/// announced too.
pub proof fn debounce_after_window(
    s: PresenceView,
    first: VoiceTransitionEvent,
    leave: VoiceTransitionEvent,
    second: VoiceTransitionEvent,
    settings: Option<VcpingSettings>,
    t1: u64,
    t2: u64,
    t3: u64,
)
    requires
        transition(first) matches Some(Transition::Join(_)),
        transition(leave) matches Some(Transition::Leave(_)),
        transition(second) matches Some(Transition::Join(_)),
        destination(second) == destination(first),
        second.user_id == first.user_id,
        first.occupant_count == 1,
        second.occupant_count == 1,
        settings is Some,
        !s.suppresses(GateScope::Channel(destination(first)->0), t1),
        !s.suppresses(GateScope::User(first.user_id), t1),
        (t3 as int) - (t1 as int) >= s.debounce_window as int,
    ensures
        ({
            let s1 = view_after(s, first, settings, t1);
            let s2 = view_after(s1, leave, settings, t2);
            &&& notification_for(s, first, settings, t1) is Some
            &&& notification_for(s2, second, settings, t3) is Some
        }),
{
}

/// An arrival in a channel that already holds two or more members is never
/// announced, whatever the gates hold.
pub proof fn occupied_channel_never_announced(
    s: PresenceView,
    ev: VoiceTransitionEvent,
    settings: Option<VcpingSettings>,
    now: u64,
)
    requires
        ev.occupant_count >= 2,
    ensures
        notification_for(s, ev, settings, now) is None,
        view_after(s, ev, settings, now).channel_gates == s.channel_gates,
        view_after(s, ev, settings, now).user_gates == s.user_gates,
{
}

/// In a guild without notification settings no event is announced.
pub proof fn unconfigured_guild_never_announced(s: PresenceView, ev: VoiceTransitionEvent, now: u64)
    ensures
        notification_for(s, ev, None, now) is None,
{
}

} // verus!
