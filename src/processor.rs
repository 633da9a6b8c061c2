use vstd::prelude::*;

use crate::models::VcpingSettings;
use crate::presence::{elapsed, GateScope, PresenceTracker, PresenceView};

verus! {

/// A change in one user's voice presence, as the gateway reports it, with the
/// occupancy of the current channel resolved at decision time.
#[derive(Clone, Copy, Debug, PartialEq, Eq, Structural)]
pub struct VoiceTransitionEvent {
    pub user_id: u64,
    pub guild_id: u64,
    pub previous_channel: Option<u64>,
    pub current_channel: Option<u64>,
    pub occupant_count: u64,
}

/// The kind of a presence change.
#[derive(Clone, Copy, Debug, PartialEq, Eq, Structural)]
pub enum Transition {
    Join(u64),
    Leave(u64),
    Move { from: u64, to: u64 },
}

/// A request to add `seconds` to a user's accumulated time in a guild.
#[derive(Clone, Copy, Debug, PartialEq, Eq, Structural)]
pub struct Increment {
    pub user_id: u64,
    pub guild_id: u64,
    pub seconds: u64,
}

/// A request to announce that `user_id` joined the empty voice channel
/// `voice_channel_id`, in the text channel `notify_channel_id`, mentioning
/// the role `notify_role_id`.
#[derive(Clone, Copy, Debug, PartialEq, Eq, Structural)]
pub struct Notification {
    pub notify_channel_id: i64,
    pub notify_role_id: i64,
    pub voice_channel_id: u64,
    pub user_id: u64,
}

/// What the caller has to do, outside the tracker's lock, after an event.
#[derive(Clone, Copy, Debug, PartialEq, Eq, Structural)]
pub struct Outcome {
    pub increment: Option<Increment>,
    pub notification: Option<Notification>,
}

/// The transition that a pair of channels describes; none where the channel
/// did not change (a mute or deafen toggle) or where both are absent.
pub open spec fn transition_of(previous: Option<u64>, current: Option<u64>) -> Option<Transition> {
    match (previous, current) {
        (None, Some(c)) => Some(Transition::Join(c)),
        (Some(p), None) => Some(Transition::Leave(p)),
        (Some(p), Some(c)) => if p != c {
            Some(Transition::Move { from: p, to: c })
        } else {
            None
        },
        (None, None) => None,
    }
}

pub open spec fn transition(ev: VoiceTransitionEvent) -> Option<Transition> {
    transition_of(ev.previous_channel, ev.current_channel)
}

/// Whether the event ends a presence: a leave, or a move out of a channel.
pub open spec fn ends_presence(ev: VoiceTransitionEvent) -> bool {
    match transition(ev) {
        Some(Transition::Leave(_)) | Some(Transition::Move { .. }) => true,
        _ => false,
    }
}

/// The channel that the event brings the user into, for a join or a move.
pub open spec fn destination(ev: VoiceTransitionEvent) -> Option<u64> {
    match transition(ev) {
        Some(Transition::Join(c)) => Some(c),
        Some(Transition::Move { to, .. }) => Some(to),
        _ => None,
    }
}

/// Live sessions after the event: a leave closes the user's session, a join
/// opens one unless it is already open, and a move restarts it at `now`.
pub open spec fn sessions_after(sessions: Map<u64, u64>, ev: VoiceTransitionEvent, now: u64) -> Map<u64, u64> {
    let u = ev.user_id;
    match transition(ev) {
        Some(Transition::Join(_)) => if sessions.contains_key(u) {
            sessions
        } else {
            sessions.insert(u, now)
        },
        Some(Transition::Leave(_)) => sessions.remove(u),
        Some(Transition::Move { .. }) => sessions.remove(u).insert(u, now),
        None => sessions,
    }
}

/// The time to record for the event: the length of the session that it
/// closes, if the user had one.
pub open spec fn accrual(sessions: Map<u64, u64>, ev: VoiceTransitionEvent, now: u64) -> Option<Increment> {
    if ends_presence(ev) && sessions.contains_key(ev.user_id) {
        Some(Increment {
            user_id: ev.user_id,
            guild_id: ev.guild_id,
            seconds: elapsed(sessions[ev.user_id], now),
        })
    } else {
        None
    }
}

/// Whether the event reaches the rate limiter: the user arrived alone in a
/// channel of a guild that has notification settings.
pub open spec fn reaches_gates(ev: VoiceTransitionEvent, settings: Option<VcpingSettings>) -> bool {
    destination(ev) is Some && ev.occupant_count == 1 && settings is Some
}

/// The state after an event: sessions updated, and both gates of the event
/// marked with `now` if it reached them.
pub open spec fn view_after(
    s: PresenceView,
    ev: VoiceTransitionEvent,
    settings: Option<VcpingSettings>,
    now: u64,
) -> PresenceView {
    let s1 = PresenceView { sessions: sessions_after(s.sessions, ev, now), ..s };
    if reaches_gates(ev, settings) {
        s1.marked(GateScope::Channel(destination(ev)->0), now).marked(GateScope::User(ev.user_id), now)
    } else {
        s1
    }
}

/// The notification owed for an event: one where it reaches the gates and
/// neither the channel's nor the user's gate is within its window.
pub open spec fn notification_for(
    s: PresenceView,
    ev: VoiceTransitionEvent,
    settings: Option<VcpingSettings>,
    now: u64,
) -> Option<Notification> {
    if reaches_gates(ev, settings) && !s.suppresses(GateScope::Channel(destination(ev)->0), now)
        && !s.suppresses(GateScope::User(ev.user_id), now) {
        Some(Notification {
            notify_channel_id: settings->0.channel_id,
            notify_role_id: settings->0.role_id,
            voice_channel_id: destination(ev)->0,
            user_id: ev.user_id,
        })
    } else {
        None
    }
}

/// Classifies a pair of channels as a join, a leave or a move.
pub fn classify(previous: Option<u64>, current: Option<u64>) -> (r: Option<Transition>)
    ensures
        r == transition_of(previous, current),
{
    match (previous, current) {
        (None, Some(c)) => Some(Transition::Join(c)),
        (Some(p), None) => Some(Transition::Leave(p)),
        (Some(p), Some(c)) => if p != c {
            Some(Transition::Move { from: p, to: c })
        } else {
            None
        },
        (None, None) => None,
    }
}

/// Whether the event's outcome depends on the guild's notification settings,
/// so that the caller need fetch them only then.
pub fn needs_settings(ev: &VoiceTransitionEvent) -> (r: bool)
    ensures
        r == (destination(*ev) is Some && ev.occupant_count == 1),
{
    match classify(ev.previous_channel, ev.current_channel) {
        Some(Transition::Join(_)) | Some(Transition::Move { .. }) => ev.occupant_count == 1,
        _ => false,
    }
}

impl PresenceTracker {
    /// Processes one presence event at `now`: closes the user's session on a
    /// leave or move and reports its length, opens one on a join or move, and
    /// decides whether the arrival of a lone user in a channel is announced.
    /// `settings` are the event's guild's, if it has any.
    pub fn process(&mut self, ev: &VoiceTransitionEvent, settings: Option<VcpingSettings>, now: u64) -> (r: Outcome)
        ensures
            final(self)@ == view_after(old(self)@, *ev, settings, now),
            r.increment == accrual(old(self)@.sessions, *ev, now),
            r.notification == notification_for(old(self)@, *ev, settings, now),
    {
        let t = classify(ev.previous_channel, ev.current_channel);
        let mut increment: Option<Increment> = None;
        let mut dest: Option<u64> = None;
        match t {
            Some(Transition::Join(c)) => {
                self.begin_session(ev.user_id, now);
                dest = Some(c);
            },
            Some(Transition::Leave(_)) => {
                if let Some(seconds) = self.end_session(ev.user_id, now) {
                    increment = Some(Increment { user_id: ev.user_id, guild_id: ev.guild_id, seconds });
                }
            },
            Some(Transition::Move { to, .. }) => {
                if let Some(seconds) = self.end_session(ev.user_id, now) {
                    increment = Some(Increment { user_id: ev.user_id, guild_id: ev.guild_id, seconds });
                }
                self.begin_session(ev.user_id, now);
                dest = Some(to);
            },
            None => {},
        }
        let mut notification: Option<Notification> = None;
        if let Some(c) = dest {
            if ev.occupant_count == 1 {
                if let Some(st) = settings {
                    let channel_suppressed = self.check_and_mark_gate(GateScope::Channel(c), now);
                    let user_suppressed = self.check_and_mark_gate(GateScope::User(ev.user_id), now);
                    if !channel_suppressed && !user_suppressed {
                        notification = Some(Notification {
                            notify_channel_id: st.channel_id,
                            notify_role_id: st.role_id,
                            voice_channel_id: c,
                            user_id: ev.user_id,
                        });
                    }
                }
            }
        }
        Outcome { increment, notification }
    }
}

} // verus!
