use vc_presence::models::VcpingSettings;
use vc_presence::presence::{GateScope, PresenceTracker};
use vc_presence::processor::{
    classify, needs_settings, Increment, Notification, Outcome, Transition, VoiceTransitionEvent,
};

const GUILD: u64 = 700;
const ROLE: i64 = 9001;
const PING_CHANNEL: i64 = 555;

fn settings() -> Option<VcpingSettings> {
    Some(VcpingSettings { guild_id: GUILD as i64, channel_id: PING_CHANNEL, role_id: ROLE })
}

fn join(user: u64, channel: u64, occupants: u64) -> VoiceTransitionEvent {
    VoiceTransitionEvent {
        user_id: user,
        guild_id: GUILD,
        previous_channel: None,
        current_channel: Some(channel),
        occupant_count: occupants,
    }
}

fn leave(user: u64, channel: u64) -> VoiceTransitionEvent {
    VoiceTransitionEvent {
        user_id: user,
        guild_id: GUILD,
        previous_channel: Some(channel),
        current_channel: None,
        occupant_count: 0,
    }
}

fn notice(user: u64, channel: u64) -> Option<Notification> {
    Some(Notification {
        notify_channel_id: PING_CHANNEL,
        notify_role_id: ROLE,
        voice_channel_id: channel,
        user_id: user,
    })
}

#[test]
fn classify_covers_each_shape() {
    assert_eq!(classify(None, Some(3)), Some(Transition::Join(3)));
    assert_eq!(classify(Some(3), None), Some(Transition::Leave(3)));
    assert_eq!(classify(Some(3), Some(4)), Some(Transition::Move { from: 3, to: 4 }));
    assert_eq!(classify(Some(3), Some(3)), None);
    assert_eq!(classify(None, None), None);
}

#[test]
fn lone_join_is_announced_then_leave_is_recorded() {
    let mut t = PresenceTracker::new(30);
    let a = 1;
    let b = 2;
    let c = 42;
    let out = t.process(&join(a, c, 1), settings(), 1000);
    assert_eq!(out, Outcome { increment: None, notification: notice(a, c) });
    let out = t.process(&join(b, c, 2), settings(), 1002);
    assert_eq!(out, Outcome { increment: None, notification: None });
    let out = t.process(&leave(a, c), settings(), 1040);
    assert_eq!(
        out.increment,
        Some(Increment { user_id: a, guild_id: GUILD, seconds: 40 })
    );
    assert_eq!(out.notification, None);
}

#[test]
fn quick_rejoin_is_suppressed_but_time_is_recorded() {
    let mut t = PresenceTracker::new(30);
    let a = 1;
    let c = 42;
    let first = t.process(&join(a, c, 1), settings(), 500);
    assert_eq!(first.notification, notice(a, c));
    let left = t.process(&leave(a, c), settings(), 504);
    assert_eq!(left.increment, Some(Increment { user_id: a, guild_id: GUILD, seconds: 4 }));
    let again = t.process(&join(a, c, 1), settings(), 510);
    assert_eq!(again.notification, None);
    assert_eq!(t.session_start(a), Some(510));
}

#[test]
fn duplicate_join_keeps_one_session() {
    let mut t = PresenceTracker::new(30);
    let a = 1;
    let c = 42;
    let first = t.process(&join(a, c, 1), settings(), 100);
    let second = t.process(&join(a, c, 1), settings(), 100);
    assert_eq!(first.increment, None);
    assert_eq!(second.increment, None);
    assert_eq!(second.notification, None);
    assert_eq!(t.session_start(a), Some(100));
    let out = t.process(&leave(a, c), settings(), 160);
    assert_eq!(out.increment, Some(Increment { user_id: a, guild_id: GUILD, seconds: 60 }));
    let out = t.process(&leave(a, c), settings(), 170);
    assert_eq!(out.increment, None);
}

#[test]
fn joins_five_seconds_apart_notify_once() {
    let mut t = PresenceTracker::new(30);
    let c = 42;
    let first = t.process(&join(1, c, 1), settings(), 0);
    t.process(&leave(1, c), settings(), 2);
    let second = t.process(&join(2, c, 1), settings(), 5);
    assert_eq!(first.notification, notice(1, c));
    assert_eq!(second.notification, None);
}

#[test]
fn joins_thirty_one_seconds_apart_notify_twice() {
    let mut t = PresenceTracker::new(30);
    let c = 42;
    let first = t.process(&join(1, c, 1), settings(), 0);
    t.process(&leave(1, c), settings(), 10);
    let second = t.process(&join(1, c, 1), settings(), 31);
    assert_eq!(first.notification, notice(1, c));
    assert_eq!(second.notification, notice(1, c));
}

#[test]
fn occupied_channel_is_never_announced() {
    let mut t = PresenceTracker::new(30);
    let out = t.process(&join(1, 42, 2), settings(), 0);
    assert_eq!(out.notification, None);
    let out = t.process(&join(2, 43, 5), settings(), 1000);
    assert_eq!(out.notification, None);
    // no gate was marked, so a lone arrival right after is announced
    let out = t.process(&join(3, 42, 1), settings(), 1);
    assert_eq!(out.notification, notice(3, 42));
}

#[test]
fn unconfigured_guild_is_never_announced() {
    let mut t = PresenceTracker::new(30);
    let out = t.process(&join(1, 42, 1), None, 0);
    assert_eq!(out, Outcome { increment: None, notification: None });
    assert_eq!(t.session_start(1), Some(0));
}

#[test]
fn same_user_in_another_channel_is_suppressed() {
    let mut t = PresenceTracker::new(60);
    let first = t.process(&join(1, 42, 1), settings(), 0);
    let moved = VoiceTransitionEvent {
        user_id: 1,
        guild_id: GUILD,
        previous_channel: Some(42),
        current_channel: Some(43),
        occupant_count: 1,
    };
    let second = t.process(&moved, settings(), 20);
    assert_eq!(first.notification, notice(1, 42));
    assert_eq!(second.notification, None);
    assert_eq!(second.increment, Some(Increment { user_id: 1, guild_id: GUILD, seconds: 20 }));
    assert_eq!(t.session_start(1), Some(20));
}

#[test]
fn accrual_sums_matched_pairs() {
    let mut t = PresenceTracker::new(30);
    let times = [(10u64, 25u64), (40, 41), (100, 400)];
    let mut total = 0u64;
    for (start, end) in times {
        total += t.process(&join(7, 42, 3), settings(), start).increment.map_or(0, |i| i.seconds);
        total += t.process(&leave(7, 42), settings(), end).increment.map_or(0, |i| i.seconds);
    }
    assert_eq!(total, 15 + 1 + 300);
}

#[test]
fn leave_without_session_records_nothing() {
    let mut t = PresenceTracker::new(30);
    assert_eq!(t.process(&leave(1, 42), settings(), 50).increment, None);
    assert_eq!(t.end_session(1, 60), None);
}

#[test]
fn session_clock_never_runs_backwards() {
    let mut t = PresenceTracker::new(30);
    t.begin_session(1, 100);
    assert_eq!(t.end_session(1, 90), Some(0));
}

#[test]
fn gate_marks_even_when_suppressing() {
    let mut t = PresenceTracker::new(30);
    assert!(!t.check_and_mark_gate(GateScope::Channel(5), 0));
    assert!(t.check_and_mark_gate(GateScope::Channel(5), 20));
    // judged against the mark at 20, not the first one at 0
    assert!(t.check_and_mark_gate(GateScope::Channel(5), 45));
    assert!(!t.check_and_mark_gate(GateScope::Channel(5), 75));
    assert!(!t.check_and_mark_gate(GateScope::User(5), 75));
    assert_eq!(t.debounce_window(), 30);
}

#[test]
fn eviction_drops_only_old_marks() {
    let mut t = PresenceTracker::new(30);
    t.check_and_mark_gate(GateScope::Channel(1), 0);
    t.check_and_mark_gate(GateScope::Channel(2), 50);
    t.check_and_mark_gate(GateScope::User(3), 10);
    t.evict_stale_gates(60, 30);
    // the mark of channel 2 survives and still suppresses
    assert!(t.check_and_mark_gate(GateScope::Channel(2), 61));
    // the others were forgotten
    assert!(!t.check_and_mark_gate(GateScope::Channel(1), 61));
    assert!(!t.check_and_mark_gate(GateScope::User(3), 61));
}

#[test]
fn settings_are_needed_only_for_lone_arrivals() {
    assert!(needs_settings(&join(1, 42, 1)));
    assert!(!needs_settings(&join(1, 42, 2)));
    assert!(!needs_settings(&leave(1, 42)));
}
