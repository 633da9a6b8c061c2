use std::collections::HashMap;
use vstd::prelude::*;

verus! {

broadcast use vstd::std_specs::hash::group_hash_axioms;

/// Debounce window, in seconds, of the notifications that the bot sends.
pub const DEBOUNCE_WINDOW_SECS: u64 = 60;

/// What a gate is keyed by: notifications are debounced per destination
/// channel and per joining user, each in a map of its own.
#[derive(Clone, Copy, Debug, PartialEq, Eq, Structural)]
pub enum GateScope {
    Channel(u64),
    User(u64),
}

/// The mathematical state of a [`PresenceTracker`].
pub struct PresenceView {
    /// user id -> instant (seconds) at which the user's live session began
    pub sessions: Map<u64, u64>,
    /// destination channel id -> instant of the last evaluated notification
    pub channel_gates: Map<u64, u64>,
    /// joining user id -> instant of the last evaluated notification
    pub user_gates: Map<u64, u64>,
    /// minimum spacing, in seconds, between two notifications of one scope
    pub debounce_window: u64,
}

/// Time elapsed from `start` to `now`, never negative: a clock that reads
/// earlier than the start yields zero rather than a garbage duration.
pub open spec fn elapsed(start: u64, now: u64) -> u64 {
    if now >= start {
        (now - start) as u64
    } else {
        0
    }
}

/// A gate whose last mark lies less than `window` seconds before `now`
/// suppresses the notification.
pub open spec fn within_window(gates: Map<u64, u64>, key: u64, now: u64, window: u64) -> bool {
    gates.contains_key(key) && (now as int) - (gates[key] as int) < window as int
}

impl PresenceView {
    pub open spec fn gates_of(self, scope: GateScope) -> Map<u64, u64> {
        match scope {
            GateScope::Channel(_) => self.channel_gates,
            GateScope::User(_) => self.user_gates,
        }
    }

    pub open spec fn key_of(scope: GateScope) -> u64 {
        match scope {
            GateScope::Channel(c) => c,
            GateScope::User(u) => u,
        }
    }

    /// Whether a gate check of `scope` at `now` reports suppression.
    pub open spec fn suppresses(self, scope: GateScope, now: u64) -> bool {
        within_window(self.gates_of(scope), Self::key_of(scope), now, self.debounce_window)
    }

    /// The state after marking `scope` with `now`.
    pub open spec fn marked(self, scope: GateScope, now: u64) -> PresenceView {
        match scope {
            GateScope::Channel(c) => PresenceView {
                channel_gates: self.channel_gates.insert(c, now),
                ..self
            },
            GateScope::User(u) => PresenceView { user_gates: self.user_gates.insert(u, now), ..self },
        }
    }
}

/// The gates that remain after evicting every mark made `horizon` seconds or
/// more before `now`.
pub open spec fn retained(gates: Map<u64, u64>, now: u64, horizon: u64) -> Map<u64, u64> {
    gates.restrict(gates.dom().filter(|k: u64| (now as int) - (gates[k] as int) < horizon as int))
}

/// Removes from `gates` every mark made `horizon` seconds or more before
/// `now`: the keys to drop are gathered first, then removed one by one.
fn evict_stale(gates: &mut HashMap<u64, u64>, now: u64, horizon: u64)
    ensures
        final(gates)@ == retained(old(gates)@, now, horizon),
{
    let ghost start = gates@;
    let mut stale: Vec<u64> = Vec::new();
    for k in it: gates.keys()
        invariant
            gates@ == start,
            it.seq().unref().to_set() == start.dom(),
            forall|j: int| 0 <= j < stale.len() ==> {
                &&& #[trigger] start.contains_key(stale[j])
                &&& (now as int) - (start[stale[j]] as int) >= horizon as int
            },
            forall|j: int|
                0 <= j < it.index() && (now as int) - (start[*it.seq()[j]] as int) >= horizon as int
                    ==> stale@.contains(*#[trigger] it.seq()[j]),
    {
        let ghost idx = it.index();
        let ghost before = stale@;
        proof {
            assert(*k == *it.seq()[idx]);
            assert(it.seq().unref().contains(*k));
            assert(it.seq().unref().to_set().contains(*k));
        }
        let t = *gates.get(k).unwrap();
        assert(t == start[*k]);
        if (now as i128) - (t as i128) >= horizon as i128 {
            stale.push(*k);
        }
        proof {
            assert forall|x: u64| before.contains(x) implies stale@.contains(x) by {
                let j = choose|j: int| 0 <= j < before.len() && before[j] == x;
                assert(stale@[j] == x);
            }
            if (now as int) - (t as int) >= horizon as int {
                assert(stale@[stale.len() - 1] == *k);
            }
            assert forall|j: int| 0 <= j < stale.len() implies {
                &&& #[trigger] start.contains_key(stale[j])
                &&& (now as int) - (start[stale[j]] as int) >= horizon as int
            } by {
                if j < before.len() {
                    assert(stale[j] == before[j]);
                }
            }
        }
    }
    let mut i: usize = 0;
    while i < stale.len()
        invariant
            0 <= i <= stale.len(),
            forall|j: int| 0 <= j < stale.len() ==> {
                &&& #[trigger] start.contains_key(stale[j])
                &&& (now as int) - (start[stale[j]] as int) >= horizon as int
            },
            forall|k: u64| #[trigger] start.contains_key(k) && (now as int) - (start[k] as int) >= horizon as int
                ==> stale@.contains(k),
            gates@ == start.remove_keys(stale@.subrange(0, i as int).to_set()),
        decreases stale.len() - i,
    {
        let k = stale[i];
        gates.remove(&k);
        proof {
            assert(stale@.subrange(0, i + 1).to_set() == stale@.subrange(0, i as int).to_set().insert(k)) by {
                assert(stale@.subrange(0, i + 1) == stale@.subrange(0, i as int).push(k));
                stale@.subrange(0, i as int).lemma_push_to_set_commute(k);
            }
        }
        i = i + 1;
    }
    proof {
        assert(stale@.subrange(0, stale.len() as int) == stale@);
        assert(gates@ == retained(start, now, horizon));
    }
}

/// Evicting with a horizon no shorter than the debounce window changes no
/// later outcome of a gate: a mark that old suppresses nothing from `now` on.
pub proof fn eviction_keeps_suppression(s: PresenceView, now: u64, horizon: u64, scope: GateScope, later: u64)
    requires
        horizon >= s.debounce_window,
        later >= now,
    ensures
        (PresenceView {
            channel_gates: retained(s.channel_gates, now, horizon),
            user_gates: retained(s.user_gates, now, horizon),
            ..s
        }).suppresses(scope, later) == s.suppresses(scope, later),
{
}

/// The in-memory state of the presence processor: live sessions and the two
/// notification gates. It is owned by its caller, who guards it with a lock.
pub struct PresenceTracker {
    sessions: HashMap<u64, u64>,
    channel_gates: HashMap<u64, u64>,
    user_gates: HashMap<u64, u64>,
    debounce_window: u64,
}

impl View for PresenceTracker {
    type V = PresenceView;

    closed spec fn view(&self) -> PresenceView {
        PresenceView {
            sessions: self.sessions@,
            channel_gates: self.channel_gates@,
            user_gates: self.user_gates@,
            debounce_window: self.debounce_window,
        }
    }
}

impl PresenceTracker {
    /// An empty tracker whose gates suppress a notification that follows the
    /// previous one of its scope by less than `debounce_window` seconds.
    pub fn new(debounce_window: u64) -> (r: PresenceTracker)
        ensures
            r@.sessions == Map::<u64, u64>::empty(),
            r@.channel_gates == Map::<u64, u64>::empty(),
            r@.user_gates == Map::<u64, u64>::empty(),
            r@.debounce_window == debounce_window,
    {
        PresenceTracker {
            sessions: HashMap::new(),
            channel_gates: HashMap::new(),
            user_gates: HashMap::new(),
            debounce_window,
        }
    }

    pub fn debounce_window(&self) -> (r: u64)
        ensures
            r == self@.debounce_window,
    {
        self.debounce_window
    }

    /// The instant at which `user`'s live session began, if there is one.
    pub fn session_start(&self, user: u64) -> (r: Option<u64>)
        ensures
            r == (if self@.sessions.contains_key(user) {
                Some(self@.sessions[user])
            } else {
                None::<u64>
            }),
    {
        match self.sessions.get(&user) {
            Some(t) => Some(*t),
            None => None,
        }
    }

    /// Opens a session for `user` starting at `now`. A user who already has a
    /// live session keeps it unchanged, so a redelivered join is absorbed.
    pub fn begin_session(&mut self, user: u64, now: u64)
        ensures
            final(self)@ == (PresenceView {
                sessions: if old(self)@.sessions.contains_key(user) {
                    old(self)@.sessions
                } else {
                    old(self)@.sessions.insert(user, now)
                },
                ..old(self)@
            }),
    {
        if !self.sessions.contains_key(&user) {
            self.sessions.insert(user, now);
        }
    }

    /// Closes `user`'s live session, if any, and returns how long it lasted.
    pub fn end_session(&mut self, user: u64, now: u64) -> (r: Option<u64>)
        ensures
            final(self)@ == (PresenceView { sessions: old(self)@.sessions.remove(user), ..old(self)@ }),
            r == (if old(self)@.sessions.contains_key(user) {
                Some(elapsed(old(self)@.sessions[user], now))
            } else {
                None::<u64>
            }),
    {
        match self.sessions.remove(&user) {
            Some(start) => {
                if now >= start {
                    Some(now - start)
                } else {
                    Some(0)
                }
            },
            None => None,
        }
    }

    /// Forgets every gate mark made `horizon` seconds or more before `now`;
    /// such a mark no longer suppresses anything within that horizon.
    pub fn evict_stale_gates(&mut self, now: u64, horizon: u64)
        ensures
            final(self)@ == (PresenceView {
                channel_gates: retained(old(self)@.channel_gates, now, horizon),
                user_gates: retained(old(self)@.user_gates, now, horizon),
                ..old(self)@
            }),
    {
        evict_stale(&mut self.channel_gates, now, horizon);
        evict_stale(&mut self.user_gates, now, horizon);
    }

    /// Reports whether a notification of `scope` at `now` is suppressed, going
    /// on the scope's last mark, and then marks the scope with `now` in either
    /// case: events that keep arriving within the window stay suppressed.
    pub fn check_and_mark_gate(&mut self, scope: GateScope, now: u64) -> (suppressed: bool)
        ensures
            suppressed == old(self)@.suppresses(scope, now),
            final(self)@ == old(self)@.marked(scope, now),
    {
        let gates = match scope {
            GateScope::Channel(_) => &mut self.channel_gates,
            GateScope::User(_) => &mut self.user_gates,
        };
        let key = match scope {
            GateScope::Channel(c) => c,
            GateScope::User(u) => u,
        };
        let suppressed = match gates.insert(key, now) {
            Some(last) => (now as i128) - (last as i128) < self.debounce_window as i128,
            None => false,
        };
        suppressed
    }
}

} // verus!
