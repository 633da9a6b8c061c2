use vstd::prelude::*;

use crate::roles::{holds_role, RoleChange};

verus! {

/// How the bot answers a request to (un)subscribe from voice-channel pings.
#[derive(Clone, Copy, Debug, PartialEq, Eq, Structural)]
pub enum SubscriptionReply {
    /// the author is a bridge bot, whose users subscribe by keyword instead
    BridgeHint,
    /// the ping role is to be added to or removed from the author
    Toggle(RoleChange),
}

/// A bridged author gets a hint; anyone else has the ping role removed if
/// they hold it, added if not.
pub fn vcping(author_is_bot: bool, author_roles: &Vec<u64>, ping_role: u64) -> (r: SubscriptionReply)
    ensures
        r == (if author_is_bot {
            SubscriptionReply::BridgeHint
        } else if author_roles@.contains(ping_role) {
            SubscriptionReply::Toggle(RoleChange::Remove)
        } else {
            SubscriptionReply::Toggle(RoleChange::Add)
        }),
{
    if author_is_bot {
        SubscriptionReply::BridgeHint
    } else if holds_role(author_roles, ping_role) {
        SubscriptionReply::Toggle(RoleChange::Remove)
    } else {
        SubscriptionReply::Toggle(RoleChange::Add)
    }
}

} // verus!
