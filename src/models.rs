use vstd::prelude::*;

verus! {

/// Per-guild notification settings, as the settings store keeps them: the
/// text channel that receives notifications and the role they mention.
#[derive(Clone, Copy, Debug, PartialEq, Eq, Structural)]
pub struct VcpingSettings {
    pub guild_id: i64,
    pub channel_id: i64,
    pub role_id: i64,
}

/// One row of the session store: a user's accumulated voice time in a guild,
/// in seconds.
#[derive(Clone, Copy, Debug, PartialEq, Eq, Structural)]
pub struct VoiceTime {
    pub user_id: i64,
    pub guild_id: i64,
    pub time: i64,
}

} // verus!
