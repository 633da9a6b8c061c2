//! Presence-event processing for a voice-chat companion service: session
//! accrual, debounced "channel became occupied" notifications, and the small
//! decisions behind the bot's commands.

pub mod fun;
pub mod laws;
pub mod leaderboard;
pub mod models;
pub mod moderation;
pub mod parental_control;
pub mod presence;
pub mod processor;
pub mod roles;
pub mod vcping;
