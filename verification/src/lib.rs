//! A constructor of suggestion bots for Telegram channels: clients connect
//! their own bots through a master bot, and each connected bot takes
//! anonymous proposals for its channel, which the channel's owner and
//! moderators review and publish.

pub mod text;
pub mod locales;
pub mod models;
pub mod keyboard;
pub mod hashing;
pub mod ids;
pub mod dates;
pub mod config;
pub mod plans;
pub mod pagination;
pub mod links;
pub mod commands;
pub mod callbacks;
pub mod memory;
pub mod conversations;
pub mod moderation;
pub mod proposals;
pub mod admins;
pub mod worker_flow;
pub mod owner;
pub mod master_flow;
pub mod registry;
pub mod buttons;
