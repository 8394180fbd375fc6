pub mod discord_mention_monitor;
pub mod line_handler;
pub mod message_provider;
pub mod text;
