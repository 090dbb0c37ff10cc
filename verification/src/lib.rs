//! Ticket, moderation-log and settings logic of the Twilight Sword Discord bot.
//!
//! The modules here hold the decisions the bot makes; the program around them does
//! the gateway, HTTP and database plumbing.

pub mod category;
pub mod text;
pub mod invite;
pub mod session;
pub mod config;
pub mod tickets;
pub mod components;
pub mod time;
pub mod relay;
pub mod moderation;
pub mod setup;
pub mod permissions;
pub mod settings;
pub mod forms;
pub mod routing;
pub mod users;
pub mod submission;
pub mod reply;
