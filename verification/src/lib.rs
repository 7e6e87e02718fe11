//! Moderation core for a group-chat bot: per-chat state, the quarantine
//! counter, the ban-list cache, the classifier verdict and the dispatch rules.

pub mod actions;
pub mod cas;
pub mod classifier;
pub mod commands;
pub mod config;
pub mod dotenv;
pub mod handlers;
pub mod json;
pub mod messages;
pub mod prompt_manager;
pub mod prompts;
pub mod provider;
pub mod quarantine;
pub mod service;
pub mod snapshot;
pub mod state;
pub mod templates;
pub mod text;
pub mod update;
pub mod webhook;
