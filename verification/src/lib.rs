//! Vault browsing, search, item editing and session logic for a terminal
//! front end to the Bitwarden command line client.
pub mod text;
pub mod model;
pub mod arith;
pub mod form;
pub mod search;
pub mod config;
pub mod effects;
pub mod clipboard;
pub mod app;
pub mod actions;
pub mod keys;
pub mod items;
pub mod input;
pub mod events;
pub mod commands;
pub mod itemjson;
pub mod session;
pub mod flows;
pub mod display;
pub mod screens;
pub mod laws;
