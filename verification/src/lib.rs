//! Core editing, search and state logic of the MD -> ALL editor.
pub mod text;
pub mod search;
pub mod format;
pub mod settings;
pub mod state;
pub mod editor;
pub mod replace;
pub mod laws;
pub mod mcp;
pub mod review;
pub mod spell;
pub mod commands;
pub mod events;
pub mod resources;
pub mod dictionary;
pub mod command_laws;
