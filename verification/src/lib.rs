//! Episode file store: the layout of an application's episode files and the
//! decisions taken while listing and loading them.

pub mod commands;
pub mod conversation;
pub mod episode_id;
pub mod failure;
pub mod file_system;
pub mod listing;
pub mod path_text;
