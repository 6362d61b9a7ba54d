//! The reactive event core of a terminal dashboard for a torrent daemon:
//! message types, the dispatch hub, the foreground-task and popup state
//! machines, the search aggregator and the table model they share.

pub mod action;
pub mod text;
pub mod utils;
pub mod messages;
pub mod hub;
pub mod table;
pub mod input;
pub mod component;
pub mod tasks;
pub mod task_manager;
pub mod torrents;
pub mod text_index;
pub mod search;
pub mod manual;
pub mod cli;
pub mod keymap;
pub mod runtime;
pub mod tabs;
pub mod main_window;
