//! Supervision of child processes for a developer tool.
//!
//! The heart of the crate is the supervision engine: the registry of live
//! processes (`registry`), the launch and stop protocols
//! (`process_manager`, `spawn`), the exit watch (`watch`), the output pump
//! (`pump`), the termination of process trees (`termination`), grouped
//! execution (`group`) and shutdown (`shutdown`). The engine decides and
//! performs no input or output: every operation is one atomic step on a
//! state that the caller guards with a lock, and hands back what to do and
//! which events to report (`events`). `lifecycle` states the engine as a
//! state machine and proves what holds of every run of it.
//!
//! Around the engine stand the rules of the tool that uses it: the data
//! model (`models`, `catalog`, `updates`), how command lines are built
//! (`command_builder`, `services`, `terminal`), how help texts, environment
//! files and script files are read (`help_parser`, `env_files`,
//! `script_discovery`), and the state of a terminal interface (`tui`,
//! `form`, `input`, `listing`, `display`, `tui_emitter`). `text` and `pairs`
//! hold the operations on text and on lists of pairs that the others share.

pub mod catalog;
pub mod command_builder;
pub mod display;
pub mod env_files;
pub mod error;
pub mod events;
pub mod form;
pub mod group;
pub mod help_parser;
pub mod input;
pub mod lifecycle;
pub mod listing;
pub mod models;
pub mod pairs;
pub mod process_manager;
pub mod pump;
pub mod registry;
pub mod script_discovery;
pub mod services;
pub mod shutdown;
pub mod spawn;
pub mod terminal;
pub mod termination;
pub mod text;
pub mod tui;
pub mod tui_emitter;
pub mod updates;
pub mod watch;
