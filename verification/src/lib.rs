//! The session layer of a terminal client for a file-sharing daemon.
//!
//! The daemon is reached over a local connection that carries one JSON
//! document per line. This library holds what the client decides: how a
//! request is framed and which line answers it (`ipc`), which events a stream
//! carries (`ipc::types`), which background job is the current one and what
//! its messages change (`jobs`, `tabs`), what is selected (`selection`), and
//! which labels match a query and in what order (`file_picker`). Reading and
//! writing connections, starting threads and drawing are left to the caller.

pub mod app;
pub mod config;
pub mod file_picker;
pub mod ipc;
pub mod jobs;
pub mod json;
pub mod selection;
pub mod tabs;
pub mod text;
pub mod ui;
pub mod widgets;
