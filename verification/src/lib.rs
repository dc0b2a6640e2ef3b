//! A shim that lets Jan talk to the Codex app server as if it were an
//! OpenAI-compatible service.
//!
//! The app server speaks JSON messages, one to a line, over the standard streams
//! of its process; Jan speaks HTTP. This crate is what lies between them: it
//! reads and writes the messages (`messages`, `rpc`), follows the events of a
//! turn (`events`, `turn`), opens threads and turns for chat requests (`chat`),
//! answers the app server's questions about tools (`tools`), and makes the HTTP
//! replies (`http`). Processes, sockets and windows are left to whoever uses it.

pub mod chat;
pub mod config;
pub mod desktop;
pub mod events;
pub mod http;
pub mod ids;
pub mod json;
pub mod log_level;
pub mod messages;
pub mod rpc;
pub mod state;
pub mod telemetry;
pub mod text;
pub mod tools;
pub mod turn;
pub mod value;
