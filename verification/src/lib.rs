//! A Minecraft server status monitor: the decisions and text that the
//! monitor's collectors, database writers and HTTP handlers are made of.
//!
//! - `text`: decimal and fixed-point text.
//! - `status`: how a latency is judged and shown.
//! - `model`: the configuration file and the records.
//! - `api`: which history a request reads and how it is answered.
//! - `sampler`: when the collector samples, what a ping becomes, what it writes.
//! - `web`, `server`, `midend`: the status pages and history endpoints.
//! - `probe`, `config`, `collector`: the single-server setup.
//! - `deps`: the calls into outside crates, with their contracts.
//! - `laws`: what holds across these parts.

pub mod text;
pub mod status;
pub mod web;
pub mod server;
pub mod model;
pub mod deps;
pub mod api;
pub mod sampler;
pub mod midend;
pub mod probe;
pub mod config;
pub mod collector;
pub mod laws;
