//! Live session orchestrator for a stream relay: each user may hold at
//! most one running relay (a puller process piped into an encoder
//! process), driven by configuration and start/end commands.
//!
//! The crate verifies the decisions and the data: the per-room
//! descriptor store ([`store`]), the session registry and its
//! at-most-one-handle-per-user model ([`registry`], [`session`]), the
//! launch planning from descriptor to exact process argument lists and
//! push address ([`live`]), the extraction of a page title from fetched
//! markup ([`parser`]), and the timestamp fallback title ([`time`]).
//! Process spawning, the byte copy between the processes and all
//! network traffic stay with the embedding program, which receives a
//! complete launch plan and hands back the running handles.

pub mod config;
pub mod live;
pub mod parser;
pub mod registry;
pub mod session;
pub mod store;
pub mod strutil;
pub mod time;
pub mod user;
