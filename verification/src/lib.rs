//! A sans-I/O client for the Webport tag service.
//!
//! The crate holds the decisions of the client: which requests are sent, how a
//! reply is classified, and how a decoded body becomes tags and history points.
//! A driver performs the HTTP requests and hands the outcomes back.

pub mod auth;
pub mod client;
pub mod error;
pub mod get_map;
pub mod get_tag_history;
pub mod get_tag_info;
pub mod get_tags;
pub mod json;
pub mod laws;
pub mod query;
pub mod reply;
pub mod session;
pub mod tag;
pub mod text;
pub mod time;
pub mod transport;

pub use client::{Client, GetTokenResponse};
pub use error::{Error, ErrorKind};
pub use session::{Action, Event, Session};
pub use tag::{PartialTag, Tag};
pub use time::{Timestamp, UtcInstant};
pub use transport::{Method, Outcome, Request, Status};
