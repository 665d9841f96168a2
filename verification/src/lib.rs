//! Verified core of the Reverie integration: the Dream Inspector event feed
//! (categories, ring buffer, polling decisions, request URIs) and the Reverie
//! agent (memory augmentation, transcripts, run slots, display text).

pub mod text;
pub mod categories;
pub mod url;
pub mod fetch;
pub mod dream_http;
pub mod feed;
pub mod panel;
pub mod reverie_http;
pub mod session;
pub mod observer;
pub mod augment;
pub mod server;
pub mod backend;
pub mod connection;
