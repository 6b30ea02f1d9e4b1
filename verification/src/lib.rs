//! Reactive data-fetching core of a small blockchain-node explorer.
//!
//! The crate holds the state of a user-selectable RPC endpoint and of the
//! queries derived from it, builds the JSON-RPC requests those queries send,
//! and decides what each reply does to the state that is rendered. It performs
//! no I/O itself: callers carry out the fetches it orders and hand back the
//! replies.
//!
//! - [`endpoint`]: the store of the selected endpoint, with its subscribers.
//! - [`query`]: one derived query and the states it goes through.
//! - [`request`]: request descriptors and the request objects made from them.
//! - [`response`]: replies, and what a query reads from them.
//! - [`explorer`]: the store wired to the two queries of the explorer.
//! - [`history`]: what holds of a query over any run of events.
//! - [`json`]: the boundary to the JSON library.
//! - [`assets`]: replies to requests for the packaged static files.

pub mod assets;
pub mod endpoint;
pub mod explorer;
pub mod history;
pub mod json;
pub mod query;
pub mod request;
pub mod response;
