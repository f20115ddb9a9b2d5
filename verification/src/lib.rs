//! Incremental windowed loading for large ordered lists.
//!
//! A client renders only a contiguous window of a long, server-held
//! collection (a chat list, a message history) and fetches a new window as
//! the user scrolls near an edge.  This crate holds the logic of that
//! protocol: the window value type, the policy that picks the next window
//! from the scroll position, the coordinator that gates duplicate and stale
//! fetches, the scroll anchor that keeps the viewport steady across content
//! swaps, and the server-side range fetch that answers the requests.

pub mod anchor;
pub mod coordinator;
pub mod policy;
pub mod rpc;
pub mod service;
pub mod window;
