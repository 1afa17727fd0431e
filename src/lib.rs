//! A small HTTP service that relays two fixed JSON documents of Uzbekistan's
//! administrative divisions, one per language variant.
//!
//! The library holds the service's decisions: which route a request takes,
//! which file a route reads, and which reply a file read leads to. Listening,
//! reading files and writing replies are left to the program around it.

pub mod laws;
pub mod model;
pub mod reply;
pub mod routing;

pub use model::{District, Region};
pub use reply::{file_reply, not_found, respond, Reply, ReplyView, ServiceError};
pub use routing::{route, Config, Route};
