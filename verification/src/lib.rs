//! Routing of source-control webhook events to chat notifications.
//!
//! An inbound event is classified by kind, filtered by its action and
//! content, and turned into delivery requests: one per matching channel
//! and one per individual recipient with a configured direct-message
//! target. Requests are queued on a delivery worker so that slow
//! outbound calls never stall the inbound path.

pub mod github;
pub mod github_handler;
pub mod messenger;
pub mod repos;
pub mod users;
pub mod slack;
pub mod util;
pub mod worker;
