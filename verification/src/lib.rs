//! Favorites and fetch rules of a small gallery of dog and cat pictures.
//!
//! The crate holds the decisions of the gallery: what a record is, when two
//! records are the same, how a list of liked records changes, which request
//! asks the picture service for records, and what a reply to it means. The
//! network, the locks and the process environment stay with the caller.

pub mod error;
pub mod favorites;
pub mod fetch;
pub mod gallery;
pub mod record;
pub mod status;
