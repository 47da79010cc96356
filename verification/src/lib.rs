//! Verified core of a storefront key-inventory tool.
//!
//! The library normalizes the storefront's loosely specified JSON payloads
//! (plain key lists, category-keyed maps, singly- and doubly-nested
//! "choice" structures) into one canonical sequence of key records,
//! filters out keys that were already redeemed or have expired, batches
//! order identifiers for fetching, and applies optional marketplace
//! enrichment. All network and terminal I/O lives outside the library;
//! callers hand in page text and get plain values back.

pub mod json;
pub mod api;
pub mod month;
pub mod pipeline;
pub mod steamdb;
