//! Block-device UUID lookup over the text of a `/dev/disk/by-uuid` listing.

pub mod cli;
pub mod extract;
pub mod lines;
pub mod listing;
pub mod pattern;
pub mod text;
