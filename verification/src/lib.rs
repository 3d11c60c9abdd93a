//! A metadata-driven media file renamer.
//!
//! The library builds, for each probed media container, a flat
//! key-value context - the container's tags, one mapping per stream,
//! and aliases for the best stream of each medium - normalizes the
//! creation timestamp, and decides each file's rename: an existing
//! destination is refused, and a dry run only reports.  Probing,
//! template rendering and timezone conversion lean on outside
//! libraries behind narrow trusted declarations; everything else is
//! specified and proved.

pub mod context;
pub mod datetime;
pub mod decimal;
pub mod errors;
pub mod extract;
pub mod meta;
pub mod pipeline;
pub mod template;
