//! Acquisition and tagging of a single streamed track: which release and
//! which encoding of it to fetch, how the fetched bytes become the media
//! payload, and how the metadata container in front of the final file is
//! built.

pub mod acquire;
pub mod decrypt;
pub mod error;
pub mod filename;
pub mod format;
pub mod metadata;
pub mod output;
pub mod tag;
pub mod transcode;
