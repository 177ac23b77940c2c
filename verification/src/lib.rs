//! Orchestration logic for remuxing a media container into a Matroska file
//! with an embedded comment tag.
//!
//! The heavy lifting (demuxing, muxing, threading) belongs to an external
//! media-graph engine; this crate holds the decisions built on top of it:
//! deriving the output path, assembling the static graph skeleton, choosing
//! a mux input for each discovered stream, merging the metadata tag, and
//! driving the run to completion or failure.

pub mod bytes;
pub mod caps;
pub mod graph;
pub mod linker;
pub mod orchestrate;
pub mod path_resolve;
pub mod runloop;
pub mod tags;
