//! Discovery of video files and an on-demand thumbnail cache.
//!
//! The library models filesystem paths as plain strings. It derives a
//! deterministic thumbnail file name from a video path, filters directory
//! entries down to recognized video files, and drives the get-or-create
//! protocol of the thumbnail cache as a step-by-step state machine whose
//! filesystem and frame-extraction effects are performed by the caller.

pub mod cache;
pub mod extract;
pub mod paths;
pub mod scan;
