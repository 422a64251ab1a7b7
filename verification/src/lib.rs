//! Turns the still frames of a video clip into a looping animated GIF.
//!
//! The library holds the decisions of a conversion: which command extracts the
//! frames, in which order the frames are encoded, what is written to the
//! output and when, and what the caller is told about progress. Reading and
//! writing files and running the extraction tool are left to the caller, who
//! performs each [`pipeline::Action`] and reports back with a
//! [`pipeline::Event`].

pub mod error;
pub mod extractor;
pub mod form;
pub mod frames;
pub mod output;
pub mod picture;
pub mod pipeline;
pub mod state;
pub mod stream;
pub mod timing;
