//! Job dispatch and media processing engine.
//!
//! The crate holds the rules of a media-transcoding service: how a resize
//! request resolves to pixel dimensions, how a request becomes the argument
//! list of the external media tool, how the outcome of a tool run is
//! classified, how probe output becomes a metadata record, and how a job moves
//! through its lifecycle.

pub mod command;
pub mod dispatch;
pub mod error;
pub mod executor;
pub mod geometry;
pub mod job;
pub mod probe;
pub mod process;
pub mod raster;
pub mod services;
pub mod text;
