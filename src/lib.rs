//! Result resolution and delivery for a media-search command line tool.
//!
//! The library holds the parts of the tool that decide: which link of a
//! result is wanted, what is printed, which result is picked for delivery,
//! which clipboard program receives it, and under which file name the media
//! is stored. Network, process and file access stay with the caller.

pub mod media;
pub mod dispatch;
pub mod naming;
pub mod engine;
pub mod request;
