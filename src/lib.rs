//! Decoding of a flag-delimited, byte-stuffed command channel, and the debounced
//! movement of a marker on a small grid that the decoded commands drive.

pub mod fcs;
pub mod yarhdlc;
pub mod moves;
pub mod stream;
