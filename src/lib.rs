//! Classification of raw frames from a browser debugging connection.
//!
//! A frame is read as a JSON document, decoded as a method response or an
//! event, and attributed to the browser or to a target session whose
//! response arrived tunnelled inside a browser event.

pub mod json;
pub mod protocol;
