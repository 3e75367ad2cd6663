//! Settings of the assistant. Loading and saving them is the caller's part.

pub mod structs;
