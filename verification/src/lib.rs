//! Wait for a TCP port to open: poll an address at a fixed interval until it
//! accepts a connection or an overall deadline passes.
//!
//! This crate holds the verified core of the utility: parsing the timeout and
//! interval flags, classifying connection errors as retryable or fatal, and
//! the retry/deadline decision taken after each connection attempt. The
//! surrounding binary performs the actual connection attempts, sleeps and
//! clock reads, and feeds their results into [`connector::step`].

pub mod args;
pub mod connector;
