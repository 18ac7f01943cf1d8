//! Frame ingest and clock rendering for a network-attached display.
//!
//! The display shows two things at once: a wall clock, redrawn several times
//! a second, and image tiles that a remote sender pushes in UDP datagrams.
//! This crate holds the decisions behind both: the datagram decoder, the step
//! that the ingest worker takes for each socket event, and the step that the
//! clock worker takes for each tick. Sockets, threads and the display driver
//! stay with the caller.

pub mod clock;
pub mod datagram;
pub mod ingest;
