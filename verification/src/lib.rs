//! A small toolbox: a client for the text protocol of a UPS monitoring
//! daemon, a few text codecs, and a scanner for over-long paths.
//!
//! Everything here is free of I/O. The protocol client, the polling loop
//! and the pages are state machines: a driver performs the reads, writes,
//! sleeps and dialogs that they ask for and hands the outcomes back.
//!
//! The client of the daemon is made of these parts, leaves first:
//! `transport` frames commands and lines, `quoting` and `response` read the
//! lines of a list, `table` and `ups_info` hold the variables of a device,
//! `client` speaks the protocol, `poll` asks every device again and again,
//! and `connect`, `monitor` and `nut` keep what the user sees.

pub mod client;
pub mod codec;
pub mod connect;
pub mod eml;
pub mod encoder;
pub mod error;
pub mod monitor;
pub mod number;
pub mod nut;
pub mod path_length_checker;
pub mod poll;
pub mod quoting;
pub mod response;
pub mod table;
pub mod text;
pub mod transport;
pub mod ui;
pub mod ups_info;
