//! A disk-space watchdog: it measures how much of the volume under a base
//! directory is free and, when too little is, has the oldest folders of a
//! two-level directory tree removed until enough is free again.
//!
//! The library decides and leaves the file system to whoever drives it:
//!
//! - [`config`]: the two settings the watchdog needs;
//! - [`storage`]: which volume holds the base directory, and its free share;
//! - [`percentage`]: that share, compared exactly and written with two
//!   decimals;
//! - [`logger`]: where the log is kept and when it is thrown away;
//! - [`entry`]: what is logged at the start, and whether to clean up;
//! - [`cleanup`]: the cleanup loop, one action at a time;
//! - [`sweep`]: what one sweep of the loop amounts to;
//! - [`listing`] and [`oldest`]: the subdirectories of a listing, and the
//!   oldest of them;
//! - [`text`]: prefixes, joining and numerals.

pub mod cleanup;
pub mod config;
pub mod entry;
pub mod listing;
pub mod logger;
pub mod oldest;
pub mod percentage;
pub mod storage;
pub mod sweep;
pub mod text;
