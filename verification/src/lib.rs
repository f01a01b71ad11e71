//! Verified core of a small conky-like system monitor: text rendering of
//! numbers, uptime and byte sizes, configuration handling, window placement,
//! disk accounting, network interface routing and process ranking.

pub mod text;
pub mod util;
pub mod uptime;
pub mod config;
pub mod disk;
pub mod network;
pub mod processes;
pub mod cpu;
pub mod graph;
