//! Configuration logic of the cardwire daemon: the GPU modes, the user
//! configuration record with its defaults, the in-memory settings that the
//! D-Bus interface serves, and the naming of the files the daemon writes.

pub mod modes;
pub mod text;
pub mod config;
pub mod memory;
pub mod interface;
pub mod files;
