//! Safe and correct Unix signal handling: the registry of actions per signal, the delivery of
//! received signals to the program through flags and a self-pipe, and the metadata of signals.
//!
//! Everything here is plain data and decisions; the operating-system calls (installing the
//! handler, masking signals, reading and writing the pipe) are made around it.

pub mod internal;
pub mod iterator;
pub mod low_level;
pub mod pipe;
pub mod registry;
pub mod vec_map;
pub mod windows;
