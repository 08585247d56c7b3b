//! Core of a hex viewer: a paged file accessor.
//!
//! The library serves fixed-size byte windows out of a large file through a
//! page-indexed cache, and invalidates that cache when the file changes on
//! disk.  Disk reads, directory watching and locking are performed by the
//! surrounding application; the library owns every decision: which page a
//! request needs, what a cached read returns, which filesystem events clear
//! the cache, and how a path switch replaces the active file.

pub mod events;
pub mod file_source;
pub mod widgets;
