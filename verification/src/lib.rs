//! Discovery and selection of the track a desktop media player is currently
//! playing.
//!
//! The session bus exposes each compliant media player as a service under a
//! well-known namespace.  This crate holds the logic of one poll cycle: which
//! service names count as players, how a player's loosely typed metadata bag
//! is normalized into a canonical track record, and which of several live
//! players wins.  All bus I/O stays outside; callers hand in the names and
//! property values they read and get back at most one track.

pub mod media;
pub mod metadata;
pub mod select;
pub mod spotify;
pub mod text;
