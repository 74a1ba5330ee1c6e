//! Moves a file or directory out of the way under a fresh, timestamped name,
//! so that its path can be written anew and nothing is lost.
//!
//! The library decides; it does not touch the file system. A caller asks the
//! file system what each [`machine::Stage`] wants to know, renames when told
//! to, and hands the outcome back as a [`machine::Event`]:
//!
//! * [`target`] reads the shape of a path and holds the rules a target has to
//!   meet;
//! * [`moment`] holds points in local time and their timestamps;
//! * [`name`] composes the names that are tried for a backup;
//! * [`machine`] steps a backup from its target to its end;
//! * [`course`] and [`distinct`] state what holds of every backup and of
//!   every name.

pub mod course;
pub mod digits;
pub mod distinct;
pub mod error;
pub mod machine;
pub mod moment;
pub mod name;
pub mod target;
