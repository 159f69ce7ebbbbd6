//! Links modpack installations from a CurseForge-style launcher directory
//! into a MultiMC-style instance directory.
//!
//! The library reads a source launcher's modpack manifest, classifies the
//! mod loader it names, synthesizes the destination launcher's metadata
//! artifacts, and drives the filesystem steps that establish (or reverse) a
//! symlink between the two directory trees.  All filesystem effects are
//! requested through small action values so that the decisions — conflict
//! detection, ordering, and rollback on partial failure — are verified here,
//! while the caller performs the raw operations.

mod text;

pub mod directory;
pub mod error;
pub mod instance;
pub mod manifest;
pub mod artifacts;
pub mod link;
pub mod modpack;
pub mod settings;
