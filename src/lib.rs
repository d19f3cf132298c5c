//! Create, read and delete files addressed by a directory and a file name.
//!
//! The decisions of each operation (which filesystem action comes next, and
//! what the caller gets back once an action has been performed) are verified
//! here; a driver performs the actions on the host filesystem.
pub mod filesystem;
