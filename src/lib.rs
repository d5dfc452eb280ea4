//! A trash can that follows the FreeDesktop trash layout.
//!
//! The library holds the decisions: which trash directory a path goes to,
//! under which name, what its info file says, and in which order the
//! filesystem is touched. The filesystem calls themselves are made by the
//! caller, which drives the state machines of [`move_file`] and
//! [`request`]: it carries out each action they ask for and hands back
//! what came of it.

pub mod decimal;
pub mod error;
pub mod home;
pub mod info_file;
pub mod mount_points;
pub mod move_file;
pub mod names;
pub mod outcome;
pub mod path;
pub mod request;
pub mod stat;
pub mod trash;
