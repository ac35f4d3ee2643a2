//! Client-side core for managing the alternate network paths ("access
//! methods") that the daemon may use to reach its API: the access-method
//! data model with its validation and construction rules, and the command
//! dispatch that turns a selected command into the single remote request
//! it drives.

pub mod access_method;
pub mod cmds;
