//! Disk-space reporting: which mounted filesystem owns a path, how full it is,
//! and how the answer is laid out as a table.

pub mod cli;
pub mod layout;
pub mod mount;
pub mod mtab;
pub mod report;
pub mod text;
pub mod usage;
