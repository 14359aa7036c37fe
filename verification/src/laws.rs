//! What is proved of every list and of every scan.

pub mod lists;
pub mod scans;
