//! The pieces that the queries are built from.

pub mod errors;
pub mod fs;
pub mod marshal;
pub mod nibble;
pub mod owner;
pub mod perms;
