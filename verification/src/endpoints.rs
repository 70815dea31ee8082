//! The primitive endpoints: path matching, query, headers, body and static
//! files.

pub mod body;
pub mod fs;
pub mod header;
pub mod path;
pub mod query;
pub mod skip_all;
