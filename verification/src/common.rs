//! Small shared value types.

pub mod either;
