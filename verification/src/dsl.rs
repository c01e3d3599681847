//! A fluent way to build queries: start from a table, then chain the
//! clauses.

pub mod select;
pub mod table;

pub use self::select::SelectBuilder;
pub use self::table::Table;
