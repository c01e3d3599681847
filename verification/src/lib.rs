//! Composable SQL syntax trees and their rendering into SQL text.
//!
//! A tree is built from the node kinds of `nodes`, by hand or with the
//! shorthands of `predications`, `conjunctions` and `dsl`. A visitor, such as
//! `to_sql::ToSqlVisitor`, walks the tree and writes its text into a
//! collector, such as `collector::SqlCollector`.

pub mod collector;
pub mod conjunctions;
pub mod decimal;
pub mod dsl;
pub mod nodes;
pub mod predications;
pub mod to_sql;
pub mod visitor;

pub use conjunctions::Conjunctions;
pub use predications::{OrderPredications, Predications};
