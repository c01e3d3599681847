//! A table as the starting point of a query.

use vstd::prelude::*;
use vstd::string::StringExecFns;
use crate::dsl::select::SelectBuilder;
use crate::nodes::{ColumnAt, QualifiedColumn, TableAlias, TableName, ToProjections};

verus! {

/// A table, known by its name.
pub struct Table {
    name: String,
}

impl Table {
    /// The name of the table.
    pub closed spec fn name(&self) -> Seq<char> {
        self.name@
    }

    /// The table called `string`.
    pub fn new(string: &str) -> (table: Table)
        ensures
            table.name() == string@,
    {
        Table { name: String::from_str(string) }
    }

    /// The name of the table.
    pub fn get_name(&self) -> (name: &str)
        ensures
            name@ == self.name(),
    {
        self.name.as_str()
    }

    /// A query that selects `projections` from this table.
    pub fn project<P: ToProjections>(&self, projections: P) -> (select: SelectBuilder)
        ensures
            select@.has_no_clause(),
            select@.context.wheres@.len() == 0,
            projections.project_to(select@.context.projections@),
            SelectBuilder::comes_from_table(select@, self.name()),
    {
        let select = from(self);
        select.project(projections)
    }

    /// A query over this table that selects nothing as yet.
    pub fn select(&self) -> (select: SelectBuilder)
        ensures
            select@.has_no_clause(),
            select@.context.wheres@.len() == 0,
            select@.context.projections@.len() == 0,
            SelectBuilder::comes_from_table(select@, self.name()),
    {
        from(self)
    }

    /// This table under its own name followed by `_2`.
    pub fn alias(&self) -> (alias: TableAlias)
        ensures
            alias.relation.name@ == self.name(),
            alias.name@ == self.name() + "_2"@,
    {
        let mut alias_name = self.name.clone();
        alias_name.append("_2");
        self.alias_as(alias_name.as_str())
    }

    /// This table under the name `alias_name`.
    pub fn alias_as(&self, alias_name: &str) -> (alias: TableAlias)
        ensures
            alias.relation.name@ == self.name(),
            alias.name@ == alias_name@,
    {
        let table_name = TableName::build(self.name.as_str());
        TableAlias::build(table_name, alias_name)
    }
}

/// A query over `table` that selects nothing as yet.
fn from(table: &Table) -> (select: SelectBuilder)
    ensures
        select@.has_no_clause(),
        select@.context.wheres@.len() == 0,
        select@.context.projections@.len() == 0,
        SelectBuilder::comes_from_table(select@, table.name()),
{
    SelectBuilder::new(table)
}

/// A column of a table is qualified with the table's name.
impl ColumnAt for Table {
    open spec fn column_relation(&self) -> Seq<char> {
        self.name()
    }

    fn at(&self, col: &str) -> (column: QualifiedColumn) {
        QualifiedColumn { relation: self.name.clone(), name: String::from_str(col) }
    }
}

} // verus!
