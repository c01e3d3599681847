//! The builder of a query: each call adds one clause.

use vstd::prelude::*;
use vstd::string::StringExecFns;
use crate::decimal::{uint_to_string, unsigned_decimal};
use crate::dsl::table::Table;
use crate::nodes::{
    Function, FunctionKind, Join, JoinKind, JoinSource, Literal, Node, Offset, Relation,
    SelectCore, SelectStatement, Subselect, TableName, ToNode, ToOrder, ToProjections, Unary,
};

verus! {

/// A query in the making.
pub struct SelectBuilder {
    ast: SelectStatement,
}

impl View for SelectBuilder {
    type V = SelectStatement;

    /// The query as built so far.
    closed spec fn view(&self) -> SelectStatement {
        self.ast
    }
}

impl SelectBuilder {
    /// Whether the rows of `statement` come from the table called `name`,
    /// without a join.
    pub open spec fn comes_from_table(statement: SelectStatement, name: Seq<char>) -> bool {
        &&& statement.context.source is Some
        &&& Self::is_table(statement.context.source->Some_0, name)
        &&& statement.context.source->Some_0.right@.len() == 0
    }

    /// Whether the relation of `source` is the table called `name`.
    pub open spec fn is_table(source: JoinSource, name: Seq<char>) -> bool {
        &&& source.left is Some
        &&& *source.left->Some_0 is TableName
        &&& (*source.left->Some_0)->TableName_0.name@ == name
    }

    /// Whether the rows of `statement` come from what `node` converts to,
    /// without a join.
    pub open spec fn comes_from_node<N: ToNode>(statement: SelectStatement, node: N) -> bool {
        &&& statement.context.source is Some
        &&& statement.context.source->Some_0.left is Some
        &&& node.converts_to(*statement.context.source->Some_0.left->Some_0)
        &&& statement.context.source->Some_0.right@.len() == 0
    }

    /// A query over `table` that selects nothing as yet.
    pub fn new(table: &Table) -> (builder: SelectBuilder)
        ensures
            builder@.has_no_clause(),
            builder@.context.wheres@.len() == 0,
            builder@.context.projections@.len() == 0,
            Self::comes_from_table(builder@, table.name()),
    {
        let mut builder = SelectBuilder { ast: SelectStatement::build() };
        builder.from(table.get_name());
        builder
    }

    /// A query over `node` that selects nothing as yet.
    pub fn from_node<N: ToNode>(node: N) -> (builder: SelectBuilder)
        ensures
            builder@.has_no_clause(),
            builder@.context.wheres@.len() == 0,
            builder@.context.projections@.len() == 0,
            Self::comes_from_node(builder@, node),
    {
        let mut builder = SelectBuilder { ast: SelectStatement::build() };
        builder.ast.context.set_left(node);
        builder
    }

    /// The query as built so far.
    pub fn statement(&self) -> (statement: &SelectStatement)
        ensures
            *statement == self@,
    {
        &self.ast
    }

    /// The unit that is being built, to be changed in place.
    pub fn context(&mut self) -> (context: &mut SelectCore)
        ensures
            *context == old(self)@.context,
            final(self)@.context == *final(context),
            final(self)@.same_clauses(&old(self)@),
    {
        self.ast.context()
    }

    /// Makes the table called `table` the relation that the rows come from,
    /// and hands the builder back for the next call.
    pub fn from(&mut self, table: &str) -> (builder: &mut SelectBuilder)
        ensures
            builder@.same_clauses(&old(self)@),
            old(self)@.context.with_source(
                builder@.context,
                |before: JoinSource, after: JoinSource|
                    after.right == before.right && Self::is_table(after, table@),
            ),
            *final(self) == *final(builder),
    {
        self.ast.context.set_left(TableName::build(table));
        self
    }

    /// The query as a relation under the name `alias`.
    pub fn alias(self, alias: &str) -> (subselect: Subselect)
        ensures
            subselect.select == self@,
            subselect.alias matches Some(name) && name.name@ == alias@,
    {
        Subselect::build(self.ast).alias(alias)
    }

    /// A new query whose rows come from this one.
    pub fn select(self) -> (builder: SelectBuilder)
        ensures
            builder@.has_no_clause(),
            builder@.context.wheres@.len() == 0,
            builder@.context.projections@.len() == 0,
            Self::comes_from_node(builder@, self@),
    {
        let mut builder = SelectBuilder { ast: SelectStatement::build() };
        builder.ast.context.set_left(self.ast);
        builder
    }

    /// `EXISTS` applied to the query.
    pub fn exists_(self) -> (function: Function)
        ensures
            function.kind is Exists,
            function.expressions@ == seq![Node::SelectStatement(self@)],
            function.alias is None,
            !function.distinct,
    {
        let mut expressions: Vec<Node> = Vec::new();
        expressions.push(self.ast.to_node());
        Function::builtin(FunctionKind::Exists, expressions)
    }

    /// Locks the selected rows for an update: the clause `FOR UPDATE`.
    pub fn lock(self) -> (builder: SelectBuilder)
        ensures
            builder@.lock matches Some(lock) && lock.value@ == "FOR UPDATE"@,
            builder@.context == self@.context,
            builder@.cores == self@.cores,
            builder@.orders == self@.orders,
            builder@.limit == self@.limit,
            builder@.offset == self@.offset,
    {
        let mut builder = self;
        builder.ast.lock = Some(Literal::new("FOR UPDATE"));
        builder
    }

    /// Locks the selected rows for the purpose `string`: the clause `FOR`
    /// and the purpose.
    pub fn lock_for(self, string: &str) -> (builder: SelectBuilder)
        ensures
            builder@.lock matches Some(lock) && lock.value@ == "FOR "@ + string@,
            builder@.context == self@.context,
            builder@.cores == self@.cores,
            builder@.orders == self@.orders,
            builder@.limit == self@.limit,
            builder@.offset == self@.offset,
    {
        let mut builder = self;
        let mut text = String::from_str("FOR ");
        text.append(string);
        builder.ast.lock = Some(Literal::new(text.as_str()));
        builder
    }

    /// Adds `order` as the last entry of the `ORDER BY` list.
    pub fn order<T: ToOrder>(self, order: T) -> (builder: SelectBuilder)
        ensures
            builder@.orders@.len() == self@.orders@.len() + 1,
            builder@.orders@.drop_last() == self@.orders@,
            order.orders_by(builder@.orders@.last()),
            builder@.context == self@.context,
            builder@.cores == self@.cores,
            builder@.limit == self@.limit,
            builder@.offset == self@.offset,
            builder@.lock == self@.lock,
    {
        let mut builder = self;
        builder.ast.orders.push(order.to_order());
        assert(builder.ast.orders@.drop_last() =~= self.ast.orders@);
        builder
    }

    /// Skips the first `offset` rows: the number is written in decimal.
    pub fn offset(self, offset: u64) -> (builder: SelectBuilder)
        ensures
            builder@.offset matches Some(clause) && *clause.operand matches Node::Literal(number)
                && number.value@ == unsigned_decimal(offset as nat),
            builder@.context == self@.context,
            builder@.cores == self@.cores,
            builder@.orders == self@.orders,
            builder@.limit == self@.limit,
            builder@.lock == self@.lock,
    {
        let mut builder = self;
        let clause: Offset = Unary::build(Literal::new(uint_to_string(offset).as_str()));
        builder.ast.offset = Some(clause);
        builder
    }

    /// Adds `node` as the last `WHERE` condition.
    pub fn where_<T: ToNode>(self, node: T) -> (builder: SelectBuilder)
        ensures
            builder@.same_clauses(&self@),
            builder@.context.wheres@.len() == self@.context.wheres@.len() + 1,
            builder@.context.wheres@.drop_last() == self@.context.wheres@,
            node.converts_to(builder@.context.wheres@.last()),
            builder@.context.source == self@.context.source,
            builder@.context.projections == self@.context.projections,
    {
        let mut builder = self;
        builder.ast.context.add_where(node.to_node());
        assert(builder.ast.context.wheres@.drop_last() =~= self.ast.context.wheres@);
        builder
    }

    /// Replaces the `SELECT` list by `projections`.
    pub fn project<P: ToProjections>(self, projections: P) -> (builder: SelectBuilder)
        ensures
            builder@.same_clauses(&self@),
            projections.project_to(builder@.context.projections@),
            builder@.context.source == self@.context.source,
            builder@.context.wheres == self@.context.wheres,
    {
        let mut builder = self;
        builder.ast.context.set_projections(projections.to_projections());
        builder
    }

    /// Adds an inner join with `relation`.
    pub fn join<T: Relation>(self, relation: T) -> (builder: SelectBuilder)
        ensures
            builder@.same_clauses(&self@),
            self@.context.with_source(
                builder@.context,
                |before: JoinSource, after: JoinSource|
                    before.with_new_join(JoinKind::InnerJoin, relation, after),
            ),
    {
        self.add_join(JoinKind::InnerJoin, relation)
    }

    /// Adds a left outer join with `relation`.
    pub fn outer_join<T: Relation>(self, relation: T) -> (builder: SelectBuilder)
        ensures
            builder@.same_clauses(&self@),
            self@.context.with_source(
                builder@.context,
                |before: JoinSource, after: JoinSource|
                    before.with_new_join(JoinKind::OuterJoin, relation, after),
            ),
    {
        self.add_join(JoinKind::OuterJoin, relation)
    }

    /// Adds a right outer join with `relation`.
    pub fn right_outer_join<T: Relation>(self, relation: T) -> (builder: SelectBuilder)
        ensures
            builder@.same_clauses(&self@),
            self@.context.with_source(
                builder@.context,
                |before: JoinSource, after: JoinSource|
                    before.with_new_join(JoinKind::RightOuterJoin, relation, after),
            ),
    {
        self.add_join(JoinKind::RightOuterJoin, relation)
    }

    /// Adds a join of the given kind with `relation`.
    fn add_join<T: Relation>(self, kind: JoinKind, relation: T) -> (builder: SelectBuilder)
        ensures
            builder@.same_clauses(&self@),
            self@.context.with_source(
                builder@.context,
                |before: JoinSource, after: JoinSource| before.with_new_join(kind, relation, after),
            ),
    {
        let mut builder = self;
        let join = Join::build(kind, relation);
        builder.ast.context.add_join(join);
        proof {
            if self.ast.context.source is Some {
                let before = self.ast.context.source->Some_0;
                let after = builder.ast.context.source->Some_0;
                assert(before.with_join(join, after));
                assert(after.right@.drop_last() =~= before.right@);
                assert(before.with_new_join(kind, relation, after));
            }
        }
        builder
    }

    /// Gives the join that was added last the condition `on`.
    pub fn on<T: ToNode>(self, on: T) -> (builder: SelectBuilder)
        ensures
            builder@.same_clauses(&self@),
            self@.context.with_source(
                builder@.context,
                |before: JoinSource, after: JoinSource| before.with_on(on, after),
            ),
    {
        let mut builder = self;
        builder.ast.context.on(on);
        builder
    }
}

} // verus!
