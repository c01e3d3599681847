//! The renderer for the one SQL dialect of this library: identifiers between
//! double quotes, strings and booleans between single quotes, numbers bare.
//!
//! `node_sql` says what text each kind of node stands for; the methods of
//! `ToSqlVisitor` write that text into a collector, one method for each
//! kind.

use vstd::prelude::*;
use vstd::string::StringExecFns;
use crate::collector::{CollectSql, SqlCollector};
use crate::nodes::{
    And, Ascending, Assignment, Bind, Descending, DoesNotMatch, Equality, Function,
    GreaterThan, GreaterThanOrEqual, Join, JoinKind, JoinSource, LessThan, LessThanOrEqual, Limit,
    Literal, Matches, Node, Offset, On, Or, ProjectionNode, QualifiedColumn, SelectCore,
    SelectStatement, Subselect, TableAlias, TableName, UnqualifiedColumn,
};
use crate::visitor::Visitor;

verus! {

/// The visitor that renders a tree as SQL text.
pub struct ToSqlVisitor;

/// The texts `parts` one after another, with `separator` between each two
/// and none after the last.
pub open spec fn joined(parts: Seq<Seq<char>>, separator: Seq<char>) -> Seq<char>
    decreases parts.len(),
{
    if parts.len() == 0 {
        Seq::empty()
    } else if parts.len() == 1 {
        parts.last()
    } else {
        joined(parts.drop_last(), separator) + separator + parts.last()
    }
}

/// `name` between double quotes, with its characters as they are.
pub open spec fn quoted(name: Seq<char>) -> Seq<char> {
    "\""@ + name + "\""@
}

/// Two operands around an operator, with one space on either side of it.
pub open spec fn infix(left: Seq<char>, operator: Seq<char>, right: Seq<char>) -> Seq<char> {
    left + " "@ + operator + " "@ + right
}

/// The words that open a join of the given kind.
pub open spec fn join_kind_sql(kind: JoinKind) -> Seq<char> {
    match kind {
        JoinKind::InnerJoin => "INNER JOIN "@,
        JoinKind::OuterJoin => "LEFT OUTER JOIN "@,
        JoinKind::RightOuterJoin => "RIGHT OUTER JOIN "@,
        JoinKind::FullOuterJoin => "FULL OUTER JOIN "@,
    }
}

/// Whether the renderer has a rule for the kind of `node` and for every kind
/// that rendering `node` comes to.
pub open spec fn supported(node: &Node) -> bool
    decreases node, 0nat,
{
    match node {
        Node::Function(function) => function_supported(function),
        Node::Bind(_) => true,
        Node::Literal(_) => true,
        Node::UnqualifiedColumn(_) => true,
        Node::QualifiedColumn(_) => true,
        Node::TableName(_) => true,
        Node::TableAlias(_) => true,
        Node::Equality(n) => supported(&n.left) && supported(&n.right),
        Node::Assignment(n) => supported(&n.left) && supported(&n.right),
        Node::And(n) => supported(&n.left) && supported(&n.right),
        Node::Or(n) => supported(&n.left) && supported(&n.right),
        Node::GreaterThan(n) => supported(&n.left) && supported(&n.right),
        Node::GreaterThanOrEqual(n) => supported(&n.left) && supported(&n.right),
        Node::LessThan(n) => supported(&n.left) && supported(&n.right),
        Node::LessThanOrEqual(n) => supported(&n.left) && supported(&n.right),
        Node::Matches(n) => supported(&n.left) && supported(&n.right),
        Node::DoesNotMatch(n) => supported(&n.left) && supported(&n.right),
        Node::Limit(n) => supported(&n.operand),
        Node::Ascending(n) => supported(&n.operand),
        Node::Descending(n) => supported(&n.operand),
        Node::Offset(n) => supported(&n.operand),
        Node::On(n) => supported(&n.operand),
        Node::Subselect(subselect) => statement_supported(&subselect.select),
        Node::SelectStatement(statement) => statement_supported(statement),
        Node::SelectCore(core) => core_supported(core),
        Node::JoinSource(source) => source_supported(source),
        Node::Join(join) => join_supported(join),
        _ => false,
    }
}

/// Whether every node of `nodes` can be rendered.
pub open spec fn all_supported(nodes: Seq<Node>) -> bool
    decreases nodes, 0nat,
{
    forall|i: int| 0 <= i < nodes.len() ==> supported(&#[trigger] nodes[i])
}

/// Whether a function call can be rendered: whether its arguments can.
pub open spec fn function_supported(function: &Function) -> bool
    decreases function, 0nat,
{
    all_supported(function.expressions@)
}

/// Whether a join can be rendered: whether its relation and its condition
/// can.
pub open spec fn join_supported(join: &Join) -> bool
    decreases join, 0nat,
{
    &&& supported(&join.relation)
    &&& join.on matches Some(on) ==> supported(&on.operand)
}

/// Whether a source can be rendered: whether its relation and its joins can.
pub open spec fn source_supported(source: &JoinSource) -> bool
    decreases source, 0nat,
{
    &&& source.left matches Some(left) ==> supported(&left)
    &&& forall|i: int| 0 <= i < source.right@.len() ==> join_supported(&#[trigger] source.right@[i])
}

/// Whether a query unit can be rendered: whether its source and its
/// conditions can. What stands in a `SELECT` list can always be rendered.
pub open spec fn core_supported(core: &SelectCore) -> bool
    decreases core, 0nat,
{
    &&& core.source matches Some(source) ==> source_supported(&source)
    &&& all_supported(core.wheres@)
}

/// Whether a query can be rendered: whether its units, its `ORDER BY` entries
/// and its offset can. The limit of a query is never written, so it is not
/// asked for.
pub open spec fn statement_supported(statement: &SelectStatement) -> bool
    decreases statement, 0nat,
{
    &&& core_supported(&statement.context)
    &&& forall|i: int|
        0 <= i < statement.cores@.len() ==> core_supported(&#[trigger] statement.cores@[i])
    &&& all_supported(statement.orders@)
    &&& statement.offset matches Some(offset) ==> supported(&offset.operand)
}

/// The SQL text of `node`, as written into a collector of type `C`. The
/// kinds for which the renderer has no rule stand for no text.
pub open spec fn node_sql<C: CollectSql>(node: &Node) -> Seq<char>
    decreases node, 0nat,
{
    match node {
        Node::Function(function) => function_sql::<C>(function),
        Node::Bind(bind) => C::bind_text(bind),
        Node::Literal(literal) => literal.value@,
        Node::UnqualifiedColumn(column) => quoted(column.name@),
        Node::QualifiedColumn(column) => qualified_column_sql(column),
        Node::TableName(table) => quoted(table.name@),
        Node::TableAlias(alias) => table_alias_sql(alias),
        Node::Equality(n) => infix(node_sql::<C>(&n.left), "="@, node_sql::<C>(&n.right)),
        Node::Assignment(n) => infix(node_sql::<C>(&n.left), "="@, node_sql::<C>(&n.right)),
        Node::And(n) => infix(node_sql::<C>(&n.left), "AND"@, node_sql::<C>(&n.right)),
        Node::Or(n) => infix(node_sql::<C>(&n.left), "OR"@, node_sql::<C>(&n.right)),
        Node::GreaterThan(n) => infix(node_sql::<C>(&n.left), ">"@, node_sql::<C>(&n.right)),
        Node::GreaterThanOrEqual(n) => infix(node_sql::<C>(&n.left), ">="@, node_sql::<C>(&n.right)),
        Node::LessThan(n) => infix(node_sql::<C>(&n.left), "<"@, node_sql::<C>(&n.right)),
        Node::LessThanOrEqual(n) => infix(node_sql::<C>(&n.left), "<="@, node_sql::<C>(&n.right)),
        Node::Matches(n) => infix(node_sql::<C>(&n.left), "LIKE"@, node_sql::<C>(&n.right)),
        Node::DoesNotMatch(n) => infix(node_sql::<C>(&n.left), "NOT LIKE"@, node_sql::<C>(&n.right)),
        Node::Limit(n) => "LIMIT "@ + node_sql::<C>(&n.operand),
        Node::Ascending(n) => node_sql::<C>(&n.operand) + " ASC"@,
        Node::Descending(n) => node_sql::<C>(&n.operand) + " DESC"@,
        Node::Offset(n) => "OFFSET "@ + node_sql::<C>(&n.operand),
        Node::On(n) => "ON "@ + node_sql::<C>(&n.operand),
        Node::Subselect(subselect) => subselect_sql::<C>(subselect),
        Node::SelectStatement(statement) => statement_sql::<C>(statement),
        Node::SelectCore(core) => core_sql::<C>(core),
        Node::JoinSource(source) => source_sql::<C>(source),
        Node::Join(join) => join_sql::<C>(join),
        _ => Seq::empty(),
    }
}

/// The texts of `nodes`, in their order.
pub open spec fn node_texts<C: CollectSql>(nodes: Seq<Node>) -> Seq<Seq<char>>
    decreases nodes, 0nat,
{
    Seq::new(
        nodes.len(),
        |i: int|
            if 0 <= i < nodes.len() {
                node_sql::<C>(&nodes[i])
            } else {
                Seq::empty()
            },
    )
}

/// A column with its relation: both names quoted, a point between them.
pub open spec fn qualified_column_sql(column: &QualifiedColumn) -> Seq<char> {
    quoted(column.relation@) + "."@ + quoted(column.name@)
}

/// An aliased table: the table's name, a space, the alias, both quoted.
pub open spec fn table_alias_sql(alias: &TableAlias) -> Seq<char> {
    quoted(alias.relation.name@) + " "@ + quoted(alias.name@)
}

/// An entry of a `SELECT` list: the text of the node that it is.
pub open spec fn projection_sql<C: CollectSql>(projection: &ProjectionNode) -> Seq<char> {
    match projection {
        ProjectionNode::Literal(literal) => literal.value@,
        ProjectionNode::Bind(bind) => C::bind_text(bind),
        ProjectionNode::QualifiedColumn(column) => qualified_column_sql(column),
        ProjectionNode::UnqualifiedColumn(column) => quoted(column.name@),
    }
}

/// An entry of a `SELECT` list is written as the node that it is.
pub proof fn lemma_projection_is_written_as_its_node<C: CollectSql>(projection: ProjectionNode)
    ensures
        projection_sql::<C>(&projection) == node_sql::<C>(&projection.node()),
{
}

/// The texts of the entries of a `SELECT` list, in their order.
pub open spec fn projection_texts<C: CollectSql>(projections: Seq<ProjectionNode>) -> Seq<
    Seq<char>,
> {
    Seq::new(projections.len(), |i: int| projection_sql::<C>(&projections[i]))
}

/// A function call: the name, then at once in parentheses `DISTINCT ` if the
/// call is flagged so and the arguments with `, ` between them, then ` AS `
/// and the quoted alias if there is one. The rule is the same for every
/// name.
pub open spec fn function_sql<C: CollectSql>(function: &Function) -> Seq<char>
    decreases function, 0nat,
{
    function.kind.name() + "("@ + (if function.distinct {
        "DISTINCT "@
    } else {
        Seq::empty()
    }) + joined(node_texts::<C>(function.expressions@), ", "@) + ")"@ + (match function.alias {
        Some(alias) => " AS "@ + quoted(alias.name@),
        None => Seq::empty(),
    })
}

/// A join: the words of its kind, the relation, and ` ON ` with the condition
/// if there is one.
pub open spec fn join_sql<C: CollectSql>(join: &Join) -> Seq<char>
    decreases join, 0nat,
{
    join_kind_sql(join.kind) + node_sql::<C>(&join.relation) + (match join.on {
        Some(on) => " "@ + ("ON "@ + node_sql::<C>(&on.operand)),
        None => Seq::empty(),
    })
}

/// The texts of `joins`, in their order.
pub open spec fn join_texts<C: CollectSql>(joins: Seq<Join>) -> Seq<Seq<char>>
    decreases joins, 0nat,
{
    Seq::new(
        joins.len(),
        |i: int|
            if 0 <= i < joins.len() {
                join_sql::<C>(&joins[i])
            } else {
                Seq::empty()
            },
    )
}

/// A source: the relation if there is one, then, if there are joins, a space
/// and the joins with one space between them.
pub open spec fn source_sql<C: CollectSql>(source: &JoinSource) -> Seq<char>
    decreases source, 0nat,
{
    (match source.left {
        Some(left) => node_sql::<C>(&left),
        None => Seq::empty(),
    }) + (if source.right@.len() > 0 {
        " "@ + joined(join_texts::<C>(source.right@), " "@)
    } else {
        Seq::empty()
    })
}

/// A query unit: `SELECT`; a space and the entries of the list with `, `
/// between them, if there are any; ` FROM ` and the source, if there is one;
/// ` WHERE ` and the conditions with `, ` between them, if there are any.
pub open spec fn core_sql<C: CollectSql>(core: &SelectCore) -> Seq<char>
    decreases core, 0nat,
{
    "SELECT"@ + (if core.projections@.len() > 0 {
        " "@ + joined(projection_texts::<C>(core.projections@), ", "@)
    } else {
        Seq::empty()
    }) + (match core.source {
        Some(source) => " FROM "@ + source_sql::<C>(&source),
        None => Seq::empty(),
    }) + (if core.wheres@.len() > 0 {
        " WHERE "@ + joined(node_texts::<C>(core.wheres@), ", "@)
    } else {
        Seq::empty()
    })
}

/// The texts of `cores`, in their order.
pub open spec fn core_texts<C: CollectSql>(cores: Seq<SelectCore>) -> Seq<Seq<char>>
    decreases cores, 0nat,
{
    Seq::new(
        cores.len(),
        |i: int|
            if 0 <= i < cores.len() {
                core_sql::<C>(&cores[i])
            } else {
                Seq::empty()
            },
    )
}

/// An `ORDER BY` clause: nothing for an empty list; else ` ORDER BY ` and the
/// entries in their order with `, ` between them.
pub open spec fn order_by_sql<C: CollectSql>(orders: Seq<Node>) -> Seq<char>
    decreases orders, 1nat,
{
    if orders.len() > 0 {
        " ORDER BY "@ + joined(node_texts::<C>(orders), ", "@)
    } else {
        Seq::empty()
    }
}

/// A query: its units one after another, the earlier ones first; the
/// `ORDER BY` clause; then, each after a space if it is there, the locking
/// clause and the offset. The limit of a query is not written.
pub open spec fn statement_sql<C: CollectSql>(statement: &SelectStatement) -> Seq<char>
    decreases statement, 0nat,
{
    joined(core_texts::<C>(statement.cores@), Seq::empty()) + core_sql::<C>(&statement.context)
        + order_by_sql::<C>(statement.orders@) + (match statement.lock {
        Some(lock) => " "@ + lock.value@,
        None => Seq::empty(),
    }) + (match statement.offset {
        Some(offset) => " "@ + ("OFFSET "@ + node_sql::<C>(&offset.operand)),
        None => Seq::empty(),
    })
}

/// A query used as a relation: the query in parentheses, then a space and
/// the quoted alias if there is one.
pub open spec fn subselect_sql<C: CollectSql>(subselect: &Subselect) -> Seq<char>
    decreases subselect, 0nat,
{
    "("@ + statement_sql::<C>(&subselect.select) + ")"@ + (match subselect.alias {
        Some(alias) => " "@ + quoted(alias.name@),
        None => Seq::empty(),
    })
}

/// Joining one text more: the first text stands alone, and each later one
/// follows the texts before it after one separator.
pub proof fn lemma_joined_push(parts: Seq<Seq<char>>, separator: Seq<char>, next: Seq<char>)
    ensures
        joined(parts.push(next), separator) == if parts.len() == 0 {
            next
        } else {
            joined(parts, separator) + separator + next
        },
{
    assert(parts.push(next).drop_last() =~= parts);
}

impl ToSqlVisitor {
    /// Renders `node` by the rule of its kind. There is no rule to fall back
    /// on: a kind that the renderer does not support must not come here.
    pub fn visit_node<C: CollectSql>(&self, node: &Node, collector: &mut C)
        requires
            supported(node),
        ensures
            final(collector).text() == old(collector).text() + node_sql::<C>(node),
        decreases node, 0nat,
    {
        match node {
            Node::Function(function) => self.function(function, collector),
            Node::Bind(bind) => self.bind(bind, collector),
            Node::Literal(literal) => self.literal(literal, collector),
            Node::UnqualifiedColumn(column) => self.unqualified_column(column, collector),
            Node::QualifiedColumn(column) => self.qualified_column(column, collector),
            Node::TableName(table) => self.table_name(table, collector),
            Node::TableAlias(alias) => self.table_alias(alias, collector),
            Node::Equality(n) => self.equality(n, collector),
            Node::Assignment(n) => self.assignment(n, collector),
            Node::And(n) => self.and(n, collector),
            Node::Or(n) => self.or(n, collector),
            Node::GreaterThan(n) => self.greater_than(n, collector),
            Node::GreaterThanOrEqual(n) => self.greater_than_or_equal(n, collector),
            Node::LessThan(n) => self.less_than(n, collector),
            Node::LessThanOrEqual(n) => self.less_than_or_equal(n, collector),
            Node::Matches(n) => self.matches(n, collector),
            Node::DoesNotMatch(n) => self.does_not_match(n, collector),
            Node::Limit(n) => self.limit(n, collector),
            Node::Ascending(n) => self.ascending(n, collector),
            Node::Descending(n) => self.descending(n, collector),
            Node::Offset(n) => self.offset(n, collector),
            Node::On(n) => self.on(n, collector),
            Node::Subselect(subselect) => self.subselect(subselect, collector),
            Node::SelectStatement(statement) => self.select_statement(statement, collector),
            Node::SelectCore(core) => self.select_core(core, collector),
            Node::JoinSource(source) => self.join_source(source, collector),
            Node::Join(join) => self.join(join, collector),
            _ => unreached(),
        }
    }

    /// Renders a function call.
    pub fn function<C: CollectSql>(&self, function: &Function, collector: &mut C)
        requires
            function_supported(function),
        ensures
            final(collector).text() == old(collector).text() + function_sql::<C>(function),
        decreases function, 1nat,
    {
        collector.push(function.name());
        collector.push("(");
        if function.distinct {
            collector.push("DISTINCT ");
        }
        self.fold_join(&function.expressions, collector, ", ");
        collector.push(")");
        match &function.alias {
            Some(alias) => {
                collector.push(" AS ");
                self.unqualified_column(alias, collector);
            },
            None => {},
        }
        assert(collector.text() =~= old(collector).text() + function_sql::<C>(function));
    }

    /// Renders a bound value: the collector encodes it.
    pub fn bind<C: CollectSql>(&self, bind: &Bind, collector: &mut C)
        ensures
            final(collector).text() == old(collector).text() + C::bind_text(bind),
    {
        collector.add_bind(bind)
    }

    /// Renders literal text: as it stands.
    pub fn literal<C: CollectSql>(&self, literal: &Literal, collector: &mut C)
        ensures
            final(collector).text() == old(collector).text() + literal.value@,
    {
        collector.push(literal.value.as_str())
    }

    /// Renders a column without its relation: the quoted name.
    pub fn unqualified_column<C: CollectSql>(&self, column: &UnqualifiedColumn, collector: &mut C)
        ensures
            final(collector).text() == old(collector).text() + quoted(column.name@),
    {
        self.column(column.name.as_str(), collector);
    }

    /// Renders a column with its relation.
    pub fn qualified_column<C: CollectSql>(&self, column: &QualifiedColumn, collector: &mut C)
        ensures
            final(collector).text() == old(collector).text() + qualified_column_sql(column),
    {
        self.column(column.relation.as_str(), collector);
        collector.push(".");
        self.column(column.name.as_str(), collector);
        assert(collector.text() =~= old(collector).text() + qualified_column_sql(column));
    }

    /// Renders a limit: `LIMIT ` and the operand.
    pub fn limit<C: CollectSql>(&self, limit: &Limit, collector: &mut C)
        requires
            supported(&limit.operand),
        ensures
            final(collector).text() == old(collector).text() + ("LIMIT "@ + node_sql::<C>(
                &limit.operand,
            )),
        decreases limit, 1nat,
    {
        collector.push("LIMIT ");
        self.visit_node(&limit.operand, collector);
        assert(collector.text() =~= old(collector).text() + ("LIMIT "@ + node_sql::<C>(
            &limit.operand,
        )));
    }

    /// Renders a comparison for equality: the two operands around `=`.
    pub fn equality<C: CollectSql>(&self, node: &Equality, collector: &mut C)
        requires
            supported(&node.left),
            supported(&node.right),
        ensures
            final(collector).text() == old(collector).text() + infix(
                node_sql::<C>(&node.left),
                "="@,
                node_sql::<C>(&node.right),
            ),
        decreases node, 1nat,
    {
        self.visit_node(&node.left, collector);
        self.binary("=", collector);
        self.visit_node(&node.right, collector);
        assert(collector.text() =~= old(collector).text() + infix(
            node_sql::<C>(&node.left),
            "="@,
            node_sql::<C>(&node.right),
        ));
    }

    /// Renders an assignment: the two operands around `=`.
    pub fn assignment<C: CollectSql>(&self, node: &Assignment, collector: &mut C)
        requires
            supported(&node.left),
            supported(&node.right),
        ensures
            final(collector).text() == old(collector).text() + infix(
                node_sql::<C>(&node.left),
                "="@,
                node_sql::<C>(&node.right),
            ),
        decreases node, 1nat,
    {
        self.visit_node(&node.left, collector);
        self.binary("=", collector);
        self.visit_node(&node.right, collector);
        assert(collector.text() =~= old(collector).text() + infix(
            node_sql::<C>(&node.left),
            "="@,
            node_sql::<C>(&node.right),
        ));
    }

    /// Renders a conjunction: the two operands around `AND`.
    pub fn and<C: CollectSql>(&self, node: &And, collector: &mut C)
        requires
            supported(&node.left),
            supported(&node.right),
        ensures
            final(collector).text() == old(collector).text() + infix(
                node_sql::<C>(&node.left),
                "AND"@,
                node_sql::<C>(&node.right),
            ),
        decreases node, 1nat,
    {
        self.visit_node(&node.left, collector);
        self.binary("AND", collector);
        self.visit_node(&node.right, collector);
        assert(collector.text() =~= old(collector).text() + infix(
            node_sql::<C>(&node.left),
            "AND"@,
            node_sql::<C>(&node.right),
        ));
    }

    /// Renders a disjunction: the two operands around `OR`.
    pub fn or<C: CollectSql>(&self, node: &Or, collector: &mut C)
        requires
            supported(&node.left),
            supported(&node.right),
        ensures
            final(collector).text() == old(collector).text() + infix(
                node_sql::<C>(&node.left),
                "OR"@,
                node_sql::<C>(&node.right),
            ),
        decreases node, 1nat,
    {
        self.visit_node(&node.left, collector);
        self.binary("OR", collector);
        self.visit_node(&node.right, collector);
        assert(collector.text() =~= old(collector).text() + infix(
            node_sql::<C>(&node.left),
            "OR"@,
            node_sql::<C>(&node.right),
        ));
    }

    /// Renders a comparison `>`: the two operands around `>`.
    pub fn greater_than<C: CollectSql>(&self, node: &GreaterThan, collector: &mut C)
        requires
            supported(&node.left),
            supported(&node.right),
        ensures
            final(collector).text() == old(collector).text() + infix(
                node_sql::<C>(&node.left),
                ">"@,
                node_sql::<C>(&node.right),
            ),
        decreases node, 1nat,
    {
        self.visit_node(&node.left, collector);
        self.binary(">", collector);
        self.visit_node(&node.right, collector);
        assert(collector.text() =~= old(collector).text() + infix(
            node_sql::<C>(&node.left),
            ">"@,
            node_sql::<C>(&node.right),
        ));
    }

    /// Renders a comparison `>=`: the two operands around `>=`.
    pub fn greater_than_or_equal<C: CollectSql>(&self, node: &GreaterThanOrEqual, collector: &mut C)
        requires
            supported(&node.left),
            supported(&node.right),
        ensures
            final(collector).text() == old(collector).text() + infix(
                node_sql::<C>(&node.left),
                ">="@,
                node_sql::<C>(&node.right),
            ),
        decreases node, 1nat,
    {
        self.visit_node(&node.left, collector);
        self.binary(">=", collector);
        self.visit_node(&node.right, collector);
        assert(collector.text() =~= old(collector).text() + infix(
            node_sql::<C>(&node.left),
            ">="@,
            node_sql::<C>(&node.right),
        ));
    }

    /// Renders a comparison `<`: the two operands around `<`.
    pub fn less_than<C: CollectSql>(&self, node: &LessThan, collector: &mut C)
        requires
            supported(&node.left),
            supported(&node.right),
        ensures
            final(collector).text() == old(collector).text() + infix(
                node_sql::<C>(&node.left),
                "<"@,
                node_sql::<C>(&node.right),
            ),
        decreases node, 1nat,
    {
        self.visit_node(&node.left, collector);
        self.binary("<", collector);
        self.visit_node(&node.right, collector);
        assert(collector.text() =~= old(collector).text() + infix(
            node_sql::<C>(&node.left),
            "<"@,
            node_sql::<C>(&node.right),
        ));
    }

    /// Renders a comparison `<=`: the two operands around `<=`.
    pub fn less_than_or_equal<C: CollectSql>(&self, node: &LessThanOrEqual, collector: &mut C)
        requires
            supported(&node.left),
            supported(&node.right),
        ensures
            final(collector).text() == old(collector).text() + infix(
                node_sql::<C>(&node.left),
                "<="@,
                node_sql::<C>(&node.right),
            ),
        decreases node, 1nat,
    {
        self.visit_node(&node.left, collector);
        self.binary("<=", collector);
        self.visit_node(&node.right, collector);
        assert(collector.text() =~= old(collector).text() + infix(
            node_sql::<C>(&node.left),
            "<="@,
            node_sql::<C>(&node.right),
        ));
    }

    /// Renders a pattern match: the two operands around `LIKE`.
    pub fn matches<C: CollectSql>(&self, node: &Matches, collector: &mut C)
        requires
            supported(&node.left),
            supported(&node.right),
        ensures
            final(collector).text() == old(collector).text() + infix(
                node_sql::<C>(&node.left),
                "LIKE"@,
                node_sql::<C>(&node.right),
            ),
        decreases node, 1nat,
    {
        self.visit_node(&node.left, collector);
        self.binary("LIKE", collector);
        self.visit_node(&node.right, collector);
        assert(collector.text() =~= old(collector).text() + infix(
            node_sql::<C>(&node.left),
            "LIKE"@,
            node_sql::<C>(&node.right),
        ));
    }

    /// Renders a failed pattern match: the two operands around `NOT LIKE`.
    pub fn does_not_match<C: CollectSql>(&self, node: &DoesNotMatch, collector: &mut C)
        requires
            supported(&node.left),
            supported(&node.right),
        ensures
            final(collector).text() == old(collector).text() + infix(
                node_sql::<C>(&node.left),
                "NOT LIKE"@,
                node_sql::<C>(&node.right),
            ),
        decreases node, 1nat,
    {
        self.visit_node(&node.left, collector);
        self.binary("NOT LIKE", collector);
        self.visit_node(&node.right, collector);
        assert(collector.text() =~= old(collector).text() + infix(
            node_sql::<C>(&node.left),
            "NOT LIKE"@,
            node_sql::<C>(&node.right),
        ));
    }

    /// Renders an ascending `ORDER BY` entry: the operand, then ` ASC`.
    pub fn ascending<C: CollectSql>(&self, asc: &Ascending, collector: &mut C)
        requires
            supported(&asc.operand),
        ensures
            final(collector).text() == old(collector).text() + (node_sql::<C>(&asc.operand)
                + " ASC"@),
        decreases asc, 1nat,
    {
        self.postfix(&asc.operand, " ASC", collector);
    }

    /// Renders a descending `ORDER BY` entry: the operand, then ` DESC`.
    pub fn descending<C: CollectSql>(&self, desc: &Descending, collector: &mut C)
        requires
            supported(&desc.operand),
        ensures
            final(collector).text() == old(collector).text() + (node_sql::<C>(&desc.operand)
                + " DESC"@),
        decreases desc, 1nat,
    {
        self.postfix(&desc.operand, " DESC", collector);
    }

    /// Renders an offset: `OFFSET ` and the operand.
    pub fn offset<C: CollectSql>(&self, offset: &Offset, collector: &mut C)
        requires
            supported(&offset.operand),
        ensures
            final(collector).text() == old(collector).text() + ("OFFSET "@ + node_sql::<C>(
                &offset.operand,
            )),
        decreases offset, 1nat,
    {
        self.prefix(&offset.operand, "OFFSET ", collector);
    }

    /// Renders a query used as a relation.
    pub fn subselect<C: CollectSql>(&self, subselect: &Subselect, collector: &mut C)
        requires
            statement_supported(&subselect.select),
        ensures
            final(collector).text() == old(collector).text() + subselect_sql::<C>(subselect),
        decreases subselect, 1nat,
    {
        collector.push("(");
        self.select_statement(&subselect.select, collector);
        collector.push(")");
        self.maybe_table_name(&subselect.alias, collector);
        assert(collector.text() =~= old(collector).text() + subselect_sql::<C>(subselect));
    }

    /// Renders a whole query.
    pub fn select_statement<C: CollectSql>(&self, select: &SelectStatement, collector: &mut C)
        requires
            statement_supported(select),
        ensures
            final(collector).text() == old(collector).text() + statement_sql::<C>(select),
        decreases select, 1nat,
    {
        self.cores(&select.cores, collector);
        self.select_core(&select.context, collector);
        self.order_by(&select.orders, collector);
        self.maybe_literal(&select.lock, collector);
        self.maybe_offset(&select.offset, collector);
        assert(collector.text() =~= old(collector).text() + statement_sql::<C>(select));
    }

    /// Renders the units of a query one after another.
    fn cores<C: CollectSql>(&self, cores: &Vec<SelectCore>, collector: &mut C)
        requires
            forall|i: int| 0 <= i < cores@.len() ==> core_supported(&#[trigger] cores@[i]),
        ensures
            final(collector).text() == old(collector).text() + joined(
                core_texts::<C>(cores@),
                Seq::empty(),
            ),
        decreases cores, 0nat,
    {
        let ghost texts = core_texts::<C>(cores@);
        let mut i: usize = 0;
        while i < cores.len()
            invariant
                i <= cores@.len(),
                forall|k: int| 0 <= k < cores@.len() ==> core_supported(&#[trigger] cores@[k]),
                texts == core_texts::<C>(cores@),
                collector.text() == old(collector).text() + joined(
                    texts.take(i as int),
                    Seq::empty(),
                ),
            decreases cores@.len() - i,
        {
            self.select_core(&cores[i], collector);
            proof {
                lemma_joined_push(texts.take(i as int), Seq::empty(), texts[i as int]);
                assert(texts.take(i + 1) =~= texts.take(i as int).push(texts[i as int]));
                assert(collector.text() =~= old(collector).text() + joined(
                    texts.take(i + 1),
                    Seq::empty(),
                ));
            }
            i += 1;
        }
        assert(texts.take(i as int) =~= texts);
    }

    /// Renders an `ORDER BY` clause: nothing for an empty list.
    fn order_by<C: CollectSql>(&self, orders: &Vec<Node>, collector: &mut C)
        requires
            all_supported(orders@),
        ensures
            final(collector).text() == old(collector).text() + order_by_sql::<C>(orders@),
        decreases orders, 1nat,
    {
        if !orders.is_empty() {
            collector.push(" ORDER BY ");
            self.fold_join(orders, collector, ", ");
            assert(collector.text() =~= old(collector).text() + order_by_sql::<C>(orders@));
        } else {
            assert(collector.text() =~= old(collector).text() + order_by_sql::<C>(orders@));
        }
    }

    /// Renders literal text that may be absent: a space and the text, or
    /// nothing.
    fn maybe_literal<C: CollectSql>(&self, node: &Option<Literal>, collector: &mut C)
        ensures
            final(collector).text() == old(collector).text() + (match *node {
                Some(literal) => " "@ + literal.value@,
                None => Seq::empty(),
            }),
    {
        match node {
            Some(literal) => {
                collector.push(" ");
                self.literal(literal, collector);
                assert(collector.text() =~= old(collector).text() + (" "@ + literal.value@));
            },
            None => {
                assert(collector.text() =~= old(collector).text() + Seq::<char>::empty());
            },
        }
    }

    /// Renders a table name that may be absent: a space and the quoted name,
    /// or nothing.
    fn maybe_table_name<C: CollectSql>(&self, node: &Option<TableName>, collector: &mut C)
        ensures
            final(collector).text() == old(collector).text() + (match *node {
                Some(table) => " "@ + quoted(table.name@),
                None => Seq::empty(),
            }),
    {
        match node {
            Some(table) => {
                collector.push(" ");
                self.table_name(table, collector);
                assert(collector.text() =~= old(collector).text() + (" "@ + quoted(table.name@)));
            },
            None => {
                assert(collector.text() =~= old(collector).text() + Seq::<char>::empty());
            },
        }
    }

    /// Renders an offset that may be absent: a space and the offset, or
    /// nothing.
    fn maybe_offset<C: CollectSql>(&self, node: &Option<Offset>, collector: &mut C)
        requires
            *node matches Some(offset) ==> supported(&offset.operand),
        ensures
            final(collector).text() == old(collector).text() + (match *node {
                Some(offset) => " "@ + ("OFFSET "@ + node_sql::<C>(&offset.operand)),
                None => Seq::empty(),
            }),
        decreases node, 2nat,
    {
        match node {
            Some(offset) => {
                collector.push(" ");
                self.offset(offset, collector);
                assert(collector.text() =~= old(collector).text() + (" "@ + ("OFFSET "@
                    + node_sql::<C>(&offset.operand))));
            },
            None => {
                assert(collector.text() =~= old(collector).text() + Seq::<char>::empty());
            },
        }
    }

    /// Renders the condition of a join that may be absent: a space and the
    /// condition, or nothing.
    fn maybe_on<C: CollectSql>(&self, node: &Option<On>, collector: &mut C)
        requires
            *node matches Some(on) ==> supported(&on.operand),
        ensures
            final(collector).text() == old(collector).text() + (match *node {
                Some(on) => " "@ + ("ON "@ + node_sql::<C>(&on.operand)),
                None => Seq::empty(),
            }),
        decreases node, 2nat,
    {
        match node {
            Some(on) => {
                collector.push(" ");
                self.on(on, collector);
                assert(collector.text() =~= old(collector).text() + (" "@ + ("ON "@
                    + node_sql::<C>(&on.operand))));
            },
            None => {
                assert(collector.text() =~= old(collector).text() + Seq::<char>::empty());
            },
        }
    }

    /// Renders one query unit.
    pub fn select_core<C: CollectSql>(&self, select: &SelectCore, collector: &mut C)
        requires
            core_supported(select),
        ensures
            final(collector).text() == old(collector).text() + core_sql::<C>(select),
        decreases select, 1nat,
    {
        collector.push("SELECT");
        self.projections(&select.projections, collector);
        match &select.source {
            Some(source) => {
                collector.push(" FROM ");
                self.join_source(source, collector);
            },
            None => {},
        }
        if !select.wheres.is_empty() {
            collector.push(" WHERE ");
            self.fold_join(&select.wheres, collector, ", ");
        }
        assert(collector.text() =~= old(collector).text() + core_sql::<C>(select));
    }

    /// Renders a `SELECT` list: nothing for an empty list; else a space and
    /// the entries in their order with `, ` between each two.
    fn projections<C: CollectSql>(&self, projections: &Vec<ProjectionNode>, collector: &mut C)
        ensures
            final(collector).text() == old(collector).text() + (if projections@.len() > 0 {
                " "@ + joined(projection_texts::<C>(projections@), ", "@)
            } else {
                Seq::empty()
            }),
    {
        let ghost texts = projection_texts::<C>(projections@);
        if !projections.is_empty() {
            collector.push(" ");
            let mut i: usize = 0;
            while i < projections.len()
                invariant
                    i <= projections@.len(),
                    texts == projection_texts::<C>(projections@),
                    collector.text() == old(collector).text() + " "@ + joined(
                        texts.take(i as int),
                        ", "@,
                    ),
                decreases projections@.len() - i,
            {
                if i != 0 {
                    collector.push(", ");
                }
                self.projection(&projections[i], collector);
                proof {
                    lemma_joined_push(texts.take(i as int), ", "@, texts[i as int]);
                    assert(texts.take(i + 1) =~= texts.take(i as int).push(texts[i as int]));
                    assert(collector.text() =~= old(collector).text() + " "@ + joined(
                        texts.take(i + 1),
                        ", "@,
                    ));
                }
                i += 1;
            }
            assert(texts.take(i as int) =~= texts);
            assert(collector.text() =~= old(collector).text() + (" "@ + joined(texts, ", "@)));
        } else {
            assert(collector.text() =~= old(collector).text() + Seq::<char>::empty());
        }
    }

    /// Renders one entry of a `SELECT` list.
    pub fn projection<C: CollectSql>(&self, projection: &ProjectionNode, collector: &mut C)
        ensures
            final(collector).text() == old(collector).text() + projection_sql::<C>(projection),
    {
        match projection {
            ProjectionNode::Literal(literal) => self.literal(literal, collector),
            ProjectionNode::Bind(bind) => self.bind(bind, collector),
            ProjectionNode::QualifiedColumn(column) => self.qualified_column(column, collector),
            ProjectionNode::UnqualifiedColumn(column) => self.unqualified_column(column, collector),
        }
    }

    /// Renders the source of a query's rows.
    pub fn join_source<C: CollectSql>(&self, source: &JoinSource, collector: &mut C)
        requires
            source_supported(source),
        ensures
            final(collector).text() == old(collector).text() + source_sql::<C>(source),
        decreases source, 1nat,
    {
        match &source.left {
            Some(node) => self.visit_node(node, collector),
            None => {},
        }
        if !source.right.is_empty() {
            collector.push(" ");
            self.joins(&source.right, collector);
        }
        assert(collector.text() =~= old(collector).text() + source_sql::<C>(source));
    }

    /// Renders joins in their order, with one space between each two.
    fn joins<C: CollectSql>(&self, joins: &Vec<Join>, collector: &mut C)
        requires
            forall|i: int| 0 <= i < joins@.len() ==> join_supported(&#[trigger] joins@[i]),
        ensures
            final(collector).text() == old(collector).text() + joined(
                join_texts::<C>(joins@),
                " "@,
            ),
        decreases joins, 0nat,
    {
        let ghost texts = join_texts::<C>(joins@);
        let mut i: usize = 0;
        while i < joins.len()
            invariant
                i <= joins@.len(),
                forall|k: int| 0 <= k < joins@.len() ==> join_supported(&#[trigger] joins@[k]),
                texts == join_texts::<C>(joins@),
                collector.text() == old(collector).text() + joined(texts.take(i as int), " "@),
            decreases joins@.len() - i,
        {
            if i != 0 {
                collector.push(" ");
            }
            self.join(&joins[i], collector);
            proof {
                lemma_joined_push(texts.take(i as int), " "@, texts[i as int]);
                assert(texts.take(i + 1) =~= texts.take(i as int).push(texts[i as int]));
                assert(collector.text() =~= old(collector).text() + joined(
                    texts.take(i + 1),
                    " "@,
                ));
            }
            i += 1;
        }
        assert(texts.take(i as int) =~= texts);
    }

    /// Renders a join.
    pub fn join<C: CollectSql>(&self, source: &Join, collector: &mut C)
        requires
            join_supported(source),
        ensures
            final(collector).text() == old(collector).text() + join_sql::<C>(source),
        decreases source, 1nat,
    {
        let name = match source.kind {
            JoinKind::InnerJoin => "INNER JOIN ",
            JoinKind::OuterJoin => "LEFT OUTER JOIN ",
            JoinKind::RightOuterJoin => "RIGHT OUTER JOIN ",
            JoinKind::FullOuterJoin => "FULL OUTER JOIN ",
        };
        collector.push(name);
        self.visit_node(&source.relation, collector);
        self.maybe_on(&source.on, collector);
        assert(collector.text() =~= old(collector).text() + join_sql::<C>(source));
    }

    /// Renders a table: its quoted name.
    pub fn table_name<C: CollectSql>(&self, table: &TableName, collector: &mut C)
        ensures
            final(collector).text() == old(collector).text() + quoted(table.name@),
    {
        self.table(table.name.as_str(), collector);
    }

    /// Renders an aliased table.
    pub fn table_alias<C: CollectSql>(&self, alias: &TableAlias, collector: &mut C)
        ensures
            final(collector).text() == old(collector).text() + table_alias_sql(alias),
    {
        self.table(alias.get_table_name(), collector);
        collector.push(" ");
        self.table(alias.name.as_str(), collector);
        assert(collector.text() =~= old(collector).text() + table_alias_sql(alias));
    }

    /// Renders the condition of a join: `ON ` and the operand.
    pub fn on<C: CollectSql>(&self, on: &On, collector: &mut C)
        requires
            supported(&on.operand),
        ensures
            final(collector).text() == old(collector).text() + ("ON "@ + node_sql::<C>(
                &on.operand,
            )),
        decreases on, 1nat,
    {
        collector.push("ON ");
        self.visit_node(&on.operand, collector);
        assert(collector.text() =~= old(collector).text() + ("ON "@ + node_sql::<C>(&on.operand)));
    }

    /// Writes the operator of a node with two operands, which stands between
    /// them: a space, `join`, a space.
    fn binary<C: CollectSql>(&self, join: &str, collector: &mut C)
        ensures
            final(collector).text() == old(collector).text() + " "@ + join@ + " "@,
    {
        collector.push(" ");
        collector.push(join);
        collector.push(" ");
    }

    /// Renders `node`, then `suffix`.
    fn postfix<C: CollectSql>(&self, node: &Node, suffix: &str, collector: &mut C)
        requires
            supported(node),
        ensures
            final(collector).text() == old(collector).text() + (node_sql::<C>(node) + suffix@),
        decreases node, 1nat,
    {
        self.visit_node(node, collector);
        collector.push(suffix);
        assert(collector.text() =~= old(collector).text() + (node_sql::<C>(node) + suffix@));
    }

    /// Renders `prefix`, then `node`.
    fn prefix<C: CollectSql>(&self, node: &Node, prefix: &str, collector: &mut C)
        requires
            supported(node),
        ensures
            final(collector).text() == old(collector).text() + (prefix@ + node_sql::<C>(node)),
        decreases node, 1nat,
    {
        collector.push(prefix);
        self.visit_node(node, collector);
        assert(collector.text() =~= old(collector).text() + (prefix@ + node_sql::<C>(node)));
    }

    /// Renders the name of a table, quoted.
    fn table<C: CollectSql>(&self, string: &str, collector: &mut C)
        ensures
            final(collector).text() == old(collector).text() + quoted(string@),
    {
        self.column(string, collector)
    }

    /// Renders a name between double quotes, with its characters as they are.
    fn column<C: CollectSql>(&self, string: &str, collector: &mut C)
        ensures
            final(collector).text() == old(collector).text() + quoted(string@),
    {
        collector.push("\"");
        collector.push(string);
        collector.push("\"");
        assert(collector.text() =~= old(collector).text() + quoted(string@));
    }

    /// Renders the nodes of `list` in their order, with `join` between each
    /// two. An empty list writes nothing.
    pub fn fold_join<C: CollectSql>(&self, list: &Vec<Node>, collector: &mut C, join: &str)
        requires
            all_supported(list@),
        ensures
            final(collector).text() == old(collector).text() + joined(
                node_texts::<C>(list@),
                join@,
            ),
        decreases list, 0nat,
    {
        let ghost texts = node_texts::<C>(list@);
        let mut i: usize = 0;
        while i < list.len()
            invariant
                i <= list@.len(),
                all_supported(list@),
                texts == node_texts::<C>(list@),
                collector.text() == old(collector).text() + joined(texts.take(i as int), join@),
            decreases list@.len() - i,
        {
            if i != 0 {
                collector.push(join);
            }
            self.visit_node(&list[i], collector);
            proof {
                lemma_joined_push(texts.take(i as int), join@, texts[i as int]);
                assert(texts.take(i + 1) =~= texts.take(i as int).push(texts[i as int]));
                assert(collector.text() =~= old(collector).text() + joined(
                    texts.take(i + 1),
                    join@,
                ));
            }
            i += 1;
        }
        assert(texts.take(i as int) =~= texts);
    }
}

impl ToSqlVisitor {
    /// Tests whether `node` can be rendered.
    pub fn accepts_node(&self, node: &Node) -> (ok: bool)
        ensures
            ok == supported(node),
        decreases node, 0nat,
    {
        match node {
            Node::Function(function) => self.accepts_function(function),
            Node::Bind(_) => true,
            Node::Literal(_) => true,
            Node::UnqualifiedColumn(_) => true,
            Node::QualifiedColumn(_) => true,
            Node::TableName(_) => true,
            Node::TableAlias(_) => true,
            Node::Equality(n) => self.accepts_node(&n.left) && self.accepts_node(&n.right),
            Node::Assignment(n) => self.accepts_node(&n.left) && self.accepts_node(&n.right),
            Node::And(n) => self.accepts_node(&n.left) && self.accepts_node(&n.right),
            Node::Or(n) => self.accepts_node(&n.left) && self.accepts_node(&n.right),
            Node::GreaterThan(n) => self.accepts_node(&n.left) && self.accepts_node(&n.right),
            Node::GreaterThanOrEqual(n) => self.accepts_node(&n.left) && self.accepts_node(&n.right),
            Node::LessThan(n) => self.accepts_node(&n.left) && self.accepts_node(&n.right),
            Node::LessThanOrEqual(n) => self.accepts_node(&n.left) && self.accepts_node(&n.right),
            Node::Matches(n) => self.accepts_node(&n.left) && self.accepts_node(&n.right),
            Node::DoesNotMatch(n) => self.accepts_node(&n.left) && self.accepts_node(&n.right),
            Node::Limit(n) => self.accepts_node(&n.operand),
            Node::Ascending(n) => self.accepts_node(&n.operand),
            Node::Descending(n) => self.accepts_node(&n.operand),
            Node::Offset(n) => self.accepts_node(&n.operand),
            Node::On(n) => self.accepts_node(&n.operand),
            Node::Subselect(subselect) => self.accepts_statement(&subselect.select),
            Node::SelectStatement(statement) => self.accepts_statement(statement),
            Node::SelectCore(core) => self.accepts_core(core),
            Node::JoinSource(source) => self.accepts_source(source),
            Node::Join(join) => self.accepts_join(join),
            _ => false,
        }
    }

    /// Tests whether every node of `list` can be rendered.
    pub fn accepts_all(&self, list: &Vec<Node>) -> (ok: bool)
        ensures
            ok == all_supported(list@),
        decreases list, 0nat,
    {
        let mut i: usize = 0;
        while i < list.len()
            invariant
                i <= list@.len(),
                forall|k: int| 0 <= k < i ==> supported(&#[trigger] list@[k]),
            decreases list@.len() - i,
        {
            if !self.accepts_node(&list[i]) {
                return false;
            }
            i += 1;
        }
        true
    }

    /// Tests whether a function call can be rendered.
    pub fn accepts_function(&self, function: &Function) -> (ok: bool)
        ensures
            ok == function_supported(function),
        decreases function, 1nat,
    {
        self.accepts_all(&function.expressions)
    }

    /// Tests whether a join can be rendered.
    pub fn accepts_join(&self, join: &Join) -> (ok: bool)
        ensures
            ok == join_supported(join),
        decreases join, 1nat,
    {
        self.accepts_node(&join.relation) && match &join.on {
            Some(on) => self.accepts_node(&on.operand),
            None => true,
        }
    }

    /// Tests whether a source can be rendered.
    pub fn accepts_source(&self, source: &JoinSource) -> (ok: bool)
        ensures
            ok == source_supported(source),
        decreases source, 1nat,
    {
        let left = match &source.left {
            Some(node) => self.accepts_node(node),
            None => true,
        };
        if !left {
            return false;
        }
        let mut i: usize = 0;
        while i < source.right.len()
            invariant
                i <= source.right@.len(),
                forall|k: int| 0 <= k < i ==> join_supported(&#[trigger] source.right@[k]),
            decreases source.right@.len() - i,
        {
            if !self.accepts_join(&source.right[i]) {
                return false;
            }
            i += 1;
        }
        true
    }

    /// Tests whether a query unit can be rendered.
    pub fn accepts_core(&self, core: &SelectCore) -> (ok: bool)
        ensures
            ok == core_supported(core),
        decreases core, 1nat,
    {
        let source = match &core.source {
            Some(source) => self.accepts_source(source),
            None => true,
        };
        source && self.accepts_all(&core.wheres)
    }

    /// Tests whether a query can be rendered.
    pub fn accepts_statement(&self, statement: &SelectStatement) -> (ok: bool)
        ensures
            ok == statement_supported(statement),
        decreases statement, 1nat,
    {
        if !self.accepts_core(&statement.context) {
            return false;
        }
        let mut i: usize = 0;
        while i < statement.cores.len()
            invariant
                i <= statement.cores@.len(),
                forall|k: int| 0 <= k < i ==> core_supported(&#[trigger] statement.cores@[k]),
            decreases statement.cores@.len() - i,
        {
            if !self.accepts_core(&statement.cores[i]) {
                return false;
            }
            i += 1;
        }
        if !self.accepts_all(&statement.orders) {
            return false;
        }
        match &statement.offset {
            Some(offset) => self.accepts_node(&offset.operand),
            None => true,
        }
    }
}

impl<C: CollectSql> Visitor<C> for ToSqlVisitor {
    open spec fn supports(&self, node: &Node) -> bool {
        supported(node)
    }

    open spec fn rendered(&self, node: &Node) -> Seq<char> {
        node_sql::<C>(node)
    }

    fn accepts(&self, node: &Node) -> (ok: bool) {
        self.accepts_node(node)
    }

    fn visit(&self, node: &Node, collector: &mut C) {
        self.visit_node(node, collector)
    }
}

/// The SQL text of `node`, or nothing where the tree holds a kind of node
/// that the renderer has no rule for.
pub fn to_sql(node: &Node) -> (sql: Option<String>)
    ensures
        sql is Some <==> supported(node),
        sql matches Some(text) ==> text@ == node_sql::<SqlCollector>(node),
{
    let visitor = ToSqlVisitor;
    if visitor.accepts_node(node) {
        let mut collector = SqlCollector::new();
        visitor.visit_node(node, &mut collector);
        let text = String::from_str(collector.value());
        assert(text@ =~= node_sql::<SqlCollector>(node));
        Some(text)
    } else {
        None
    }
}

/// Rendering is a function of the tree and of the collector's type: two
/// collectors of one type that have received equal trees, whatever either
/// held before, have received the same text.
pub proof fn lemma_render_is_deterministic<C: CollectSql>(
    first: Node,
    second: Node,
    first_before: Seq<char>,
    first_after: Seq<char>,
    second_before: Seq<char>,
    second_after: Seq<char>,
)
    requires
        first == second,
        first_after == first_before + node_sql::<C>(&first),
        second_after == second_before + node_sql::<C>(&second),
    ensures
        first_after.skip(first_before.len() as int) == second_after.skip(
            second_before.len() as int,
        ),
{
    assert(first_after.skip(first_before.len() as int) =~= node_sql::<C>(&first));
    assert(second_after.skip(second_before.len() as int) =~= node_sql::<C>(&second));
}

/// An `ORDER BY` clause lists its entries in the order in which they were
/// added, with `, ` between each two and nothing after the last: the clause
/// for one entry is ` ORDER BY ` and that entry, and the clause for a list
/// with one entry more is the clause for the list, then `, `, then the new
/// entry.
pub proof fn lemma_order_by_keeps_insertion_order<C: CollectSql>(orders: Seq<Node>, next: Node)
    ensures
        order_by_sql::<C>(orders.push(next)) == if orders.len() == 0 {
            " ORDER BY "@ + node_sql::<C>(&next)
        } else {
            order_by_sql::<C>(orders) + ", "@ + node_sql::<C>(&next)
        },
{
    let more = orders.push(next);
    assert(node_texts::<C>(more) =~= node_texts::<C>(orders).push(node_sql::<C>(&next)));
    lemma_joined_push(node_texts::<C>(orders), ", "@, node_sql::<C>(&next));
    if orders.len() > 0 {
        assert(order_by_sql::<C>(more) =~= order_by_sql::<C>(orders) + ", "@ + node_sql::<C>(
            &next,
        ));
    }
}

} // verus!
