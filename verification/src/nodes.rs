//! The kinds of node that a SQL syntax tree is made of, and the capabilities
//! that say where a kind may stand.

use vstd::prelude::*;
use vstd::string::StringExecFns;
use crate::collector::CollectSql;
use crate::visitor::Visitor;

pub mod binary;
pub mod select_core;
pub mod select_statement;
pub mod sql_literal;
pub mod unary;

pub use self::binary::{
    Binary, Addition, And, As, Assignment, Between, Delete, Division,
    DoesNotMatch, Equality, Except, GreaterThan, GreaterThanOrEqual, In,
    Intersect, LessThan, LessThanOrEqual, Matches, Multiplication, NotEqual,
    NotIn, Or, Subtraction, Union, UnionAll,
};
pub use self::select_core::{JoinSource, SelectCore};
pub use self::select_statement::SelectStatement;
pub use self::sql_literal::{Bind, BindValue, FloatText, Literal, ToBind};
pub use self::unary::{
    Unary, Ascending, Bin, Descending, DistinctOn, Group, Having, Limit, Lock,
    Not, Offset, On, Top,
};

verus! {

/// A node of a SQL syntax tree: a value of one of the kinds of this module.
///
/// A node owns its operands, so a tree has no cycles and no shared parts.
pub enum Node {
    True(True),
    False(False),
    Null(Null),
    QualifiedColumn(QualifiedColumn),
    UnqualifiedColumn(UnqualifiedColumn),
    TableName(TableName),
    TableAlias(TableAlias),
    Bin(Bin),
    Group(Group),
    Having(Having),
    Limit(Limit),
    Not(Not),
    Offset(Offset),
    On(On),
    Top(Top),
    Lock(Lock),
    DistinctOn(DistinctOn),
    Ascending(Ascending),
    Descending(Descending),
    Extract(Extract),
    As(As),
    Assignment(Assignment),
    Between(Between),
    DoesNotMatch(DoesNotMatch),
    GreaterThan(GreaterThan),
    GreaterThanOrEqual(GreaterThanOrEqual),
    LessThan(LessThan),
    LessThanOrEqual(LessThanOrEqual),
    Matches(Matches),
    NotEqual(NotEqual),
    NotIn(NotIn),
    Or(Or),
    Union(Union),
    UnionAll(UnionAll),
    Intersect(Intersect),
    Except(Except),
    Delete(Delete),
    Equality(Equality),
    In(In),
    And(And),
    Multiplication(Multiplication),
    Division(Division),
    Addition(Addition),
    Subtraction(Subtraction),
    BindParam(BindParam),
    Join(Join),
    Function(Function),
    Literal(Literal),
    Bind(Bind),
    SelectCore(SelectCore),
    JoinSource(JoinSource),
    SelectStatement(SelectStatement),
    Subselect(Subselect),
}

impl Node {
    /// Renders this node: `visitor` writes the text of the node's kind into
    /// `collector`.
    ///
    /// A visitor has no rule for a kind that it does not support, so the tree
    /// may hold only kinds that it supports.
    pub fn visit<C: CollectSql, V: Visitor<C>>(&self, visitor: &V, collector: &mut C)
        requires
            visitor.supports(self),
        ensures
            final(collector).text() == old(collector).text() + visitor.rendered(self),
    {
        visitor.visit(self, collector)
    }
}

/// A value that can become a node.
pub trait ToNode: Sized {
    /// Whether `node` is what this value becomes as a node.
    spec fn converts_to(self, node: Node) -> bool;

    /// This value as a node.
    fn to_node(self) -> (node: Node)
        ensures
            self.converts_to(node),
    ;
}

impl ToNode for Node {
    open spec fn converts_to(self, node: Node) -> bool {
        node == self
    }

    fn to_node(self) -> (node: Node) {
        self
    }
}

impl ToNode for Box<Node> {
    open spec fn converts_to(self, node: Node) -> bool {
        node == *self
    }

    fn to_node(self) -> (node: Node) {
        *self
    }
}

/// A value through which a node can be read.
pub trait ToBorrowedNode {
    /// The node that is read through this value.
    spec fn borrowed_node(&self) -> Node;

    /// The node behind this value.
    fn to_borrowed_node(&self) -> (node: &Node)
        ensures
            *node == self.borrowed_node(),
    ;
}

impl ToBorrowedNode for Node {
    open spec fn borrowed_node(&self) -> Node {
        *self
    }

    fn to_borrowed_node(&self) -> (node: &Node) {
        self
    }
}

impl<'a> ToBorrowedNode for &'a Node {
    open spec fn borrowed_node(&self) -> Node {
        **self
    }

    fn to_borrowed_node(&self) -> (node: &Node) {
        *self
    }
}

impl ToBorrowedNode for Box<Node> {
    open spec fn borrowed_node(&self) -> Node {
        **self
    }

    fn to_borrowed_node(&self) -> (node: &Node) {
        &**self
    }
}

/// A node that may be ordered by: it can be given a direction.
pub trait Orderable: ToNode {
}

/// A node that may stand as an entry of an `ORDER BY` list.
pub trait OrderBy: ToNode {
}

/// An arithmetic operation written between its operands.
pub trait InfixOperation: ToNode + Orderable {
}

/// A node that may stand in a `SELECT` list.
pub trait Projection: ToNode {
}

/// A node that may stand as the target of `FROM` or of a join.
pub trait Relation: ToNode {
}

/// A value that can become an entry of an `ORDER BY` list.
pub trait ToOrder: Sized {
    /// Whether `node` is the entry that this value becomes.
    spec fn orders_by(self, node: Node) -> bool;

    /// This value as an entry of an `ORDER BY` list.
    fn to_order(self) -> (node: Node)
        ensures
            self.orders_by(node),
    ;
}

impl<T: OrderBy> ToOrder for T {
    open spec fn orders_by(self, node: Node) -> bool {
        self.converts_to(node)
    }

    fn to_order(self) -> (node: Node) {
        self.to_node()
    }
}

/// A name orders by the column of that name.
impl<'a> ToOrder for &'a str {
    open spec fn orders_by(self, node: Node) -> bool {
        node matches Node::UnqualifiedColumn(column) && column.name@ == self@
    }

    fn to_order(self) -> (node: Node) {
        Node::UnqualifiedColumn(UnqualifiedColumn::new(self))
    }
}

/// An entry of a `SELECT` list: a node of one of the kinds that may stand
/// there.
pub enum ProjectionNode {
    Literal(Literal),
    Bind(Bind),
    QualifiedColumn(QualifiedColumn),
    UnqualifiedColumn(UnqualifiedColumn),
}

impl ProjectionNode {
    /// This entry as a plain node.
    pub open spec fn node(self) -> Node {
        match self {
            ProjectionNode::Literal(literal) => Node::Literal(literal),
            ProjectionNode::Bind(bind) => Node::Bind(bind),
            ProjectionNode::QualifiedColumn(column) => Node::QualifiedColumn(column),
            ProjectionNode::UnqualifiedColumn(column) => Node::UnqualifiedColumn(column),
        }
    }
}

impl ToNode for ProjectionNode {
    open spec fn converts_to(self, node: Node) -> bool {
        node == self.node()
    }

    fn to_node(self) -> (node: Node) {
        match self {
            ProjectionNode::Literal(literal) => Node::Literal(literal),
            ProjectionNode::Bind(bind) => Node::Bind(bind),
            ProjectionNode::QualifiedColumn(column) => Node::QualifiedColumn(column),
            ProjectionNode::UnqualifiedColumn(column) => Node::UnqualifiedColumn(column),
        }
    }
}

/// A value that can become an entry of a `SELECT` list.
pub trait ToProjection: Sized {
    /// Whether `projection` is the entry that this value becomes.
    spec fn projects_to(self, projection: ProjectionNode) -> bool;

    /// This value as an entry of a `SELECT` list.
    fn to_projection(self) -> (projection: ProjectionNode)
        ensures
            self.projects_to(projection),
    ;
}

impl ToProjection for ProjectionNode {
    open spec fn projects_to(self, projection: ProjectionNode) -> bool {
        projection == self
    }

    fn to_projection(self) -> (projection: ProjectionNode) {
        self
    }
}

/// Values that can become a whole `SELECT` list.
pub trait ToProjections: Sized {
    /// Whether `projections` is the list that these values become: one entry
    /// for each value, in the same order.
    spec fn project_to(self, projections: Seq<ProjectionNode>) -> bool;

    /// These values as a `SELECT` list.
    fn to_projections(self) -> (projections: Vec<ProjectionNode>)
        ensures
            self.project_to(projections@),
    ;
}

impl<P: ToProjection> ToProjections for Vec<P> {
    open spec fn project_to(self, projections: Seq<ProjectionNode>) -> bool {
        &&& projections.len() == self@.len()
        &&& forall|i: int|
            0 <= i < self@.len() ==> (#[trigger] self@[i]).projects_to(projections[i])
    }

    fn to_projections(self) -> (projections: Vec<ProjectionNode>) {
        let mut projections: Vec<ProjectionNode> = Vec::new();
        for item in iter: self.into_iter()
            invariant
                projections@.len() == iter.index(),
                iter.seq() == self@,
                forall|i: int|
                    0 <= i < projections@.len() ==> (#[trigger] self@[i]).projects_to(
                        projections@[i],
                    ),
        {
            projections.push(item.to_projection());
        }
        projections
    }
}

impl<P: ToProjection> ToProjections for [P; 1] {
    open spec fn project_to(self, projections: Seq<ProjectionNode>) -> bool {
        &&& projections.len() == 1
        &&& self@[0].projects_to(projections[0])
    }

    fn to_projections(self) -> (projections: Vec<ProjectionNode>) {
        let boxed: Box<[P]> = Box::new(self);
        boxed.into_vec().to_projections()
    }
}

impl<P: ToProjection> ToProjections for (P, P) {
    open spec fn project_to(self, projections: Seq<ProjectionNode>) -> bool {
        &&& projections.len() == 2
        &&& self.0.projects_to(projections[0])
        &&& self.1.projects_to(projections[1])
    }

    fn to_projections(self) -> (projections: Vec<ProjectionNode>) {
        let (a, b) = self;
        let mut projections: Vec<ProjectionNode> = Vec::new();
        projections.push(a.to_projection());
        projections.push(b.to_projection());
        projections
    }
}

impl<P: ToProjection> ToProjections for (P, P, P) {
    open spec fn project_to(self, projections: Seq<ProjectionNode>) -> bool {
        &&& projections.len() == 3
        &&& self.0.projects_to(projections[0])
        &&& self.1.projects_to(projections[1])
        &&& self.2.projects_to(projections[2])
    }

    fn to_projections(self) -> (projections: Vec<ProjectionNode>) {
        let (a, b, c) = self;
        let mut projections: Vec<ProjectionNode> = Vec::new();
        projections.push(a.to_projection());
        projections.push(b.to_projection());
        projections.push(c.to_projection());
        projections
    }
}

/// The constant `FALSE`.
pub struct False;

impl ToNode for False {
    open spec fn converts_to(self, node: Node) -> bool {
        node == Node::False(self)
    }

    fn to_node(self) -> (node: Node) {
        Node::False(self)
    }
}

/// The constant `TRUE`.
pub struct True;

impl ToNode for True {
    open spec fn converts_to(self, node: Node) -> bool {
        node == Node::True(self)
    }

    fn to_node(self) -> (node: Node) {
        Node::True(self)
    }
}

/// The constant `NULL`.
pub struct Null;

impl ToNode for Null {
    open spec fn converts_to(self, node: Node) -> bool {
        node == Node::Null(self)
    }

    fn to_node(self) -> (node: Node) {
        Node::Null(self)
    }
}

/// A column named together with the relation that it belongs to.
pub struct QualifiedColumn {
    pub relation: String,
    pub name: String,
}

impl ToNode for QualifiedColumn {
    open spec fn converts_to(self, node: Node) -> bool {
        node == Node::QualifiedColumn(self)
    }

    fn to_node(self) -> (node: Node) {
        Node::QualifiedColumn(self)
    }
}

impl Orderable for QualifiedColumn {
}

impl OrderBy for QualifiedColumn {
}

impl Projection for QualifiedColumn {
}

impl ToProjection for QualifiedColumn {
    open spec fn projects_to(self, projection: ProjectionNode) -> bool {
        projection == ProjectionNode::QualifiedColumn(self)
    }

    fn to_projection(self) -> (projection: ProjectionNode) {
        ProjectionNode::QualifiedColumn(self)
    }
}

/// A column named without its relation.
pub struct UnqualifiedColumn {
    pub name: String,
}

impl UnqualifiedColumn {
    /// The column called `string`.
    pub fn new(string: &str) -> (column: UnqualifiedColumn)
        ensures
            column.name@ == string@,
    {
        UnqualifiedColumn { name: String::from_str(string) }
    }
}

impl ToNode for UnqualifiedColumn {
    open spec fn converts_to(self, node: Node) -> bool {
        node == Node::UnqualifiedColumn(self)
    }

    fn to_node(self) -> (node: Node) {
        Node::UnqualifiedColumn(self)
    }
}

impl Orderable for UnqualifiedColumn {
}

impl OrderBy for UnqualifiedColumn {
}

impl Projection for UnqualifiedColumn {
}

impl ToProjection for UnqualifiedColumn {
    open spec fn projects_to(self, projection: ProjectionNode) -> bool {
        projection == ProjectionNode::UnqualifiedColumn(self)
    }

    fn to_projection(self) -> (projection: ProjectionNode) {
        ProjectionNode::UnqualifiedColumn(self)
    }
}

/// A table referred to by its name.
pub struct TableName {
    pub name: String,
}

impl TableName {
    /// The table called `name`.
    pub fn build(name: &str) -> (table: TableName)
        ensures
            table.name@ == name@,
    {
        TableName { name: String::from_str(name) }
    }
}

impl ToNode for TableName {
    open spec fn converts_to(self, node: Node) -> bool {
        node == Node::TableName(self)
    }

    fn to_node(self) -> (node: Node) {
        Node::TableName(self)
    }
}

impl Relation for TableName {
}

/// A table under another name.
pub struct TableAlias {
    pub name: String,
    pub relation: TableName,
}

impl TableAlias {
    /// The table `relation` under the name `alias_name`.
    pub fn build(relation: TableName, alias_name: &str) -> (alias: TableAlias)
        ensures
            alias.relation == relation,
            alias.name@ == alias_name@,
    {
        TableAlias { name: String::from_str(alias_name), relation }
    }

    /// The name of the table behind the alias.
    pub fn get_table_name(&self) -> (name: &str)
        ensures
            name@ == self.relation.name@,
    {
        self.relation.name.as_str()
    }
}

impl ToNode for TableAlias {
    open spec fn converts_to(self, node: Node) -> bool {
        node == Node::TableAlias(self)
    }

    fn to_node(self) -> (node: Node) {
        Node::TableAlias(self)
    }
}

impl Relation for TableAlias {
}

/// A relation whose columns can be looked up by name.
pub trait ColumnAt {
    /// The name that a column of this relation is qualified with.
    spec fn column_relation(&self) -> Seq<char>;

    /// The column `col` of this relation.
    fn at(&self, col: &str) -> (column: QualifiedColumn)
        ensures
            column.relation@ == self.column_relation(),
            column.name@ == col@,
    ;
}

/// A column of an aliased table is qualified with the alias.
impl ColumnAt for TableAlias {
    open spec fn column_relation(&self) -> Seq<char> {
        self.name@
    }

    fn at(&self, col: &str) -> (column: QualifiedColumn) {
        QualifiedColumn { relation: self.name.clone(), name: String::from_str(col) }
    }
}

/// The direction of an `ORDER BY` entry.
#[derive(Clone, Copy, Debug, PartialEq, Eq, Structural)]
pub enum Direction {
    Asc,
    Desc,
}

/// An `ORDER BY` entry with a direction.
pub trait DirectedOrder: Sized {
    /// The direction of this entry.
    spec fn order_direction(&self) -> Direction;

    /// The node that this entry orders by.
    spec fn ordered_node(&self) -> Node;

    /// A new entry that orders by the same node in the other direction.
    fn reverse(self) -> (reversed: Order)
        ensures
            reversed.operand() == self.ordered_node(),
            reversed.way() != self.order_direction(),
    ;

    /// The direction of this entry.
    fn direction(&self) -> (direction: Direction)
        ensures
            direction == self.order_direction(),
    ;

    /// Whether this entry orders upwards.
    fn is_ascending(&self) -> (ascending: bool)
        ensures
            ascending == (self.order_direction() is Asc),
    {
        match self.direction() {
            Direction::Asc => true,
            Direction::Desc => false,
        }
    }

    /// Whether this entry orders downwards.
    fn is_descending(&self) -> (descending: bool)
        ensures
            descending == (self.order_direction() is Desc),
    {
        match self.direction() {
            Direction::Asc => false,
            Direction::Desc => true,
        }
    }
}

/// An `ORDER BY` entry of either direction.
pub enum Order {
    Ascending(Ascending),
    Descending(Descending),
}

impl Order {
    /// The direction of the entry.
    pub open spec fn way(&self) -> Direction {
        match self {
            Order::Ascending(_) => Direction::Asc,
            Order::Descending(_) => Direction::Desc,
        }
    }

    /// The node that the entry orders by.
    pub open spec fn operand(&self) -> Node {
        match self {
            Order::Ascending(ascending) => *ascending.operand,
            Order::Descending(descending) => *descending.operand,
        }
    }
}

impl DirectedOrder for Order {
    open spec fn order_direction(&self) -> Direction {
        self.way()
    }

    open spec fn ordered_node(&self) -> Node {
        self.operand()
    }

    fn reverse(self) -> (reversed: Order) {
        match self {
            Order::Ascending(ascending) => Order::Descending(
                Descending { operand: ascending.operand },
            ),
            Order::Descending(descending) => Order::Ascending(
                Ascending { operand: descending.operand },
            ),
        }
    }

    fn direction(&self) -> (direction: Direction) {
        match self {
            Order::Ascending(_) => Direction::Asc,
            Order::Descending(_) => Direction::Desc,
        }
    }
}

impl ToNode for Order {
    open spec fn converts_to(self, node: Node) -> bool {
        node == match self {
            Order::Ascending(ascending) => Node::Ascending(ascending),
            Order::Descending(descending) => Node::Descending(descending),
        }
    }

    fn to_node(self) -> (node: Node) {
        match self {
            Order::Ascending(ascending) => Node::Ascending(ascending),
            Order::Descending(descending) => Node::Descending(descending),
        }
    }
}

impl OrderBy for Order {
}

/// `EXTRACT`: one field of a date or time value.
pub struct Extract {
    pub operand: Box<Node>,
    pub field: String,
    pub alias: Literal,
}

impl ToNode for Extract {
    open spec fn converts_to(self, node: Node) -> bool {
        node == Node::Extract(self)
    }

    fn to_node(self) -> (node: Node) {
        Node::Extract(self)
    }
}

/// A named placeholder for a value that is supplied later.
pub struct BindParam {
    pub bind: String,
}

impl ToNode for BindParam {
    open spec fn converts_to(self, node: Node) -> bool {
        node == Node::BindParam(self)
    }

    fn to_node(self) -> (node: Node) {
        Node::BindParam(self)
    }
}

/// How a join treats the rows of either side that find no partner.
#[derive(Clone, Copy, Debug, PartialEq, Eq, Structural)]
pub enum JoinKind {
    InnerJoin,
    OuterJoin,
    RightOuterJoin,
    FullOuterJoin,
}

/// A join: the joined relation and, once given, the condition of the join.
pub struct Join {
    pub kind: JoinKind,
    pub relation: Box<Node>,
    pub on: Option<On>,
}

impl Join {
    /// A join of the given kind with `relation`, as yet without a condition.
    pub fn build<T: ToNode>(kind: JoinKind, relation: T) -> (join: Join)
        ensures
            join.kind == kind,
            relation.converts_to(*join.relation),
            join.on is None,
    {
        Join { kind, relation: Box::new(relation.to_node()), on: None }
    }
}

impl ToNode for Join {
    open spec fn converts_to(self, node: Node) -> bool {
        node == Node::Join(self)
    }

    fn to_node(self) -> (node: Node) {
        Node::Join(self)
    }
}

/// The function that a call names: one of the built-in aggregates or any
/// other function by its name.
pub enum FunctionKind {
    Sum,
    Exists,
    Max,
    Min,
    Avg,
    Count,
    Named(String),
}

impl FunctionKind {
    /// The name under which the function is called.
    pub open spec fn name(self) -> Seq<char> {
        match self {
            FunctionKind::Sum => "SUM"@,
            FunctionKind::Exists => "EXISTS"@,
            FunctionKind::Max => "MAX"@,
            FunctionKind::Min => "MIN"@,
            FunctionKind::Avg => "AVG"@,
            FunctionKind::Count => "COUNT"@,
            FunctionKind::Named(name) => name@,
        }
    }
}

/// A function call: the function, its arguments, whether it is applied to
/// distinct values only, and the name given to its result.
pub struct Function {
    pub kind: FunctionKind,
    pub expressions: Vec<Node>,
    pub alias: Option<UnqualifiedColumn>,
    pub distinct: bool,
}

impl Function {
    /// A call of the function called `name` with the arguments `exprs`.
    pub fn named(name: &str, exprs: Vec<Node>) -> (function: Function)
        ensures
            function.kind matches FunctionKind::Named(n) && n@ == name@,
            function.expressions == exprs,
            function.alias is None,
            !function.distinct,
    {
        Function {
            kind: FunctionKind::Named(String::from_str(name)),
            expressions: exprs,
            alias: None,
            distinct: false,
        }
    }

    /// A call of the function `kind` with the arguments `exprs`.
    pub fn builtin(kind: FunctionKind, exprs: Vec<Node>) -> (function: Function)
        ensures
            function.kind == kind,
            function.expressions == exprs,
            function.alias is None,
            !function.distinct,
    {
        Function { kind, expressions: exprs, alias: None, distinct: false }
    }

    /// The name under which the function is called.
    pub fn name(&self) -> (name: &str)
        ensures
            name@ == self.kind.name(),
    {
        match &self.kind {
            FunctionKind::Sum => "SUM",
            FunctionKind::Exists => "EXISTS",
            FunctionKind::Max => "MAX",
            FunctionKind::Min => "MIN",
            FunctionKind::Avg => "AVG",
            FunctionKind::Count => "COUNT",
            FunctionKind::Named(string) => string.as_str(),
        }
    }

    /// The same call with its result named `alias`.
    pub fn as_(self, alias: &str) -> (function: Function)
        ensures
            function.alias matches Some(column) && column.name@ == alias@,
            function.kind == self.kind,
            function.expressions == self.expressions,
            function.distinct == self.distinct,
    {
        let mut function = self;
        function.alias = Some(UnqualifiedColumn::new(alias));
        function
    }

    /// The same call applied to distinct values only.
    pub fn distinct(self) -> (function: Function)
        ensures
            function.distinct,
            function.kind == self.kind,
            function.expressions == self.expressions,
            function.alias == self.alias,
    {
        let mut function = self;
        function.distinct = true;
        function
    }
}

impl ToNode for Function {
    open spec fn converts_to(self, node: Node) -> bool {
        node == Node::Function(self)
    }

    fn to_node(self) -> (node: Node) {
        Node::Function(self)
    }
}

/// A query used as a relation: the query in parentheses and, once given, the
/// name under which its rows are referred to.
pub struct Subselect {
    pub select: SelectStatement,
    pub alias: Option<TableName>,
}

impl Subselect {
    /// The query `select` as a relation, as yet without a name.
    pub fn build(select: SelectStatement) -> (subselect: Subselect)
        ensures
            subselect.select == select,
            subselect.alias is None,
    {
        Subselect { select, alias: None }
    }

    /// The same relation under the name `alias`.
    pub fn alias(self, alias: &str) -> (subselect: Subselect)
        ensures
            subselect.select == self.select,
            subselect.alias matches Some(name) && name.name@ == alias@,
    {
        let mut subselect = self;
        subselect.alias = Some(TableName::build(alias));
        subselect
    }
}

impl ToNode for Subselect {
    open spec fn converts_to(self, node: Node) -> bool {
        node == Node::Subselect(self)
    }

    fn to_node(self) -> (node: Node) {
        Node::Subselect(self)
    }
}

impl Relation for Subselect {
}

} // verus!
