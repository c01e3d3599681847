//! One unit of a query: what it selects, from where, and under which
//! conditions.

use vstd::prelude::*;
use crate::nodes::{Join, JoinKind, Node, On, ProjectionNode, ToNode, Unary};

verus! {

/// One query unit: a `SELECT` list, a list of `WHERE` conditions, and the
/// source of its rows.
pub struct SelectCore {
    pub source: Option<JoinSource>,
    pub wheres: Vec<Node>,
    pub projections: Vec<ProjectionNode>,
}

impl SelectCore {
    /// Whether the unit selects nothing as yet: empty lists, and a source
    /// without a relation or a join.
    pub open spec fn is_empty(&self) -> bool {
        &&& self.source matches Some(source) && source.is_empty()
        &&& self.wheres@.len() == 0
        &&& self.projections@.len() == 0
    }

    /// Whether `after` is this unit with `node` added as its last `WHERE`
    /// condition.
    pub open spec fn with_where(self, node: Node, after: SelectCore) -> bool {
        &&& after.wheres@ == self.wheres@.push(node)
        &&& after.source == self.source
        &&& after.projections == self.projections
    }

    /// Whether `after` is this unit with `projections` as its `SELECT` list.
    pub open spec fn with_projections(
        self,
        projections: Seq<ProjectionNode>,
        after: SelectCore,
    ) -> bool {
        &&& after.projections@ == projections
        &&& after.source == self.source
        &&& after.wheres == self.wheres
    }

    /// Whether `after` is this unit with a change to its source, as `change`
    /// says of the source before and after. A unit without a source stays
    /// without one.
    pub open spec fn with_source(
        self,
        after: SelectCore,
        change: spec_fn(JoinSource, JoinSource) -> bool,
    ) -> bool {
        &&& after.wheres == self.wheres
        &&& after.projections == self.projections
        &&& match self.source {
            Some(before) => after.source matches Some(source) && change(before, source),
            None => after.source is None,
        }
    }

    /// A unit that selects nothing as yet.
    pub fn build() -> (core: SelectCore)
        ensures
            core.is_empty(),
    {
        SelectCore { source: Some(JoinSource::build()), wheres: Vec::new(), projections: Vec::new() }
    }

    /// Adds `node` as the last `WHERE` condition.
    pub fn add_where(&mut self, node: Node)
        ensures
            old(self).with_where(node, *final(self)),
    {
        self.wheres.push(node)
    }

    /// The source of the rows.
    pub fn source(&self) -> (source: Option<&JoinSource>)
        ensures
            source is Some == self.source is Some,
            source matches Some(s) ==> *s == self.source->Some_0,
    {
        self.source.as_ref()
    }

    /// The `SELECT` list.
    pub fn projections(&self) -> (projections: &[ProjectionNode])
        ensures
            projections@ == self.projections@,
    {
        self.projections.as_slice()
    }

    /// The `WHERE` conditions.
    pub fn wheres(&self) -> (wheres: &[Node])
        ensures
            wheres@ == self.wheres@,
    {
        self.wheres.as_slice()
    }

    /// Replaces the `SELECT` list by `projections`.
    pub fn set_projections(&mut self, projections: Vec<ProjectionNode>)
        ensures
            old(self).with_projections(projections@, *final(self)),
    {
        self.projections = projections;
    }

    /// Adds `node` as the last join of the source. A unit without a source
    /// stays as it is.
    pub fn add_join(&mut self, node: Join)
        ensures
            old(self).with_source(
                *final(self),
                |before: JoinSource, after: JoinSource| before.with_join(node, after),
            ),
    {
        match &mut self.source {
            Some(source) => source.right.push(node),
            None => (),
        }
    }

    /// Gives the last join of the source the condition `node`. A unit without
    /// a source, or whose source has no join, stays as it is.
    pub fn on<T: ToNode>(&mut self, node: T)
        ensures
            old(self).with_source(
                *final(self),
                |before: JoinSource, after: JoinSource| before.with_on(node, after),
            ),
    {
        match &mut self.source {
            Some(source) => source.on(node),
            None => (),
        }
    }

    /// Replaces the relation that the rows come from by `node`. A unit
    /// without a source stays as it is.
    pub fn set_left<N: ToNode>(&mut self, node: N)
        ensures
            old(self).with_source(
                *final(self),
                |before: JoinSource, after: JoinSource| before.with_left(node, after),
            ),
    {
        match &mut self.source {
            Some(source) => source.left = Some(Box::new(node.to_node())),
            None => (),
        }
    }
}

impl ToNode for SelectCore {
    open spec fn converts_to(self, node: Node) -> bool {
        node == Node::SelectCore(self)
    }

    fn to_node(self) -> (node: Node) {
        Node::SelectCore(self)
    }
}

/// The source of a query's rows: the relation after `FROM`, if there is one
/// yet, and the joins in the order in which they were added.
pub struct JoinSource {
    pub left: Option<Box<Node>>,
    pub right: Vec<Join>,
}

impl JoinSource {
    /// Whether the source has neither a relation nor a join.
    pub open spec fn is_empty(&self) -> bool {
        &&& self.left is None
        &&& self.right@.len() == 0
    }

    /// Whether `after` is this source with `node` as its relation.
    pub open spec fn with_left<N: ToNode>(self, node: N, after: JoinSource) -> bool {
        &&& after.right == self.right
        &&& after.left matches Some(left) && node.converts_to(*left)
    }

    /// Whether `after` is this source with `join` added as its last join.
    pub open spec fn with_join(self, join: Join, after: JoinSource) -> bool {
        &&& after.left == self.left
        &&& after.right@ == self.right@.push(join)
    }

    /// Whether `after` is this source with one join more, the last: a join of
    /// the given kind with `relation`, as yet without a condition.
    pub open spec fn with_new_join<T: ToNode>(
        self,
        kind: JoinKind,
        relation: T,
        after: JoinSource,
    ) -> bool {
        &&& after.left == self.left
        &&& after.right@.len() == self.right@.len() + 1
        &&& after.right@.drop_last() == self.right@
        &&& after.right@.last().kind == kind
        &&& relation.converts_to(*after.right@.last().relation)
        &&& after.right@.last().on is None
    }

    /// Whether `after` is this source once its last join has been given the
    /// condition `on`: the condition goes to the join that was added last and
    /// replaces the one it had; the relation, the other joins and the rest of
    /// the last join stay; a source without a join stays as it is.
    pub open spec fn with_on<T: ToNode>(self, on: T, after: JoinSource) -> bool {
        &&& after.left == self.left
        &&& after.right@.len() == self.right@.len()
        &&& forall|i: int| 0 <= i < self.right@.len() - 1 ==> after.right@[i] == self.right@[i]
        &&& self.right@.len() > 0 ==> {
            let before = self.right@.last();
            let last = after.right@.last();
            &&& last.kind == before.kind
            &&& last.relation == before.relation
            &&& last.on matches Some(condition) && on.converts_to(*condition.operand)
        }
    }

    /// The relation after `FROM`.
    pub fn left(&self) -> (left: Option<&Node>)
        ensures
            left is Some == self.left is Some,
            left matches Some(node) ==> *node == *self.left->Some_0,
    {
        match &self.left {
            Some(node) => Some(&**node),
            None => None,
        }
    }

    /// The joins, in the order in which they were added.
    pub fn right(&self) -> (right: &[Join])
        ensures
            right@ == self.right@,
    {
        self.right.as_slice()
    }

    /// Gives the join that was added last the condition `on`. A source
    /// without a join stays as it is.
    pub fn on<T: ToNode>(&mut self, on: T)
        ensures
            old(self).with_on(on, *final(self)),
    {
        match self.right.pop() {
            Some(join) => {
                let condition: On = Unary::build(on.to_node());
                self.right.push(Join { kind: join.kind, relation: join.relation, on: Some(condition) });
            },
            None => (),
        }
    }

    /// A source without a relation or a join.
    pub fn build() -> (source: JoinSource)
        ensures
            source.is_empty(),
    {
        JoinSource { left: None, right: Vec::new() }
    }
}

impl ToNode for JoinSource {
    open spec fn converts_to(self, node: Node) -> bool {
        node == Node::JoinSource(self)
    }

    fn to_node(self) -> (node: Node) {
        Node::JoinSource(self)
    }
}

} // verus!
