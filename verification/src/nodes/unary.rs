//! Nodes with one operand: clauses and modifiers that wrap a single node.

use vstd::prelude::*;
use crate::nodes::{DirectedOrder, Direction, Node, Order, OrderBy, ToNode};

verus! {

/// A node that wraps exactly one operand.
pub trait Unary: Sized {
    /// The operand that this node wraps.
    spec fn operand_node(&self) -> Node;

    /// Wraps `operand`, converted to a node.
    fn build<N: ToNode>(operand: N) -> (unary: Self)
        ensures
            operand.converts_to(unary.operand_node()),
    ;

    /// The wrapped operand.
    fn operand(&self) -> (node: &Node)
        ensures
            *node == self.operand_node(),
    ;
}

/// A binary-collation marker in front of its operand.
pub struct Bin {
    pub operand: Box<Node>,
}

impl Unary for Bin {
    open spec fn operand_node(&self) -> Node {
        *self.operand
    }

    fn build<N: ToNode>(operand: N) -> (unary: Bin) {
        let unary = Bin { operand: Box::new(operand.to_node()) };
        assert(unary.operand_node() == *unary.operand);
        unary
    }

    fn operand(&self) -> (node: &Node) {
        &*self.operand
    }
}

impl ToNode for Bin {
    open spec fn converts_to(self, node: Node) -> bool {
        node == Node::Bin(self)
    }

    fn to_node(self) -> (node: Node) {
        Node::Bin(self)
    }
}

/// One entry of a `GROUP BY` list.
pub struct Group {
    pub operand: Box<Node>,
}

impl Unary for Group {
    open spec fn operand_node(&self) -> Node {
        *self.operand
    }

    fn build<N: ToNode>(operand: N) -> (unary: Group) {
        let unary = Group { operand: Box::new(operand.to_node()) };
        assert(unary.operand_node() == *unary.operand);
        unary
    }

    fn operand(&self) -> (node: &Node) {
        &*self.operand
    }
}

impl ToNode for Group {
    open spec fn converts_to(self, node: Node) -> bool {
        node == Node::Group(self)
    }

    fn to_node(self) -> (node: Node) {
        Node::Group(self)
    }
}

/// A `HAVING` condition.
pub struct Having {
    pub operand: Box<Node>,
}

impl Unary for Having {
    open spec fn operand_node(&self) -> Node {
        *self.operand
    }

    fn build<N: ToNode>(operand: N) -> (unary: Having) {
        let unary = Having { operand: Box::new(operand.to_node()) };
        assert(unary.operand_node() == *unary.operand);
        unary
    }

    fn operand(&self) -> (node: &Node) {
        &*self.operand
    }
}

impl ToNode for Having {
    open spec fn converts_to(self, node: Node) -> bool {
        node == Node::Having(self)
    }

    fn to_node(self) -> (node: Node) {
        Node::Having(self)
    }
}

/// A `LIMIT` clause: the operand is the number of rows.
pub struct Limit {
    pub operand: Box<Node>,
}

impl Unary for Limit {
    open spec fn operand_node(&self) -> Node {
        *self.operand
    }

    fn build<N: ToNode>(operand: N) -> (unary: Limit) {
        let unary = Limit { operand: Box::new(operand.to_node()) };
        assert(unary.operand_node() == *unary.operand);
        unary
    }

    fn operand(&self) -> (node: &Node) {
        &*self.operand
    }
}

impl ToNode for Limit {
    open spec fn converts_to(self, node: Node) -> bool {
        node == Node::Limit(self)
    }

    fn to_node(self) -> (node: Node) {
        Node::Limit(self)
    }
}

/// The negation of its operand.
pub struct Not {
    pub operand: Box<Node>,
}

impl Unary for Not {
    open spec fn operand_node(&self) -> Node {
        *self.operand
    }

    fn build<N: ToNode>(operand: N) -> (unary: Not) {
        let unary = Not { operand: Box::new(operand.to_node()) };
        assert(unary.operand_node() == *unary.operand);
        unary
    }

    fn operand(&self) -> (node: &Node) {
        &*self.operand
    }
}

impl ToNode for Not {
    open spec fn converts_to(self, node: Node) -> bool {
        node == Node::Not(self)
    }

    fn to_node(self) -> (node: Node) {
        Node::Not(self)
    }
}

/// An `OFFSET` clause: the operand is the number of rows to skip.
pub struct Offset {
    pub operand: Box<Node>,
}

impl Unary for Offset {
    open spec fn operand_node(&self) -> Node {
        *self.operand
    }

    fn build<N: ToNode>(operand: N) -> (unary: Offset) {
        let unary = Offset { operand: Box::new(operand.to_node()) };
        assert(unary.operand_node() == *unary.operand);
        unary
    }

    fn operand(&self) -> (node: &Node) {
        &*self.operand
    }
}

impl ToNode for Offset {
    open spec fn converts_to(self, node: Node) -> bool {
        node == Node::Offset(self)
    }

    fn to_node(self) -> (node: Node) {
        Node::Offset(self)
    }
}

/// The `ON` condition of a join.
pub struct On {
    pub operand: Box<Node>,
}

impl Unary for On {
    open spec fn operand_node(&self) -> Node {
        *self.operand
    }

    fn build<N: ToNode>(operand: N) -> (unary: On) {
        let unary = On { operand: Box::new(operand.to_node()) };
        assert(unary.operand_node() == *unary.operand);
        unary
    }

    fn operand(&self) -> (node: &Node) {
        &*self.operand
    }
}

impl ToNode for On {
    open spec fn converts_to(self, node: Node) -> bool {
        node == Node::On(self)
    }

    fn to_node(self) -> (node: Node) {
        Node::On(self)
    }
}

/// A `TOP` clause: the operand is the number of rows.
pub struct Top {
    pub operand: Box<Node>,
}

impl Unary for Top {
    open spec fn operand_node(&self) -> Node {
        *self.operand
    }

    fn build<N: ToNode>(operand: N) -> (unary: Top) {
        let unary = Top { operand: Box::new(operand.to_node()) };
        assert(unary.operand_node() == *unary.operand);
        unary
    }

    fn operand(&self) -> (node: &Node) {
        &*self.operand
    }
}

impl ToNode for Top {
    open spec fn converts_to(self, node: Node) -> bool {
        node == Node::Top(self)
    }

    fn to_node(self) -> (node: Node) {
        Node::Top(self)
    }
}

/// A locking clause.
pub struct Lock {
    pub operand: Box<Node>,
}

impl Unary for Lock {
    open spec fn operand_node(&self) -> Node {
        *self.operand
    }

    fn build<N: ToNode>(operand: N) -> (unary: Lock) {
        let unary = Lock { operand: Box::new(operand.to_node()) };
        assert(unary.operand_node() == *unary.operand);
        unary
    }

    fn operand(&self) -> (node: &Node) {
        &*self.operand
    }
}

impl ToNode for Lock {
    open spec fn converts_to(self, node: Node) -> bool {
        node == Node::Lock(self)
    }

    fn to_node(self) -> (node: Node) {
        Node::Lock(self)
    }
}

/// A `DISTINCT ON` clause.
pub struct DistinctOn {
    pub operand: Box<Node>,
}

impl Unary for DistinctOn {
    open spec fn operand_node(&self) -> Node {
        *self.operand
    }

    fn build<N: ToNode>(operand: N) -> (unary: DistinctOn) {
        let unary = DistinctOn { operand: Box::new(operand.to_node()) };
        assert(unary.operand_node() == *unary.operand);
        unary
    }

    fn operand(&self) -> (node: &Node) {
        &*self.operand
    }
}

impl ToNode for DistinctOn {
    open spec fn converts_to(self, node: Node) -> bool {
        node == Node::DistinctOn(self)
    }

    fn to_node(self) -> (node: Node) {
        Node::DistinctOn(self)
    }
}

/// An `ORDER BY` entry in ascending order.
pub struct Ascending {
    pub operand: Box<Node>,
}

impl Unary for Ascending {
    open spec fn operand_node(&self) -> Node {
        *self.operand
    }

    fn build<N: ToNode>(operand: N) -> (unary: Ascending) {
        let unary = Ascending { operand: Box::new(operand.to_node()) };
        assert(unary.operand_node() == *unary.operand);
        unary
    }

    fn operand(&self) -> (node: &Node) {
        &*self.operand
    }
}

impl ToNode for Ascending {
    open spec fn converts_to(self, node: Node) -> bool {
        node == Node::Ascending(self)
    }

    fn to_node(self) -> (node: Node) {
        Node::Ascending(self)
    }
}

/// An `ORDER BY` entry in descending order.
pub struct Descending {
    pub operand: Box<Node>,
}

impl Unary for Descending {
    open spec fn operand_node(&self) -> Node {
        *self.operand
    }

    fn build<N: ToNode>(operand: N) -> (unary: Descending) {
        let unary = Descending { operand: Box::new(operand.to_node()) };
        assert(unary.operand_node() == *unary.operand);
        unary
    }

    fn operand(&self) -> (node: &Node) {
        &*self.operand
    }
}

impl ToNode for Descending {
    open spec fn converts_to(self, node: Node) -> bool {
        node == Node::Descending(self)
    }

    fn to_node(self) -> (node: Node) {
        Node::Descending(self)
    }
}

impl OrderBy for Ascending {
}

impl OrderBy for Descending {
}

impl DirectedOrder for Ascending {
    open spec fn order_direction(&self) -> Direction {
        Direction::Asc
    }

    open spec fn ordered_node(&self) -> Node {
        *self.operand
    }

    fn reverse(self) -> (reversed: Order) {
        Order::Descending(Descending { operand: self.operand })
    }

    fn direction(&self) -> (direction: Direction) {
        Direction::Asc
    }
}

impl DirectedOrder for Descending {
    open spec fn order_direction(&self) -> Direction {
        Direction::Desc
    }

    open spec fn ordered_node(&self) -> Node {
        *self.operand
    }

    fn reverse(self) -> (reversed: Order) {
        Order::Ascending(Ascending { operand: self.operand })
    }

    fn direction(&self) -> (direction: Direction) {
        Direction::Desc
    }
}

} // verus!
