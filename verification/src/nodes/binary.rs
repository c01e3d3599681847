//! Nodes with two operands: comparisons, logical connectives, arithmetic,
//! assignment, membership and set operations.

use vstd::prelude::*;
use crate::nodes::{InfixOperation, Node, OrderBy, Orderable, ToNode};

verus! {

/// A node with a left and a right operand.
pub trait Binary: Sized {
    /// The left operand.
    spec fn left_node(&self) -> Node;

    /// The right operand.
    spec fn right_node(&self) -> Node;

    /// Joins `left` and `right`, each converted to a node and otherwise
    /// unaltered.
    fn build<N1: ToNode, N2: ToNode>(left: N1, right: N2) -> (binary: Self)
        ensures
            left.converts_to(binary.left_node()),
            right.converts_to(binary.right_node()),
    ;

    /// The left operand.
    fn left(&self) -> (node: &Node)
        ensures
            *node == self.left_node(),
    ;

    /// The right operand.
    fn right(&self) -> (node: &Node)
        ensures
            *node == self.right_node(),
    ;
}

/// `left AS right`: a value under another name.
pub struct As {
    pub left: Box<Node>,
    pub right: Box<Node>,
}

impl Binary for As {
    open spec fn left_node(&self) -> Node {
        *self.left
    }

    open spec fn right_node(&self) -> Node {
        *self.right
    }

    fn build<N1: ToNode, N2: ToNode>(left: N1, right: N2) -> (binary: As) {
        let binary = As { left: Box::new(left.to_node()), right: Box::new(right.to_node()) };
        assert(binary.left_node() == *binary.left && binary.right_node() == *binary.right);
        binary
    }

    fn left(&self) -> (node: &Node) {
        &*self.left
    }

    fn right(&self) -> (node: &Node) {
        &*self.right
    }
}

impl ToNode for As {
    open spec fn converts_to(self, node: Node) -> bool {
        node == Node::As(self)
    }

    fn to_node(self) -> (node: Node) {
        Node::As(self)
    }
}

/// `left = right` as an assignment to a column.
pub struct Assignment {
    pub left: Box<Node>,
    pub right: Box<Node>,
}

impl Binary for Assignment {
    open spec fn left_node(&self) -> Node {
        *self.left
    }

    open spec fn right_node(&self) -> Node {
        *self.right
    }

    fn build<N1: ToNode, N2: ToNode>(left: N1, right: N2) -> (binary: Assignment) {
        let binary = Assignment { left: Box::new(left.to_node()), right: Box::new(right.to_node()) };
        assert(binary.left_node() == *binary.left && binary.right_node() == *binary.right);
        binary
    }

    fn left(&self) -> (node: &Node) {
        &*self.left
    }

    fn right(&self) -> (node: &Node) {
        &*self.right
    }
}

impl ToNode for Assignment {
    open spec fn converts_to(self, node: Node) -> bool {
        node == Node::Assignment(self)
    }

    fn to_node(self) -> (node: Node) {
        Node::Assignment(self)
    }
}

/// `left BETWEEN right`: a range test.
pub struct Between {
    pub left: Box<Node>,
    pub right: Box<Node>,
}

impl Binary for Between {
    open spec fn left_node(&self) -> Node {
        *self.left
    }

    open spec fn right_node(&self) -> Node {
        *self.right
    }

    fn build<N1: ToNode, N2: ToNode>(left: N1, right: N2) -> (binary: Between) {
        let binary = Between { left: Box::new(left.to_node()), right: Box::new(right.to_node()) };
        assert(binary.left_node() == *binary.left && binary.right_node() == *binary.right);
        binary
    }

    fn left(&self) -> (node: &Node) {
        &*self.left
    }

    fn right(&self) -> (node: &Node) {
        &*self.right
    }
}

impl ToNode for Between {
    open spec fn converts_to(self, node: Node) -> bool {
        node == Node::Between(self)
    }

    fn to_node(self) -> (node: Node) {
        Node::Between(self)
    }
}

/// `left NOT LIKE right`: a failed pattern match.
pub struct DoesNotMatch {
    pub left: Box<Node>,
    pub right: Box<Node>,
}

impl Binary for DoesNotMatch {
    open spec fn left_node(&self) -> Node {
        *self.left
    }

    open spec fn right_node(&self) -> Node {
        *self.right
    }

    fn build<N1: ToNode, N2: ToNode>(left: N1, right: N2) -> (binary: DoesNotMatch) {
        let binary = DoesNotMatch { left: Box::new(left.to_node()), right: Box::new(right.to_node()) };
        assert(binary.left_node() == *binary.left && binary.right_node() == *binary.right);
        binary
    }

    fn left(&self) -> (node: &Node) {
        &*self.left
    }

    fn right(&self) -> (node: &Node) {
        &*self.right
    }
}

impl ToNode for DoesNotMatch {
    open spec fn converts_to(self, node: Node) -> bool {
        node == Node::DoesNotMatch(self)
    }

    fn to_node(self) -> (node: Node) {
        Node::DoesNotMatch(self)
    }
}

/// `left > right`.
pub struct GreaterThan {
    pub left: Box<Node>,
    pub right: Box<Node>,
}

impl Binary for GreaterThan {
    open spec fn left_node(&self) -> Node {
        *self.left
    }

    open spec fn right_node(&self) -> Node {
        *self.right
    }

    fn build<N1: ToNode, N2: ToNode>(left: N1, right: N2) -> (binary: GreaterThan) {
        let binary = GreaterThan { left: Box::new(left.to_node()), right: Box::new(right.to_node()) };
        assert(binary.left_node() == *binary.left && binary.right_node() == *binary.right);
        binary
    }

    fn left(&self) -> (node: &Node) {
        &*self.left
    }

    fn right(&self) -> (node: &Node) {
        &*self.right
    }
}

impl ToNode for GreaterThan {
    open spec fn converts_to(self, node: Node) -> bool {
        node == Node::GreaterThan(self)
    }

    fn to_node(self) -> (node: Node) {
        Node::GreaterThan(self)
    }
}

/// `left >= right`.
pub struct GreaterThanOrEqual {
    pub left: Box<Node>,
    pub right: Box<Node>,
}

impl Binary for GreaterThanOrEqual {
    open spec fn left_node(&self) -> Node {
        *self.left
    }

    open spec fn right_node(&self) -> Node {
        *self.right
    }

    fn build<N1: ToNode, N2: ToNode>(left: N1, right: N2) -> (binary: GreaterThanOrEqual) {
        let binary = GreaterThanOrEqual { left: Box::new(left.to_node()), right: Box::new(right.to_node()) };
        assert(binary.left_node() == *binary.left && binary.right_node() == *binary.right);
        binary
    }

    fn left(&self) -> (node: &Node) {
        &*self.left
    }

    fn right(&self) -> (node: &Node) {
        &*self.right
    }
}

impl ToNode for GreaterThanOrEqual {
    open spec fn converts_to(self, node: Node) -> bool {
        node == Node::GreaterThanOrEqual(self)
    }

    fn to_node(self) -> (node: Node) {
        Node::GreaterThanOrEqual(self)
    }
}

/// `left < right`.
pub struct LessThan {
    pub left: Box<Node>,
    pub right: Box<Node>,
}

impl Binary for LessThan {
    open spec fn left_node(&self) -> Node {
        *self.left
    }

    open spec fn right_node(&self) -> Node {
        *self.right
    }

    fn build<N1: ToNode, N2: ToNode>(left: N1, right: N2) -> (binary: LessThan) {
        let binary = LessThan { left: Box::new(left.to_node()), right: Box::new(right.to_node()) };
        assert(binary.left_node() == *binary.left && binary.right_node() == *binary.right);
        binary
    }

    fn left(&self) -> (node: &Node) {
        &*self.left
    }

    fn right(&self) -> (node: &Node) {
        &*self.right
    }
}

impl ToNode for LessThan {
    open spec fn converts_to(self, node: Node) -> bool {
        node == Node::LessThan(self)
    }

    fn to_node(self) -> (node: Node) {
        Node::LessThan(self)
    }
}

/// `left <= right`.
pub struct LessThanOrEqual {
    pub left: Box<Node>,
    pub right: Box<Node>,
}

impl Binary for LessThanOrEqual {
    open spec fn left_node(&self) -> Node {
        *self.left
    }

    open spec fn right_node(&self) -> Node {
        *self.right
    }

    fn build<N1: ToNode, N2: ToNode>(left: N1, right: N2) -> (binary: LessThanOrEqual) {
        let binary = LessThanOrEqual { left: Box::new(left.to_node()), right: Box::new(right.to_node()) };
        assert(binary.left_node() == *binary.left && binary.right_node() == *binary.right);
        binary
    }

    fn left(&self) -> (node: &Node) {
        &*self.left
    }

    fn right(&self) -> (node: &Node) {
        &*self.right
    }
}

impl ToNode for LessThanOrEqual {
    open spec fn converts_to(self, node: Node) -> bool {
        node == Node::LessThanOrEqual(self)
    }

    fn to_node(self) -> (node: Node) {
        Node::LessThanOrEqual(self)
    }
}

/// `left LIKE right`: a pattern match.
pub struct Matches {
    pub left: Box<Node>,
    pub right: Box<Node>,
}

impl Binary for Matches {
    open spec fn left_node(&self) -> Node {
        *self.left
    }

    open spec fn right_node(&self) -> Node {
        *self.right
    }

    fn build<N1: ToNode, N2: ToNode>(left: N1, right: N2) -> (binary: Matches) {
        let binary = Matches { left: Box::new(left.to_node()), right: Box::new(right.to_node()) };
        assert(binary.left_node() == *binary.left && binary.right_node() == *binary.right);
        binary
    }

    fn left(&self) -> (node: &Node) {
        &*self.left
    }

    fn right(&self) -> (node: &Node) {
        &*self.right
    }
}

impl ToNode for Matches {
    open spec fn converts_to(self, node: Node) -> bool {
        node == Node::Matches(self)
    }

    fn to_node(self) -> (node: Node) {
        Node::Matches(self)
    }
}

/// `left != right`.
pub struct NotEqual {
    pub left: Box<Node>,
    pub right: Box<Node>,
}

impl Binary for NotEqual {
    open spec fn left_node(&self) -> Node {
        *self.left
    }

    open spec fn right_node(&self) -> Node {
        *self.right
    }

    fn build<N1: ToNode, N2: ToNode>(left: N1, right: N2) -> (binary: NotEqual) {
        let binary = NotEqual { left: Box::new(left.to_node()), right: Box::new(right.to_node()) };
        assert(binary.left_node() == *binary.left && binary.right_node() == *binary.right);
        binary
    }

    fn left(&self) -> (node: &Node) {
        &*self.left
    }

    fn right(&self) -> (node: &Node) {
        &*self.right
    }
}

impl ToNode for NotEqual {
    open spec fn converts_to(self, node: Node) -> bool {
        node == Node::NotEqual(self)
    }

    fn to_node(self) -> (node: Node) {
        Node::NotEqual(self)
    }
}

/// `left NOT IN right`: a failed membership test.
pub struct NotIn {
    pub left: Box<Node>,
    pub right: Box<Node>,
}

impl Binary for NotIn {
    open spec fn left_node(&self) -> Node {
        *self.left
    }

    open spec fn right_node(&self) -> Node {
        *self.right
    }

    fn build<N1: ToNode, N2: ToNode>(left: N1, right: N2) -> (binary: NotIn) {
        let binary = NotIn { left: Box::new(left.to_node()), right: Box::new(right.to_node()) };
        assert(binary.left_node() == *binary.left && binary.right_node() == *binary.right);
        binary
    }

    fn left(&self) -> (node: &Node) {
        &*self.left
    }

    fn right(&self) -> (node: &Node) {
        &*self.right
    }
}

impl ToNode for NotIn {
    open spec fn converts_to(self, node: Node) -> bool {
        node == Node::NotIn(self)
    }

    fn to_node(self) -> (node: Node) {
        Node::NotIn(self)
    }
}

/// `left OR right`.
pub struct Or {
    pub left: Box<Node>,
    pub right: Box<Node>,
}

impl Binary for Or {
    open spec fn left_node(&self) -> Node {
        *self.left
    }

    open spec fn right_node(&self) -> Node {
        *self.right
    }

    fn build<N1: ToNode, N2: ToNode>(left: N1, right: N2) -> (binary: Or) {
        let binary = Or { left: Box::new(left.to_node()), right: Box::new(right.to_node()) };
        assert(binary.left_node() == *binary.left && binary.right_node() == *binary.right);
        binary
    }

    fn left(&self) -> (node: &Node) {
        &*self.left
    }

    fn right(&self) -> (node: &Node) {
        &*self.right
    }
}

impl ToNode for Or {
    open spec fn converts_to(self, node: Node) -> bool {
        node == Node::Or(self)
    }

    fn to_node(self) -> (node: Node) {
        Node::Or(self)
    }
}

/// `left UNION right`: the rows of both queries, without duplicates.
pub struct Union {
    pub left: Box<Node>,
    pub right: Box<Node>,
}

impl Binary for Union {
    open spec fn left_node(&self) -> Node {
        *self.left
    }

    open spec fn right_node(&self) -> Node {
        *self.right
    }

    fn build<N1: ToNode, N2: ToNode>(left: N1, right: N2) -> (binary: Union) {
        let binary = Union { left: Box::new(left.to_node()), right: Box::new(right.to_node()) };
        assert(binary.left_node() == *binary.left && binary.right_node() == *binary.right);
        binary
    }

    fn left(&self) -> (node: &Node) {
        &*self.left
    }

    fn right(&self) -> (node: &Node) {
        &*self.right
    }
}

impl ToNode for Union {
    open spec fn converts_to(self, node: Node) -> bool {
        node == Node::Union(self)
    }

    fn to_node(self) -> (node: Node) {
        Node::Union(self)
    }
}

/// `left UNION ALL right`: the rows of both queries.
pub struct UnionAll {
    pub left: Box<Node>,
    pub right: Box<Node>,
}

impl Binary for UnionAll {
    open spec fn left_node(&self) -> Node {
        *self.left
    }

    open spec fn right_node(&self) -> Node {
        *self.right
    }

    fn build<N1: ToNode, N2: ToNode>(left: N1, right: N2) -> (binary: UnionAll) {
        let binary = UnionAll { left: Box::new(left.to_node()), right: Box::new(right.to_node()) };
        assert(binary.left_node() == *binary.left && binary.right_node() == *binary.right);
        binary
    }

    fn left(&self) -> (node: &Node) {
        &*self.left
    }

    fn right(&self) -> (node: &Node) {
        &*self.right
    }
}

impl ToNode for UnionAll {
    open spec fn converts_to(self, node: Node) -> bool {
        node == Node::UnionAll(self)
    }

    fn to_node(self) -> (node: Node) {
        Node::UnionAll(self)
    }
}

/// `left INTERSECT right`: the rows that both queries give.
pub struct Intersect {
    pub left: Box<Node>,
    pub right: Box<Node>,
}

impl Binary for Intersect {
    open spec fn left_node(&self) -> Node {
        *self.left
    }

    open spec fn right_node(&self) -> Node {
        *self.right
    }

    fn build<N1: ToNode, N2: ToNode>(left: N1, right: N2) -> (binary: Intersect) {
        let binary = Intersect { left: Box::new(left.to_node()), right: Box::new(right.to_node()) };
        assert(binary.left_node() == *binary.left && binary.right_node() == *binary.right);
        binary
    }

    fn left(&self) -> (node: &Node) {
        &*self.left
    }

    fn right(&self) -> (node: &Node) {
        &*self.right
    }
}

impl ToNode for Intersect {
    open spec fn converts_to(self, node: Node) -> bool {
        node == Node::Intersect(self)
    }

    fn to_node(self) -> (node: Node) {
        Node::Intersect(self)
    }
}

/// `left EXCEPT right`: the rows of the left query that the right one lacks.
pub struct Except {
    pub left: Box<Node>,
    pub right: Box<Node>,
}

impl Binary for Except {
    open spec fn left_node(&self) -> Node {
        *self.left
    }

    open spec fn right_node(&self) -> Node {
        *self.right
    }

    fn build<N1: ToNode, N2: ToNode>(left: N1, right: N2) -> (binary: Except) {
        let binary = Except { left: Box::new(left.to_node()), right: Box::new(right.to_node()) };
        assert(binary.left_node() == *binary.left && binary.right_node() == *binary.right);
        binary
    }

    fn left(&self) -> (node: &Node) {
        &*self.left
    }

    fn right(&self) -> (node: &Node) {
        &*self.right
    }
}

impl ToNode for Except {
    open spec fn converts_to(self, node: Node) -> bool {
        node == Node::Except(self)
    }

    fn to_node(self) -> (node: Node) {
        Node::Except(self)
    }
}

/// A deletion: the relation on the left, its conditions on the right.
pub struct Delete {
    pub left: Box<Node>,
    pub right: Box<Node>,
}

impl Binary for Delete {
    open spec fn left_node(&self) -> Node {
        *self.left
    }

    open spec fn right_node(&self) -> Node {
        *self.right
    }

    fn build<N1: ToNode, N2: ToNode>(left: N1, right: N2) -> (binary: Delete) {
        let binary = Delete { left: Box::new(left.to_node()), right: Box::new(right.to_node()) };
        assert(binary.left_node() == *binary.left && binary.right_node() == *binary.right);
        binary
    }

    fn left(&self) -> (node: &Node) {
        &*self.left
    }

    fn right(&self) -> (node: &Node) {
        &*self.right
    }
}

impl ToNode for Delete {
    open spec fn converts_to(self, node: Node) -> bool {
        node == Node::Delete(self)
    }

    fn to_node(self) -> (node: Node) {
        Node::Delete(self)
    }
}

/// `left = right` as a comparison.
pub struct Equality {
    pub left: Box<Node>,
    pub right: Box<Node>,
}

impl Binary for Equality {
    open spec fn left_node(&self) -> Node {
        *self.left
    }

    open spec fn right_node(&self) -> Node {
        *self.right
    }

    fn build<N1: ToNode, N2: ToNode>(left: N1, right: N2) -> (binary: Equality) {
        let binary = Equality { left: Box::new(left.to_node()), right: Box::new(right.to_node()) };
        assert(binary.left_node() == *binary.left && binary.right_node() == *binary.right);
        binary
    }

    fn left(&self) -> (node: &Node) {
        &*self.left
    }

    fn right(&self) -> (node: &Node) {
        &*self.right
    }
}

impl ToNode for Equality {
    open spec fn converts_to(self, node: Node) -> bool {
        node == Node::Equality(self)
    }

    fn to_node(self) -> (node: Node) {
        Node::Equality(self)
    }
}

/// `left IN right`: a membership test.
pub struct In {
    pub left: Box<Node>,
    pub right: Box<Node>,
}

impl Binary for In {
    open spec fn left_node(&self) -> Node {
        *self.left
    }

    open spec fn right_node(&self) -> Node {
        *self.right
    }

    fn build<N1: ToNode, N2: ToNode>(left: N1, right: N2) -> (binary: In) {
        let binary = In { left: Box::new(left.to_node()), right: Box::new(right.to_node()) };
        assert(binary.left_node() == *binary.left && binary.right_node() == *binary.right);
        binary
    }

    fn left(&self) -> (node: &Node) {
        &*self.left
    }

    fn right(&self) -> (node: &Node) {
        &*self.right
    }
}

impl ToNode for In {
    open spec fn converts_to(self, node: Node) -> bool {
        node == Node::In(self)
    }

    fn to_node(self) -> (node: Node) {
        Node::In(self)
    }
}

/// `left AND right`.
pub struct And {
    pub left: Box<Node>,
    pub right: Box<Node>,
}

impl Binary for And {
    open spec fn left_node(&self) -> Node {
        *self.left
    }

    open spec fn right_node(&self) -> Node {
        *self.right
    }

    fn build<N1: ToNode, N2: ToNode>(left: N1, right: N2) -> (binary: And) {
        let binary = And { left: Box::new(left.to_node()), right: Box::new(right.to_node()) };
        assert(binary.left_node() == *binary.left && binary.right_node() == *binary.right);
        binary
    }

    fn left(&self) -> (node: &Node) {
        &*self.left
    }

    fn right(&self) -> (node: &Node) {
        &*self.right
    }
}

impl ToNode for And {
    open spec fn converts_to(self, node: Node) -> bool {
        node == Node::And(self)
    }

    fn to_node(self) -> (node: Node) {
        Node::And(self)
    }
}

/// `left * right`.
pub struct Multiplication {
    pub left: Box<Node>,
    pub right: Box<Node>,
}

impl Binary for Multiplication {
    open spec fn left_node(&self) -> Node {
        *self.left
    }

    open spec fn right_node(&self) -> Node {
        *self.right
    }

    fn build<N1: ToNode, N2: ToNode>(left: N1, right: N2) -> (binary: Multiplication) {
        let binary = Multiplication { left: Box::new(left.to_node()), right: Box::new(right.to_node()) };
        assert(binary.left_node() == *binary.left && binary.right_node() == *binary.right);
        binary
    }

    fn left(&self) -> (node: &Node) {
        &*self.left
    }

    fn right(&self) -> (node: &Node) {
        &*self.right
    }
}

impl ToNode for Multiplication {
    open spec fn converts_to(self, node: Node) -> bool {
        node == Node::Multiplication(self)
    }

    fn to_node(self) -> (node: Node) {
        Node::Multiplication(self)
    }
}

/// `left / right`.
pub struct Division {
    pub left: Box<Node>,
    pub right: Box<Node>,
}

impl Binary for Division {
    open spec fn left_node(&self) -> Node {
        *self.left
    }

    open spec fn right_node(&self) -> Node {
        *self.right
    }

    fn build<N1: ToNode, N2: ToNode>(left: N1, right: N2) -> (binary: Division) {
        let binary = Division { left: Box::new(left.to_node()), right: Box::new(right.to_node()) };
        assert(binary.left_node() == *binary.left && binary.right_node() == *binary.right);
        binary
    }

    fn left(&self) -> (node: &Node) {
        &*self.left
    }

    fn right(&self) -> (node: &Node) {
        &*self.right
    }
}

impl ToNode for Division {
    open spec fn converts_to(self, node: Node) -> bool {
        node == Node::Division(self)
    }

    fn to_node(self) -> (node: Node) {
        Node::Division(self)
    }
}

/// `left + right`.
pub struct Addition {
    pub left: Box<Node>,
    pub right: Box<Node>,
}

impl Binary for Addition {
    open spec fn left_node(&self) -> Node {
        *self.left
    }

    open spec fn right_node(&self) -> Node {
        *self.right
    }

    fn build<N1: ToNode, N2: ToNode>(left: N1, right: N2) -> (binary: Addition) {
        let binary = Addition { left: Box::new(left.to_node()), right: Box::new(right.to_node()) };
        assert(binary.left_node() == *binary.left && binary.right_node() == *binary.right);
        binary
    }

    fn left(&self) -> (node: &Node) {
        &*self.left
    }

    fn right(&self) -> (node: &Node) {
        &*self.right
    }
}

impl ToNode for Addition {
    open spec fn converts_to(self, node: Node) -> bool {
        node == Node::Addition(self)
    }

    fn to_node(self) -> (node: Node) {
        Node::Addition(self)
    }
}

/// `left - right`.
pub struct Subtraction {
    pub left: Box<Node>,
    pub right: Box<Node>,
}

impl Binary for Subtraction {
    open spec fn left_node(&self) -> Node {
        *self.left
    }

    open spec fn right_node(&self) -> Node {
        *self.right
    }

    fn build<N1: ToNode, N2: ToNode>(left: N1, right: N2) -> (binary: Subtraction) {
        let binary = Subtraction { left: Box::new(left.to_node()), right: Box::new(right.to_node()) };
        assert(binary.left_node() == *binary.left && binary.right_node() == *binary.right);
        binary
    }

    fn left(&self) -> (node: &Node) {
        &*self.left
    }

    fn right(&self) -> (node: &Node) {
        &*self.right
    }
}

impl ToNode for Subtraction {
    open spec fn converts_to(self, node: Node) -> bool {
        node == Node::Subtraction(self)
    }

    fn to_node(self) -> (node: Node) {
        Node::Subtraction(self)
    }
}

/// What `left` and `right` read from a node that `build` has made are the
/// operands that were passed to `build`, each as the node that it converts
/// to and otherwise unaltered.
pub proof fn lemma_accessors_read_the_built_operands<B: Binary, N1: ToNode, N2: ToNode>(
    binary: B,
    left: N1,
    right: N2,
    read_left: Node,
    read_right: Node,
)
    requires
        left.converts_to(binary.left_node()),
        right.converts_to(binary.right_node()),
        read_left == binary.left_node(),
        read_right == binary.right_node(),
    ensures
        left.converts_to(read_left),
        right.converts_to(read_right),
{
}

impl Orderable for Multiplication {
}

impl OrderBy for Multiplication {
}

impl InfixOperation for Multiplication {
}

impl Orderable for Division {
}

impl OrderBy for Division {
}

impl InfixOperation for Division {
}

impl Orderable for Addition {
}

impl OrderBy for Addition {
}

impl InfixOperation for Addition {
}

impl Orderable for Subtraction {
}

impl OrderBy for Subtraction {
}

impl InfixOperation for Subtraction {
}

} // verus!
