//! Shorthands that join a value and another into a comparison, or give a
//! value a direction to order by. They build nodes and evaluate nothing.

use vstd::prelude::*;
use crate::nodes::{
    Ascending, Binary, Descending, DoesNotMatch, Equality, GreaterThan, GreaterThanOrEqual,
    LessThan, LessThanOrEqual, Matches, Orderable, ToNode, Unary,
};

verus! {

/// Comparisons of a value with another: the value becomes the left operand
/// and the argument the right one.
pub trait Predications: ToNode {
    /// `self = other`.
    fn eql<N: ToNode>(self, other: N) -> (node: Equality)
        ensures
            self.converts_to(*node.left),
            other.converts_to(*node.right),
    {
        Binary::build(self, other)
    }

    /// `self LIKE other`.
    fn matches<N: ToNode>(self, other: N) -> (node: Matches)
        ensures
            self.converts_to(*node.left),
            other.converts_to(*node.right),
    {
        Binary::build(self, other)
    }

    /// `self NOT LIKE other`.
    fn does_not_match<N: ToNode>(self, other: N) -> (node: DoesNotMatch)
        ensures
            self.converts_to(*node.left),
            other.converts_to(*node.right),
    {
        Binary::build(self, other)
    }

    /// `self > other`.
    fn gt<N: ToNode>(self, other: N) -> (node: GreaterThan)
        ensures
            self.converts_to(*node.left),
            other.converts_to(*node.right),
    {
        Binary::build(self, other)
    }

    /// `self < other`.
    fn lt<N: ToNode>(self, other: N) -> (node: LessThan)
        ensures
            self.converts_to(*node.left),
            other.converts_to(*node.right),
    {
        Binary::build(self, other)
    }

    /// `self >= other`.
    fn gte<N: ToNode>(self, other: N) -> (node: GreaterThanOrEqual)
        ensures
            self.converts_to(*node.left),
            other.converts_to(*node.right),
    {
        Binary::build(self, other)
    }

    /// `self <= other`.
    fn lte<N: ToNode>(self, other: N) -> (node: LessThanOrEqual)
        ensures
            self.converts_to(*node.left),
            other.converts_to(*node.right),
    {
        Binary::build(self, other)
    }
}

impl<N: ToNode> Predications for N {
}

/// Directions for a value that can be ordered by.
pub trait OrderPredications: ToNode {
    /// This value in ascending order.
    fn asc(self) -> (node: Ascending)
        ensures
            self.converts_to(*node.operand),
    {
        Unary::build(self)
    }

    /// This value in descending order.
    fn desc(self) -> (node: Descending)
        ensures
            self.converts_to(*node.operand),
    {
        Unary::build(self)
    }
}

impl<N: Orderable> OrderPredications for N {
}

} // verus!
