//! Shorthands that join two values by `AND` or `OR`.

use vstd::prelude::*;
use crate::nodes::{And, Or, ToNode};

verus! {

/// Logical connectives of a value with another: the value becomes the left
/// operand and the argument the right one.
pub trait Conjunctions: ToNode {
    /// `self AND other`.
    fn and<N: ToNode>(self, other: N) -> (node: And)
        ensures
            self.converts_to(*node.left),
            other.converts_to(*node.right),
    {
        And { left: Box::new(self.to_node()), right: Box::new(other.to_node()) }
    }

    /// `self OR other`.
    fn or<N: ToNode>(self, other: N) -> (node: Or)
        ensures
            self.converts_to(*node.left),
            other.converts_to(*node.right),
    {
        Or { left: Box::new(self.to_node()), right: Box::new(other.to_node()) }
    }
}

impl<N: ToNode> Conjunctions for N {
}

} // verus!
