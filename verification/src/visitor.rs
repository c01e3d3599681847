//! What a renderer of syntax trees offers.

use vstd::prelude::*;
use crate::collector::CollectSql;
use crate::nodes::Node;

verus! {

/// A renderer into collectors of type `C`: it holds the rule by which each
/// kind of node is written.
///
/// The text that a visitor writes for a tree depends on the tree and on the
/// type of the collector, and on nothing else.
pub trait Visitor<C: CollectSql> {
    /// Whether this visitor has a rule for every kind of node that a render
    /// pass over `node` comes to.
    spec fn supports(&self, node: &Node) -> bool;

    /// The text that this visitor writes for `node`.
    spec fn rendered(&self, node: &Node) -> Seq<char>;

    /// Tests whether this visitor can render `node`.
    fn accepts(&self, node: &Node) -> (ok: bool)
        ensures
            ok == self.supports(node),
    ;

    /// Renders `node`: appends its text to what `collector` holds.
    fn visit(&self, node: &Node, collector: &mut C)
        requires
            self.supports(node),
        ensures
            final(collector).text() == old(collector).text() + self.rendered(node),
    ;
}

} // verus!
