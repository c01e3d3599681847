//! A whole query: its units and the clauses that follow them.

use vstd::prelude::*;
use crate::nodes::{Limit, Literal, Node, Offset, SelectCore, ToNode};

verus! {

/// A whole query: the units that earlier set operations brought in, the unit
/// that is being built, the `ORDER BY` list, and the clauses of which a query
/// has at most one each.
pub struct SelectStatement {
    pub context: SelectCore,
    pub cores: Vec<SelectCore>,
    pub orders: Vec<Node>,
    pub limit: Option<Limit>,
    pub offset: Option<Offset>,
    pub lock: Option<Literal>,
}

impl SelectStatement {
    /// Whether the query is empty: one empty unit and no clause.
    pub open spec fn is_empty(&self) -> bool {
        &&& self.context.is_empty()
        &&& self.has_no_clause()
    }

    /// Whether the query has nothing beside the unit that is being built: no
    /// earlier unit and no clause.
    pub open spec fn has_no_clause(&self) -> bool {
        &&& self.cores@.len() == 0
        &&& self.orders@.len() == 0
        &&& self.limit is None
        &&& self.offset is None
        &&& self.lock is None
    }

    /// Whether `other` has the same earlier units and the same clauses as this
    /// query; the units that are being built may differ.
    pub open spec fn same_clauses(&self, other: &SelectStatement) -> bool {
        &&& self.cores == other.cores
        &&& self.orders == other.orders
        &&& self.limit == other.limit
        &&& self.offset == other.offset
        &&& self.lock == other.lock
    }

    /// An empty query: one empty unit and no clause.
    pub fn build() -> (statement: SelectStatement)
        ensures
            statement.is_empty(),
    {
        SelectStatement {
            context: SelectCore::build(),
            cores: Vec::new(),
            orders: Vec::new(),
            limit: None,
            lock: None,
            offset: None,
        }
    }

    /// The unit that is being built, to be changed in place.
    pub fn context(&mut self) -> (context: &mut SelectCore)
        ensures
            *context == old(self).context,
            final(self).context == *final(context),
            final(self).same_clauses(old(self)),
    {
        &mut self.context
    }

    /// All units from left to right: the earlier ones, then the one that is
    /// being built.
    pub fn cores(&self) -> (cores: Vec<&SelectCore>)
        ensures
            cores@.len() == self.cores@.len() + 1,
            forall|i: int| 0 <= i < self.cores@.len() ==> *#[trigger] cores@[i] == self.cores@[i],
            *cores@[self.cores@.len() as int] == self.context,
    {
        let mut cores: Vec<&SelectCore> = Vec::new();
        let mut i: usize = 0;
        while i < self.cores.len()
            invariant
                i <= self.cores@.len(),
                cores@.len() == i,
                forall|k: int| 0 <= k < i ==> *#[trigger] cores@[k] == self.cores@[k],
            decreases self.cores@.len() - i,
        {
            cores.push(&self.cores[i]);
            i += 1;
        }
        cores.push(&self.context);
        cores
    }
}

impl ToNode for SelectStatement {
    open spec fn converts_to(self, node: Node) -> bool {
        node == Node::SelectStatement(self)
    }

    fn to_node(self) -> (node: Node) {
        Node::SelectStatement(self)
    }
}

} // verus!
