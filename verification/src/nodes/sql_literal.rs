//! Literal SQL text and bound values.

use vstd::prelude::*;
use vstd::string::StringExecFns;
use crate::decimal::{is_fractional_decimal, is_fractional_decimal_str};
use crate::nodes::{
    Node, OrderBy, Orderable, Projection, ProjectionNode, ToNode, ToProjection,
};

verus! {

/// SQL text that is written as it stands: a keyword, `*`, a number already
/// in digits. Whoever builds a literal answers for its text.
pub struct Literal {
    pub value: String,
}

impl Literal {
    /// The literal text `string`.
    pub fn new(string: &str) -> (literal: Literal)
        ensures
            literal.value@ == string@,
    {
        Literal { value: String::from_str(string) }
    }
}

impl ToNode for Literal {
    open spec fn converts_to(self, node: Node) -> bool {
        node == Node::Literal(self)
    }

    fn to_node(self) -> (node: Node) {
        Node::Literal(self)
    }
}

impl Projection for Literal {
}

impl ToProjection for Literal {
    open spec fn projects_to(self, projection: ProjectionNode) -> bool {
        projection == ProjectionNode::Literal(self)
    }

    fn to_projection(self) -> (projection: ProjectionNode) {
        ProjectionNode::Literal(self)
    }
}

/// The decimal text of a number with a fraction, as a bound value carries
/// it: an optional minus sign, then digits with at most one point among
/// them.
pub struct FloatText {
    text: String,
}

impl FloatText {
    /// The text itself.
    pub closed spec fn view(&self) -> Seq<char> {
        self.text@
    }

    /// Whether the text is the decimal text of a number.
    #[verifier::type_invariant]
    pub open spec fn wf(&self) -> bool {
        is_fractional_decimal(self@)
    }

    /// Takes `text` if it is the decimal text of a number, and nothing
    /// otherwise.
    pub fn parse(text: &str) -> (parsed: Option<FloatText>)
        ensures
            parsed is Some <==> is_fractional_decimal(text@),
            parsed matches Some(float) ==> float@ == text@ && float.wf(),
    {
        if is_fractional_decimal_str(text) {
            Some(FloatText { text: String::from_str(text) })
        } else {
            None
        }
    }

    /// The text itself.
    pub fn as_str(&self) -> (text: &str)
        ensures
            text@ == self@,
            is_fractional_decimal(text@),
    {
        proof {
            use_type_invariant(self);
        }
        self.text.as_str()
    }
}

/// A value bound into a statement, tagged with its type.
pub enum BindValue {
    IntKind(i64),
    UintKind(u64),
    BoolKind(bool),
    F32Kind(FloatText),
    F64Kind(FloatText),
    StringKind(String),
}

impl BindValue {
    /// Whether the value is valid: a number with a fraction carries the
    /// decimal text of a number.
    pub open spec fn wf(&self) -> bool {
        match self {
            BindValue::F32Kind(float) => float.wf(),
            BindValue::F64Kind(float) => float.wf(),
            _ => true,
        }
    }
}

/// A bound value as a node.
pub struct Bind {
    pub value: BindValue,
}

impl ToNode for Bind {
    open spec fn converts_to(self, node: Node) -> bool {
        node == Node::Bind(self)
    }

    fn to_node(self) -> (node: Node) {
        Node::Bind(self)
    }
}

impl Orderable for Bind {
}

impl OrderBy for Bind {
}

impl Projection for Bind {
}

impl ToProjection for Bind {
    open spec fn projects_to(self, projection: ProjectionNode) -> bool {
        projection == ProjectionNode::Bind(self)
    }

    fn to_projection(self) -> (projection: ProjectionNode) {
        ProjectionNode::Bind(self)
    }
}

/// A value that can be bound into a statement.
pub trait ToBind: Sized {
    /// Whether `bind` carries this value under the tag of its type.
    spec fn binds_to(self, bind: Bind) -> bool;

    /// This value as a bound value.
    fn to_bind(self) -> (bind: Bind)
        ensures
            self.binds_to(bind),
    ;
}

impl ToBind for u64 {
    open spec fn binds_to(self, bind: Bind) -> bool {
        bind.value == BindValue::UintKind(self)
    }

    fn to_bind(self) -> (bind: Bind) {
        Bind { value: BindValue::UintKind(self) }
    }
}

impl ToNode for u64 {
    open spec fn converts_to(self, node: Node) -> bool {
        node matches Node::Bind(bind) && self.binds_to(bind)
    }

    fn to_node(self) -> (node: Node) {
        Node::Bind(self.to_bind())
    }
}

impl ToBind for i64 {
    open spec fn binds_to(self, bind: Bind) -> bool {
        bind.value == BindValue::IntKind(self)
    }

    fn to_bind(self) -> (bind: Bind) {
        Bind { value: BindValue::IntKind(self) }
    }
}

impl ToNode for i64 {
    open spec fn converts_to(self, node: Node) -> bool {
        node matches Node::Bind(bind) && self.binds_to(bind)
    }

    fn to_node(self) -> (node: Node) {
        Node::Bind(self.to_bind())
    }
}

impl ToBind for bool {
    open spec fn binds_to(self, bind: Bind) -> bool {
        bind.value == BindValue::BoolKind(self)
    }

    fn to_bind(self) -> (bind: Bind) {
        Bind { value: BindValue::BoolKind(self) }
    }
}

impl ToNode for bool {
    open spec fn converts_to(self, node: Node) -> bool {
        node matches Node::Bind(bind) && self.binds_to(bind)
    }

    fn to_node(self) -> (node: Node) {
        Node::Bind(self.to_bind())
    }
}

impl ToBind for String {
    open spec fn binds_to(self, bind: Bind) -> bool {
        bind.value == BindValue::StringKind(self)
    }

    fn to_bind(self) -> (bind: Bind) {
        Bind { value: BindValue::StringKind(self) }
    }
}

impl ToNode for String {
    open spec fn converts_to(self, node: Node) -> bool {
        node matches Node::Bind(bind) && self.binds_to(bind)
    }

    fn to_node(self) -> (node: Node) {
        Node::Bind(self.to_bind())
    }
}

impl<'a> ToBind for &'a str {
    open spec fn binds_to(self, bind: Bind) -> bool {
        bind.value matches BindValue::StringKind(string) && string@ == self@
    }

    fn to_bind(self) -> (bind: Bind) {
        Bind { value: BindValue::StringKind(String::from_str(self)) }
    }
}

impl<'a> ToNode for &'a str {
    open spec fn converts_to(self, node: Node) -> bool {
        node matches Node::Bind(bind) && self.binds_to(bind)
    }

    fn to_node(self) -> (node: Node) {
        Node::Bind(self.to_bind())
    }
}

impl Bind {
    /// The bound value of `val`.
    pub fn from<T: ToBind>(val: T) -> (bind: Bind)
        ensures
            val.binds_to(bind),
    {
        val.to_bind()
    }
}

} // verus!
