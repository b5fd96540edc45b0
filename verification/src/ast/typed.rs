//! Expressions of a known sort.

use vstd::prelude::*;
use crate::ast::node::{share, AstRef};
use crate::ast::op::AstKind;

verus! {

/// A boolean expression: a node whose sort is `Bool`.
#[derive(Debug, PartialEq, Eq, Hash)]
pub struct BoolAst {
    node: AstRef,
}

impl BoolAst {
    /// The node is boolean.
    #[verifier::type_invariant]
    pub closed spec fn sort_matches(self) -> bool {
        self.node.spec_kind() == AstKind::Bool
    }

    /// The node.
    pub closed spec fn spec_node(self) -> AstRef {
        self.node
    }

    /// Tags a node already known to be boolean.
    pub(crate) fn wrap(node: AstRef) -> (r: BoolAst)
        requires
            node.spec_kind() == AstKind::Bool,
        ensures
            r.spec_node() == node,
    {
        BoolAst { node }
    }

    /// The node, if it is boolean.
    pub fn from_node(node: &AstRef) -> (r: Option<BoolAst>)
        ensures
            r is Some <==> node.spec_kind() == AstKind::Bool,
            r matches Some(t) ==> t.spec_node() == *node,
    {
        if node.kind() == AstKind::Bool {
            Some(BoolAst { node: share(node) })
        } else {
            None
        }
    }

    /// The node.
    pub fn node(&self) -> (r: &AstRef)
        ensures
            *r == self.spec_node(),
            r.spec_kind() == AstKind::Bool,
    {
        proof {
            use_type_invariant(self);
        }
        &self.node
    }
}

impl Clone for BoolAst {
    fn clone(&self) -> (r: Self)
        ensures
            r == *self,
    {
        proof {
            use_type_invariant(self);
        }
        BoolAst { node: share(&self.node) }
    }
}

/// A bit-vector expression: a node whose sort is `BitVec`.
#[derive(Debug, PartialEq, Eq, Hash)]
pub struct BitVecAst {
    node: AstRef,
}

impl BitVecAst {
    /// The node is a bit-vector.
    #[verifier::type_invariant]
    pub closed spec fn sort_matches(self) -> bool {
        self.node.spec_kind() == AstKind::BitVec
    }

    /// The node.
    pub closed spec fn spec_node(self) -> AstRef {
        self.node
    }

    /// Tags a node already known to be a bit-vector.
    pub(crate) fn wrap(node: AstRef) -> (r: BitVecAst)
        requires
            node.spec_kind() == AstKind::BitVec,
        ensures
            r.spec_node() == node,
    {
        BitVecAst { node }
    }

    /// The node, if it is a bit-vector.
    pub fn from_node(node: &AstRef) -> (r: Option<BitVecAst>)
        ensures
            r is Some <==> node.spec_kind() == AstKind::BitVec,
            r matches Some(t) ==> t.spec_node() == *node,
    {
        if node.kind() == AstKind::BitVec {
            Some(BitVecAst { node: share(node) })
        } else {
            None
        }
    }

    /// The node.
    pub fn node(&self) -> (r: &AstRef)
        ensures
            *r == self.spec_node(),
            r.spec_kind() == AstKind::BitVec,
    {
        proof {
            use_type_invariant(self);
        }
        &self.node
    }
}

impl Clone for BitVecAst {
    fn clone(&self) -> (r: Self)
        ensures
            r == *self,
    {
        proof {
            use_type_invariant(self);
        }
        BitVecAst { node: share(&self.node) }
    }
}

/// A floating-point expression: a node whose sort is `Float`.
#[derive(Debug, PartialEq, Eq, Hash)]
pub struct FloatAst {
    node: AstRef,
}

impl FloatAst {
    /// The node is floating-point.
    #[verifier::type_invariant]
    pub closed spec fn sort_matches(self) -> bool {
        self.node.spec_kind() == AstKind::Float
    }

    /// The node.
    pub closed spec fn spec_node(self) -> AstRef {
        self.node
    }

    /// Tags a node already known to be floating-point.
    pub(crate) fn wrap(node: AstRef) -> (r: FloatAst)
        requires
            node.spec_kind() == AstKind::Float,
        ensures
            r.spec_node() == node,
    {
        FloatAst { node }
    }

    /// The node, if it is floating-point.
    pub fn from_node(node: &AstRef) -> (r: Option<FloatAst>)
        ensures
            r is Some <==> node.spec_kind() == AstKind::Float,
            r matches Some(t) ==> t.spec_node() == *node,
    {
        if node.kind() == AstKind::Float {
            Some(FloatAst { node: share(node) })
        } else {
            None
        }
    }

    /// The node.
    pub fn node(&self) -> (r: &AstRef)
        ensures
            *r == self.spec_node(),
            r.spec_kind() == AstKind::Float,
    {
        proof {
            use_type_invariant(self);
        }
        &self.node
    }
}

impl Clone for FloatAst {
    fn clone(&self) -> (r: Self)
        ensures
            r == *self,
    {
        proof {
            use_type_invariant(self);
        }
        FloatAst { node: share(&self.node) }
    }
}

/// A string expression: a node whose sort is `String`.
#[derive(Debug, PartialEq, Eq, Hash)]
pub struct StringAst {
    node: AstRef,
}

impl StringAst {
    /// The node is a string.
    #[verifier::type_invariant]
    pub closed spec fn sort_matches(self) -> bool {
        self.node.spec_kind() == AstKind::String
    }

    /// The node.
    pub closed spec fn spec_node(self) -> AstRef {
        self.node
    }

    /// Tags a node already known to be a string.
    pub(crate) fn wrap(node: AstRef) -> (r: StringAst)
        requires
            node.spec_kind() == AstKind::String,
        ensures
            r.spec_node() == node,
    {
        StringAst { node }
    }

    /// The node, if it is a string.
    pub fn from_node(node: &AstRef) -> (r: Option<StringAst>)
        ensures
            r is Some <==> node.spec_kind() == AstKind::String,
            r matches Some(t) ==> t.spec_node() == *node,
    {
        if node.kind() == AstKind::String {
            Some(StringAst { node: share(node) })
        } else {
            None
        }
    }

    /// The node.
    pub fn node(&self) -> (r: &AstRef)
        ensures
            *r == self.spec_node(),
            r.spec_kind() == AstKind::String,
    {
        proof {
            use_type_invariant(self);
        }
        &self.node
    }
}

impl Clone for StringAst {
    fn clone(&self) -> (r: Self)
        ensures
            r == *self,
    {
        proof {
            use_type_invariant(self);
        }
        StringAst { node: share(&self.node) }
    }
}

} // verus!
