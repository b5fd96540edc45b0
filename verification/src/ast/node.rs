//! Expression nodes: an operation together with the facts that are computed
//! once when the node is made (its hash, its variables and its depth).

use vstd::prelude::*;
use std::sync::Arc;
use crate::context::Context;
use crate::ast::typed::{BoolAst, BitVecAst, FloatAst, StringAst};
use crate::values::{Annotation, AnnotationView};
use crate::ast::op::{
    annotations_of_op, children_max_depth, kind_of_op, op_children, op_depth, op_is_false,
    op_is_true, op_variables, operands_have_depth, strings_as_set, strings_distinct, width_of_op,
    AstKind, AstOp,
};

verus! {

/// A shared reference to a node.
pub type AstRef = Arc<AstNode>;

/// An expression node.
#[derive(Debug)]
pub struct AstNode {
    op: AstOp,
    ctx: &'static Context,
    hash: u64,
    variables: Vec<String>,
    depth: u32,
}

/// Two nodes are equal when their hashes are.
impl PartialEq for AstNode {
    fn eq(&self, other: &Self) -> (r: bool) {
        self.hash == other.hash
    }
}

impl vstd::std_specs::cmp::PartialEqSpecImpl for AstNode {
    open spec fn obeys_eq_spec() -> bool {
        true
    }

    open spec fn eq_spec(&self, other: &Self) -> bool {
        self.spec_hash() == other.spec_hash()
    }
}

impl Eq for AstNode {}

/// A node hashes as its recorded hash, so that equal nodes hash alike.
impl std::hash::Hash for AstNode {
    /// Hands the recorded hash to `Hasher::write_u64`; no contract is claimed of the hasher.
    #[verifier::external_body]
    fn hash<H: std::hash::Hasher>(&self, state: &mut H) {
        state.write_u64(self.hash)
    }
}

/// Another handle on the same node: `Arc::clone`, which the contract takes
/// to give a handle equal to the one it is given.
#[verifier::external_body]
pub(crate) fn share(a: &AstRef) -> (r: AstRef)
    ensures
        r == *a,
{
    Arc::clone(a)
}

impl AstNode {
    /// The variables and the depth recorded in the node agree with the operation.
    #[verifier::type_invariant]
    pub closed spec fn well_formed(self) -> bool {
        &&& strings_distinct(self.variables@)
        &&& strings_as_set(self.variables@) == op_variables(self.op)
        &&& self.depth as nat == op_depth(self.op)
        &&& operands_have_depth(self.op)
    }

    /// The operation.
    pub closed spec fn spec_op(&self) -> AstOp {
        self.op
    }

    /// The context that made the node.
    pub closed spec fn spec_context(&self) -> &'static Context {
        self.ctx
    }

    /// The hash recorded in the node.
    pub closed spec fn spec_hash(&self) -> u64 {
        self.hash
    }

    /// The names of the symbols that occur in the expression.
    pub closed spec fn spec_variables(&self) -> Set<Seq<char>> {
        strings_as_set(self.variables@)
    }

    /// The depth recorded in the node.
    pub closed spec fn spec_depth(&self) -> nat {
        self.depth as nat
    }

    /// The sort of value that the expression denotes.
    pub closed spec fn spec_kind(&self) -> AstKind
        decreases self, 1nat,
    {
        kind_of_op(self.op)
    }

    /// The annotations attached to the expression, outermost first.
    pub closed spec fn spec_annotations(&self) -> Seq<AnnotationView>
        decreases self, 1nat,
    {
        annotations_of_op(self.op)
    }

    /// The width in bits of a bit-vector expression (see `width_of_op`).
    pub closed spec fn spec_width(&self) -> int
        decreases self, 1nat,
    {
        width_of_op(self.op)
    }

    /// The sort of a node is that of its operation.
    pub proof fn lemma_kind(&self)
        ensures
            self.spec_kind() == kind_of_op(self.spec_op()),
    {
    }

    /// The width of a node is that of its operation.
    pub proof fn lemma_width(&self)
        ensures
            self.spec_width() == width_of_op(self.spec_op()),
    {
    }

    /// What the invariant says of a node, in terms of its operation.
    pub proof fn lemma_well_formed(&self)
        requires
            self.well_formed(),
        ensures
            self.spec_variables() == op_variables(self.spec_op()),
            self.spec_depth() == op_depth(self.spec_op()),
            operands_have_depth(self.spec_op()),
    {
    }

    /// A node for `op`, made by `ctx`, that records `hash` as it is given; its
    /// variables and depth are computed from `op`.
    pub(crate) fn new(ctx: &'static Context, op: AstOp, hash: u64) -> (r: AstNode)
        requires
            children_max_depth(op_children(op)) < u32::MAX,
        ensures
            r.spec_op() == op,
            r.spec_context() == ctx,
            r.spec_hash() == hash,
            r.spec_variables() == op_variables(op),
            r.spec_depth() == op_depth(op),
            r.spec_kind() == kind_of_op(op),
            r.spec_annotations() == annotations_of_op(op),
            r.spec_width() == width_of_op(op),
    {
        let variables = op.variables();
        let depth = op.depth();
        AstNode { op, ctx, hash, variables, depth }
    }

    /// The operation.
    pub fn op(&self) -> (r: &AstOp)
        ensures
            *r == self.spec_op(),
    {
        &self.op
    }

    /// The context that made the node.
    pub fn context(&self) -> (r: &'static Context)
        ensures
            r == self.spec_context(),
    {
        self.ctx
    }

    /// The hash recorded in the node.
    pub fn hash(&self) -> (r: u64)
        ensures
            r == self.spec_hash(),
    {
        self.hash
    }

    /// Whether some symbol occurs in the expression.
    pub fn symbolic(&self) -> (r: bool)
        ensures
            r == !self.spec_variables().is_empty(),
            r == !op_variables(self.spec_op()).is_empty(),
    {
        proof {
            use_type_invariant(self);
            if self.variables@.len() > 0 {
                assert(self.spec_variables().contains(self.variables@[0]@));
            } else {
                assert(self.spec_variables() =~= Set::<Seq<char>>::empty());
            }
        }
        !self.variables.is_empty()
    }

    /// The names of the symbols that occur in the expression, each once.
    pub fn variables(&self) -> (r: &Vec<String>)
        ensures
            strings_as_set(r@) == self.spec_variables(),
            self.spec_variables() == op_variables(self.spec_op()),
            strings_distinct(r@),
    {
        proof {
            use_type_invariant(self);
        }
        &self.variables
    }

    /// One more than the depth of the deepest operand; 1 for a leaf.
    pub fn depth(&self) -> (r: u32)
        ensures
            r as nat == self.spec_depth(),
            self.spec_depth() == op_depth(self.spec_op()),
            self.well_formed(),
    {
        proof {
            use_type_invariant(self);
        }
        self.depth
    }

    /// The sort of value that the expression denotes.
    pub fn kind(&self) -> (r: AstKind)
        ensures
            r == self.spec_kind(),
        decreases self, 1nat,
    {
        self.op.kind()
    }

    /// The annotations attached to the expression, outermost first.
    pub fn get_annotations(&self) -> (r: Vec<Annotation>)
        ensures
            r@.map_values(|a: Annotation| a@) == self.spec_annotations(),
        decreases self, 1nat,
    {
        self.op.get_annotations()
    }

    /// The operands, each as an expression of its sort.
    pub fn child_iter(&self) -> (r: Vec<VarAst>)
        ensures
            r@.len() == op_children(self.spec_op()).len(),
            forall|i: int| 0 <= i < r@.len() ==> r@[i].spec_node() == op_children(self.spec_op())[i],
            forall|i: int| 0 <= i < r@.len() ==> tagged_by_kind(#[trigger] r@[i]),
    {
        let cs = self.op.child_iter();
        let n = cs.len();
        let mut out: Vec<VarAst> = Vec::new();
        let mut i: usize = 0;
        while i < n
            invariant
                i <= n,
                n == cs@.len(),
                n == op_children(self.spec_op()).len(),
                forall|k: int| 0 <= k < cs@.len() ==> *cs@[k] == op_children(self.spec_op())[k],
                out@.len() == i,
                forall|k: int| 0 <= k < i ==> out@[k].spec_node() == op_children(self.spec_op())[k],
                forall|k: int| 0 <= k < i ==> tagged_by_kind(#[trigger] out@[k]),
            decreases n - i,
        {
            out.push(VarAst::from_node(cs[i]));
            i += 1;
        }
        out
    }

    /// Whether the expression is the constant `true`.
    pub fn is_true(&self) -> (r: bool)
        ensures
            r == op_is_true(self.spec_op()),
    {
        self.op.is_true()
    }

    /// Whether the expression is the constant `false`.
    pub fn is_false(&self) -> (r: bool)
        ensures
            r == op_is_false(self.spec_op()),
    {
        self.op.is_false()
    }
}

/// The tag of `v` is the sort of its node.
pub open spec fn tagged_by_kind(v: VarAst) -> bool {
    &&& (v is Boolean <==> v.spec_node().spec_kind() == AstKind::Bool)
    &&& (v is BitVec <==> v.spec_node().spec_kind() == AstKind::BitVec)
    &&& (v is Float <==> v.spec_node().spec_kind() == AstKind::Float)
    &&& (v is String <==> v.spec_node().spec_kind() == AstKind::String)
}

/// An expression of any sort, tagged with its sort.
#[derive(Clone, Eq, PartialEq, Hash, Debug)]
pub enum VarAst {
    Boolean(BoolAst),
    BitVec(BitVecAst),
    Float(FloatAst),
    String(StringAst),
}

impl VarAst {
    /// The node.
    pub open spec fn spec_node(self) -> AstRef {
        match self {
            VarAst::Boolean(a) => a.spec_node(),
            VarAst::BitVec(a) => a.spec_node(),
            VarAst::Float(a) => a.spec_node(),
            VarAst::String(a) => a.spec_node(),
        }
    }

    /// The node, tagged with its sort.
    pub fn from_node(node: &AstRef) -> (r: VarAst)
        ensures
            r.spec_node() == *node,
            tagged_by_kind(r),
            r is Boolean <==> node.spec_kind() == AstKind::Bool,
            r is BitVec <==> node.spec_kind() == AstKind::BitVec,
            r is Float <==> node.spec_kind() == AstKind::Float,
            r is String <==> node.spec_kind() == AstKind::String,
    {
        match node.kind() {
            AstKind::Bool => VarAst::Boolean(BoolAst::from_node(node).unwrap()),
            AstKind::BitVec => VarAst::BitVec(BitVecAst::from_node(node).unwrap()),
            AstKind::Float => VarAst::Float(FloatAst::from_node(node).unwrap()),
            AstKind::String => VarAst::String(StringAst::from_node(node).unwrap()),
        }
    }

    /// The node.
    fn node(&self) -> (r: &AstRef)
        ensures
            *r == self.spec_node(),
    {
        match self {
            VarAst::Boolean(ast) => ast.node(),
            VarAst::BitVec(ast) => ast.node(),
            VarAst::Float(ast) => ast.node(),
            VarAst::String(ast) => ast.node(),
        }
    }

    /// The operands of the expression, each tagged with its sort.
    pub fn child_iter(&self) -> (r: Vec<VarAst>)
        ensures
            r@.len() == op_children(self.spec_node().spec_op()).len(),
            forall|i: int| 0 <= i < r@.len() ==> r@[i].spec_node() == op_children(self.spec_node().spec_op())[i],
            forall|i: int| 0 <= i < r@.len() ==> tagged_by_kind(#[trigger] r@[i]),
    {
        match self {
            VarAst::Boolean(ast) => ast.node().child_iter(),
            VarAst::BitVec(ast) => ast.node().child_iter(),
            VarAst::Float(ast) => ast.node().child_iter(),
            VarAst::String(ast) => ast.node().child_iter(),
        }
    }

    /// The depth of the expression.
    pub fn depth(&self) -> (r: u32)
        ensures
            r as nat == self.spec_node().spec_depth(),
            r as nat == op_depth(self.spec_node().spec_op()),
    {
        match self {
            VarAst::Boolean(ast) => ast.node().depth(),
            VarAst::BitVec(ast) => ast.node().depth(),
            VarAst::Float(ast) => ast.node().depth(),
            VarAst::String(ast) => ast.node().depth(),
        }
    }

    /// Whether the expression is the boolean constant `true`.
    pub fn is_true(&self) -> (r: bool)
        ensures
            r == (self is Boolean && op_is_true(self.spec_node().spec_op())),
    {
        match self {
            VarAst::Boolean(ast) => ast.node().is_true(),
            _ => false,
        }
    }

    /// Whether the expression is the boolean constant `false`.
    pub fn is_false(&self) -> (r: bool)
        ensures
            r == (self is Boolean && op_is_false(self.spec_node().spec_op())),
    {
        match self {
            VarAst::Boolean(ast) => ast.node().is_false(),
            _ => false,
        }
    }

    /// The names of the symbols that occur in the expression, each once.
    pub fn variables(&self) -> (r: Vec<String>)
        ensures
            strings_as_set(r@) == self.spec_node().spec_variables(),
            strings_as_set(r@) == op_variables(self.spec_node().spec_op()),
            strings_distinct(r@),
    {
        let vs = match self {
            VarAst::Boolean(ast) => ast.node().variables(),
            VarAst::BitVec(ast) => ast.node().variables(),
            VarAst::Float(ast) => ast.node().variables(),
            VarAst::String(ast) => ast.node().variables(),
        };
        copy_strings(vs)
    }

    /// The annotations attached to the expression, outermost first.
    pub fn get_annotations(&self) -> (r: Vec<Annotation>)
        ensures
            r@.map_values(|a: Annotation| a@) == self.spec_node().spec_annotations(),
    {
        match self {
            VarAst::Boolean(ast) => ast.node().get_annotations(),
            VarAst::BitVec(ast) => ast.node().get_annotations(),
            VarAst::Float(ast) => ast.node().get_annotations(),
            VarAst::String(ast) => ast.node().get_annotations(),
        }
    }
}

impl<'a> From<&'a BoolAst> for VarAst {
    fn from(ast: &'a BoolAst) -> (r: VarAst) {
        VarAst::Boolean(ast.clone())
    }
}

impl<'a> vstd::std_specs::convert::FromSpecImpl<&'a BoolAst> for VarAst {
    open spec fn obeys_from_spec() -> bool {
        true
    }

    open spec fn from_spec(ast: &'a BoolAst) -> VarAst {
        VarAst::Boolean(*ast)
    }
}

impl<'a> From<&'a BitVecAst> for VarAst {
    fn from(ast: &'a BitVecAst) -> (r: VarAst) {
        VarAst::BitVec(ast.clone())
    }
}

impl<'a> vstd::std_specs::convert::FromSpecImpl<&'a BitVecAst> for VarAst {
    open spec fn obeys_from_spec() -> bool {
        true
    }

    open spec fn from_spec(ast: &'a BitVecAst) -> VarAst {
        VarAst::BitVec(*ast)
    }
}

impl<'a> From<&'a FloatAst> for VarAst {
    fn from(ast: &'a FloatAst) -> (r: VarAst) {
        VarAst::Float(ast.clone())
    }
}

impl<'a> vstd::std_specs::convert::FromSpecImpl<&'a FloatAst> for VarAst {
    open spec fn obeys_from_spec() -> bool {
        true
    }

    open spec fn from_spec(ast: &'a FloatAst) -> VarAst {
        VarAst::Float(*ast)
    }
}

impl<'a> From<&'a StringAst> for VarAst {
    fn from(ast: &'a StringAst) -> (r: VarAst) {
        VarAst::String(ast.clone())
    }
}

impl<'a> vstd::std_specs::convert::FromSpecImpl<&'a StringAst> for VarAst {
    open spec fn obeys_from_spec() -> bool {
        true
    }

    open spec fn from_spec(ast: &'a StringAst) -> VarAst {
        VarAst::String(*ast)
    }
}

/// A copy of a list of strings.
fn copy_strings(v: &Vec<String>) -> (r: Vec<String>)
    ensures
        r@.len() == v@.len(),
        forall|i: int| 0 <= i < v@.len() ==> r@[i]@ == v@[i]@,
        strings_as_set(r@) == strings_as_set(v@),
        strings_distinct(r@) == strings_distinct(v@),
{
    let n = v.len();
    let mut out: Vec<String> = Vec::new();
    let mut i: usize = 0;
    while i < n
        invariant
            i <= n,
            n == v@.len(),
            out@.len() == i,
            forall|k: int| 0 <= k < i ==> out@[k]@ == v@[k]@,
        decreases n - i,
    {
        out.push(v[i].clone());
        i += 1;
    }
    proof {
        assert(strings_as_set(out@) =~= strings_as_set(v@)) by {
            assert forall|x: Seq<char>| strings_as_set(out@).contains(x) implies strings_as_set(v@).contains(x) by {
                let k = choose|k: int| 0 <= k < out@.len() && out@[k]@ == x;
                assert(v@[k]@ == x);
            }
            assert forall|x: Seq<char>| strings_as_set(v@).contains(x) implies strings_as_set(out@).contains(x) by {
                let k = choose|k: int| 0 <= k < v@.len() && v@[k]@ == x;
                assert(out@[k]@ == x);
            }
        }
    }
    out
}

} // verus!
