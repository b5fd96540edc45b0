//! Properties that hold of every expression.

use vstd::prelude::*;
use crate::ast::hash::op_hash_words;
use crate::ast::node::{AstNode, AstRef};
use crate::context::hashed;
use crate::ast::op::{
    children_variables, kind_of_op, lemma_children_max_depth_is_max, op_children, op_is_false,
    op_is_true, op_symbol, op_valid_args, AstKind, AstOp,
};

verus! {

/// A node is a leaf (depth 1) exactly when it has no operands.
pub proof fn lemma_leaf_iff_no_children(n: &AstNode)
    requires
        n.well_formed(),
    ensures
        n.spec_depth() == 1 <==> op_children(n.spec_op()).len() == 0,
{
    n.lemma_well_formed();
    let cs = op_children(n.spec_op());
    lemma_children_max_depth_is_max(cs);
    if cs.len() > 0 {
        assert(cs[0].spec_depth() >= 1);
    }
}

/// A node is deeper than each of its operands, and exactly one deeper than
/// the deepest of them.
pub proof fn lemma_depth_exceeds_operands(n: &AstNode)
    requires
        n.well_formed(),
    ensures
        forall|i: int| 0 <= i < op_children(n.spec_op()).len() ==> #[trigger] op_children(n.spec_op())[i].spec_depth()
            < n.spec_depth(),
        op_children(n.spec_op()).len() > 0 ==> exists|i: int| 0 <= i < op_children(n.spec_op()).len()
            && op_children(n.spec_op())[i].spec_depth() + 1 == n.spec_depth(),
{
    n.lemma_well_formed();
    lemma_children_max_depth_is_max(op_children(n.spec_op()));
}

proof fn lemma_children_variables_members(cs: Seq<AstRef>, x: Seq<char>)
    ensures
        children_variables(cs).contains(x) <==> exists|i: int| 0 <= i < cs.len() && cs[i].spec_variables().contains(x),
    decreases cs.len(),
{
    if cs.len() > 0 {
        let t = cs.drop_last();
        lemma_children_variables_members(t, x);
        if children_variables(cs).contains(x) {
            if children_variables(t).contains(x) {
                let i = choose|i: int| 0 <= i < t.len() && t[i].spec_variables().contains(x);
                assert(cs[i] == t[i]);
            } else {
                assert(cs[cs.len() - 1] == cs.last());
            }
        }
        if exists|i: int| 0 <= i < cs.len() && cs[i].spec_variables().contains(x) {
            let i = choose|i: int| 0 <= i < cs.len() && cs[i].spec_variables().contains(x);
            if i < t.len() {
                assert(t[i] == cs[i]);
            }
        }
    }
}

/// The variables of a node that is not a symbol are exactly those of its
/// operands taken together; a symbol's variables are its own name alone.
pub proof fn lemma_variables_of_operands(n: &AstNode, x: Seq<char>)
    requires
        n.well_formed(),
    ensures
        op_symbol(n.spec_op()) matches Some(name) ==> n.spec_variables() == set![name],
        op_symbol(n.spec_op()) is None ==> (n.spec_variables().contains(x) <==> exists|i: int|
            0 <= i < op_children(n.spec_op()).len() && op_children(n.spec_op())[i].spec_variables().contains(x)),
{
    n.lemma_well_formed();
    lemma_children_variables_members(op_children(n.spec_op()), x);
}

/// A node is symbolic exactly when it is a symbol or one of its operands is symbolic.
pub proof fn lemma_symbolic_iff(n: &AstNode)
    requires
        n.well_formed(),
    ensures
        !n.spec_variables().is_empty() <==> (op_symbol(n.spec_op()) is Some || exists|i: int|
            0 <= i < op_children(n.spec_op()).len() && !op_children(n.spec_op())[i].spec_variables().is_empty()),
{
    n.lemma_well_formed();
    let cs = op_children(n.spec_op());
    match op_symbol(n.spec_op()) {
        Some(name) => {
            assert(n.spec_variables().contains(name));
        },
        None => {
            if !n.spec_variables().is_empty() {
                let x = n.spec_variables().choose();
                lemma_variables_of_operands(n, x);
                let i = choose|i: int| 0 <= i < cs.len() && cs[i].spec_variables().contains(x);
                assert(!cs[i].spec_variables().is_empty());
            }
            if exists|i: int| 0 <= i < cs.len() && !cs[i].spec_variables().is_empty() {
                let i = choose|i: int| 0 <= i < cs.len() && !cs[i].spec_variables().is_empty();
                let x = cs[i].spec_variables().choose();
                lemma_variables_of_operands(n, x);
                assert(n.spec_variables().contains(x));
            }
        },
    }
}

/// A valid `And`, `Or` or `Xor` has the sort of its operands, which is boolean or bit-vector.
pub proof fn lemma_bitwise_sort(op: AstOp)
    requires
        op is And || op is Or || op is Xor,
        op_valid_args(op),
    ensures
        kind_of_op(op) == op_children(op)[0].spec_kind(),
        kind_of_op(op) == op_children(op)[1].spec_kind(),
        kind_of_op(op) == AstKind::Bool || kind_of_op(op) == AstKind::BitVec,
{
}

/// A valid comparison of bit-vectors is boolean.
pub proof fn lemma_comparison_sort(op: AstOp)
    requires
        op is Eq || op is Neq || op is ULT || op is ULE || op is UGT || op is UGE || op is SLT || op is SLE
            || op is SGT || op is SGE,
        op_valid_args(op),
    ensures
        kind_of_op(op) == AstKind::Bool,
        op_children(op)[0].spec_kind() == AstKind::BitVec,
        op_children(op)[1].spec_kind() == AstKind::BitVec,
{
}

/// Nodes that a context made are equal (they compare by hash) when they hold
/// the same operation, and more generally when their operations have the same
/// name, the same parameters and operands with the same hashes.
pub proof fn lemma_same_words_equal_nodes(a: AstRef, b: AstRef)
    requires
        hashed(a),
        hashed(b),
        op_hash_words(a.spec_op()) == op_hash_words(b.spec_op()),
    ensures
        a.spec_hash() == b.spec_hash(),
{
}

/// Nodes that a context made and that hold the same operation have the same
/// hash, variables, depth, sort and width.
pub proof fn lemma_same_op_equal_nodes(a: AstRef, b: AstRef)
    requires
        a.well_formed(),
        b.well_formed(),
        hashed(a),
        hashed(b),
        a.spec_op() == b.spec_op(),
    ensures
        a.spec_hash() == b.spec_hash(),
        a.spec_variables() == b.spec_variables(),
        a.spec_depth() == b.spec_depth(),
        a.spec_kind() == b.spec_kind(),
        a.spec_width() == b.spec_width(),
{
    a.lemma_well_formed();
    b.lemma_well_formed();
    a.lemma_kind();
    b.lemma_kind();
    a.lemma_width();
    b.lemma_width();
}

/// No expression is both the constant `true` and the constant `false`.
pub proof fn lemma_true_false_exclusive(op: AstOp)
    ensures
        !(op_is_true(op) && op_is_false(op)),
{
}

} // verus!
