//! Laws that say, operation by operation, what each operation holds as its
//! operands, the sort it yields, the sorts it takes, its variables and depth,
//! and that its hashed words keep every parameter and operand hash.

use vstd::prelude::*;
use vstd::utf8::{encode_utf8, encode_utf8_decode_utf8};
use crate::ast::hash::{bitvec_words, bool_word, bytes_words, child_hashes, op_hash_words, op_param_words, sort_words, str_words};
use crate::ast::name::op_name;
use crate::ast::node::AstRef;
use crate::ast::op::{
    annotations_of_op, op_is_false, op_is_true, children_max_depth, children_variables, kind_of_op, op_children, op_depth, op_valid_args,
    op_variables, valid_args_defined, AstKind, AstOp,
};
use crate::bitvec::BitVec;
use crate::values::{rounding_mode_code, Annotation, AnnotationView, FSort, Float, FPRM};

verus! {

/// The greater of two depths.
pub open spec fn deeper(x: nat, y: nat) -> nat {
    if x >= y {
        x
    } else {
        y
    }
}

/// Every operation lists as its operands exactly the expressions it holds,
/// in the order in which it holds them: a condition before its branches, a
/// left operand before a right one. `StrIndexOf` lists its string and its
/// substring, not its offset; symbols and constants list none.
pub proof fn lemma_operands_in_order(a: AstRef, b: AstRef, c: AstRef, n: u32, m: u32, sort: FSort, rm: FPRM, ann: Annotation, name: String, flag: bool, bv: BitVec, f: Float)
    ensures
        op_children(AstOp::BoolS(name)) == Seq::<AstRef>::empty(),
        op_children(AstOp::BoolV(flag)) == Seq::<AstRef>::empty(),
        op_children(AstOp::BVS(name, n)) == Seq::<AstRef>::empty(),
        op_children(AstOp::BVV(bv)) == Seq::<AstRef>::empty(),
        op_children(AstOp::FPS(name, sort)) == Seq::<AstRef>::empty(),
        op_children(AstOp::FPV(f)) == Seq::<AstRef>::empty(),
        op_children(AstOp::StringS(name, n)) == Seq::<AstRef>::empty(),
        op_children(AstOp::StringV(name)) == Seq::<AstRef>::empty(),
        op_children(AstOp::Not(a)) == seq![a],
        op_children(AstOp::And(a, b)) == seq![a, b],
        op_children(AstOp::Or(a, b)) == seq![a, b],
        op_children(AstOp::Xor(a, b)) == seq![a, b],
        op_children(AstOp::Add(a, b)) == seq![a, b],
        op_children(AstOp::Sub(a, b)) == seq![a, b],
        op_children(AstOp::Mul(a, b)) == seq![a, b],
        op_children(AstOp::UDiv(a, b)) == seq![a, b],
        op_children(AstOp::SDiv(a, b)) == seq![a, b],
        op_children(AstOp::URem(a, b)) == seq![a, b],
        op_children(AstOp::SRem(a, b)) == seq![a, b],
        op_children(AstOp::Pow(a, b)) == seq![a, b],
        op_children(AstOp::LShL(a, b)) == seq![a, b],
        op_children(AstOp::LShR(a, b)) == seq![a, b],
        op_children(AstOp::AShL(a, b)) == seq![a, b],
        op_children(AstOp::AShR(a, b)) == seq![a, b],
        op_children(AstOp::RotateLeft(a, b)) == seq![a, b],
        op_children(AstOp::RotateRight(a, b)) == seq![a, b],
        op_children(AstOp::Concat(a, b)) == seq![a, b],
        op_children(AstOp::ZeroExt(a, n)) == seq![a],
        op_children(AstOp::SignExt(a, n)) == seq![a],
        op_children(AstOp::Extract(a, n, m)) == seq![a],
        op_children(AstOp::Reverse(a)) == seq![a],
        op_children(AstOp::Eq(a, b)) == seq![a, b],
        op_children(AstOp::Neq(a, b)) == seq![a, b],
        op_children(AstOp::ULT(a, b)) == seq![a, b],
        op_children(AstOp::ULE(a, b)) == seq![a, b],
        op_children(AstOp::UGT(a, b)) == seq![a, b],
        op_children(AstOp::UGE(a, b)) == seq![a, b],
        op_children(AstOp::SLT(a, b)) == seq![a, b],
        op_children(AstOp::SLE(a, b)) == seq![a, b],
        op_children(AstOp::SGT(a, b)) == seq![a, b],
        op_children(AstOp::SGE(a, b)) == seq![a, b],
        op_children(AstOp::FpToFp(a, sort, rm)) == seq![a],
        op_children(AstOp::BvToFpUnsigned(a, sort, rm)) == seq![a],
        op_children(AstOp::FpToIEEEBV(a)) == seq![a],
        op_children(AstOp::FpToUBV(a, n, rm)) == seq![a],
        op_children(AstOp::FpToSBV(a, n, rm)) == seq![a],
        op_children(AstOp::FpNeg(a, rm)) == seq![a],
        op_children(AstOp::FpAbs(a, rm)) == seq![a],
        op_children(AstOp::FpSqrt(a, rm)) == seq![a],
        op_children(AstOp::FpAdd(a, b, rm)) == seq![a, b],
        op_children(AstOp::FpSub(a, b, rm)) == seq![a, b],
        op_children(AstOp::FpMul(a, b, rm)) == seq![a, b],
        op_children(AstOp::FpDiv(a, b, rm)) == seq![a, b],
        op_children(AstOp::FpEq(a, b)) == seq![a, b],
        op_children(AstOp::FpNeq(a, b)) == seq![a, b],
        op_children(AstOp::FpLt(a, b)) == seq![a, b],
        op_children(AstOp::FpLeq(a, b)) == seq![a, b],
        op_children(AstOp::FpGt(a, b)) == seq![a, b],
        op_children(AstOp::FpGeq(a, b)) == seq![a, b],
        op_children(AstOp::FpIsNan(a)) == seq![a],
        op_children(AstOp::FpIsInf(a)) == seq![a],
        op_children(AstOp::StrLen(a)) == seq![a],
        op_children(AstOp::StrConcat(a, b)) == seq![a, b],
        op_children(AstOp::StrSubstr(a, b, c)) == seq![a, b, c],
        op_children(AstOp::StrContains(a, b)) == seq![a, b],
        op_children(AstOp::StrIndexOf(a, b, c)) == seq![a, b],
        op_children(AstOp::StrReplace(a, b, c)) == seq![a, b, c],
        op_children(AstOp::StrPrefixOf(a, b)) == seq![a, b],
        op_children(AstOp::StrSuffixOf(a, b)) == seq![a, b],
        op_children(AstOp::StrToBV(a)) == seq![a],
        op_children(AstOp::BVToStr(a)) == seq![a],
        op_children(AstOp::StrIsDigit(a)) == seq![a],
        op_children(AstOp::StrEq(a, b)) == seq![a, b],
        op_children(AstOp::StrNeq(a, b)) == seq![a, b],
        op_children(AstOp::If(a, b, c)) == seq![a, b, c],
        op_children(AstOp::Annotated(a, ann)) == seq![a],
{
}

proof fn lemma_one_operand(a: AstRef)
    ensures
        children_variables(seq![a]) == a.spec_variables(),
        children_max_depth(seq![a]) == a.spec_depth(),
{
    assert(seq![a].drop_last() =~= Seq::<AstRef>::empty());
    assert(seq![a].last() == a);
    assert(children_variables(Seq::<AstRef>::empty()) == Set::<Seq<char>>::empty());
    assert(children_max_depth(Seq::<AstRef>::empty()) == 0);
    assert(Set::<Seq<char>>::empty().union(a.spec_variables()) =~= a.spec_variables());
}

proof fn lemma_two_operands(a: AstRef, b: AstRef)
    ensures
        children_variables(seq![a, b]) == a.spec_variables().union(b.spec_variables()),
        children_max_depth(seq![a, b]) == deeper(a.spec_depth(), b.spec_depth()),
{
    lemma_one_operand(a);
    assert(seq![a, b].drop_last() =~= seq![a]);
    assert(seq![a, b].last() == b);
}

proof fn lemma_three_operands(a: AstRef, b: AstRef, c: AstRef)
    ensures
        children_variables(seq![a, b, c]) == a.spec_variables().union(b.spec_variables()).union(
            c.spec_variables(),
        ),
        children_max_depth(seq![a, b, c]) == deeper(deeper(a.spec_depth(), b.spec_depth()), c.spec_depth()),
{
    lemma_two_operands(a, b);
    assert(seq![a, b, c].drop_last() =~= seq![a, b]);
    assert(seq![a, b, c].last() == c);
}

/// The variables of an operation are those of all its operands together (a
/// symbol's are its own name, a constant has none), and its depth is one more
/// than that of its deepest operand (a symbol or constant has depth 1).
pub proof fn lemma_variables_and_depth(a: AstRef, b: AstRef, c: AstRef, n: u32, m: u32, sort: FSort, rm: FPRM, ann: Annotation, name: String, flag: bool, bv: BitVec, f: Float)
    ensures
        op_variables(AstOp::BoolS(name)) == set![name@],
        op_depth(AstOp::BoolS(name)) == 1,
        op_variables(AstOp::BoolV(flag)) == Set::<Seq<char>>::empty(),
        op_depth(AstOp::BoolV(flag)) == 1,
        op_variables(AstOp::BVS(name, n)) == set![name@],
        op_depth(AstOp::BVS(name, n)) == 1,
        op_variables(AstOp::BVV(bv)) == Set::<Seq<char>>::empty(),
        op_depth(AstOp::BVV(bv)) == 1,
        op_variables(AstOp::FPS(name, sort)) == set![name@],
        op_depth(AstOp::FPS(name, sort)) == 1,
        op_variables(AstOp::FPV(f)) == Set::<Seq<char>>::empty(),
        op_depth(AstOp::FPV(f)) == 1,
        op_variables(AstOp::StringS(name, n)) == set![name@],
        op_depth(AstOp::StringS(name, n)) == 1,
        op_variables(AstOp::StringV(name)) == Set::<Seq<char>>::empty(),
        op_depth(AstOp::StringV(name)) == 1,
        op_variables(AstOp::Not(a)) == a.spec_variables(),
        op_depth(AstOp::Not(a)) == a.spec_depth() + 1,
        op_variables(AstOp::And(a, b)) == a.spec_variables().union(b.spec_variables()),
        op_depth(AstOp::And(a, b)) == 1 + deeper(a.spec_depth(), b.spec_depth()),
        op_variables(AstOp::Or(a, b)) == a.spec_variables().union(b.spec_variables()),
        op_depth(AstOp::Or(a, b)) == 1 + deeper(a.spec_depth(), b.spec_depth()),
        op_variables(AstOp::Xor(a, b)) == a.spec_variables().union(b.spec_variables()),
        op_depth(AstOp::Xor(a, b)) == 1 + deeper(a.spec_depth(), b.spec_depth()),
        op_variables(AstOp::Add(a, b)) == a.spec_variables().union(b.spec_variables()),
        op_depth(AstOp::Add(a, b)) == 1 + deeper(a.spec_depth(), b.spec_depth()),
        op_variables(AstOp::Sub(a, b)) == a.spec_variables().union(b.spec_variables()),
        op_depth(AstOp::Sub(a, b)) == 1 + deeper(a.spec_depth(), b.spec_depth()),
        op_variables(AstOp::Mul(a, b)) == a.spec_variables().union(b.spec_variables()),
        op_depth(AstOp::Mul(a, b)) == 1 + deeper(a.spec_depth(), b.spec_depth()),
        op_variables(AstOp::UDiv(a, b)) == a.spec_variables().union(b.spec_variables()),
        op_depth(AstOp::UDiv(a, b)) == 1 + deeper(a.spec_depth(), b.spec_depth()),
        op_variables(AstOp::SDiv(a, b)) == a.spec_variables().union(b.spec_variables()),
        op_depth(AstOp::SDiv(a, b)) == 1 + deeper(a.spec_depth(), b.spec_depth()),
        op_variables(AstOp::URem(a, b)) == a.spec_variables().union(b.spec_variables()),
        op_depth(AstOp::URem(a, b)) == 1 + deeper(a.spec_depth(), b.spec_depth()),
        op_variables(AstOp::SRem(a, b)) == a.spec_variables().union(b.spec_variables()),
        op_depth(AstOp::SRem(a, b)) == 1 + deeper(a.spec_depth(), b.spec_depth()),
        op_variables(AstOp::Pow(a, b)) == a.spec_variables().union(b.spec_variables()),
        op_depth(AstOp::Pow(a, b)) == 1 + deeper(a.spec_depth(), b.spec_depth()),
        op_variables(AstOp::LShL(a, b)) == a.spec_variables().union(b.spec_variables()),
        op_depth(AstOp::LShL(a, b)) == 1 + deeper(a.spec_depth(), b.spec_depth()),
        op_variables(AstOp::LShR(a, b)) == a.spec_variables().union(b.spec_variables()),
        op_depth(AstOp::LShR(a, b)) == 1 + deeper(a.spec_depth(), b.spec_depth()),
        op_variables(AstOp::AShL(a, b)) == a.spec_variables().union(b.spec_variables()),
        op_depth(AstOp::AShL(a, b)) == 1 + deeper(a.spec_depth(), b.spec_depth()),
        op_variables(AstOp::AShR(a, b)) == a.spec_variables().union(b.spec_variables()),
        op_depth(AstOp::AShR(a, b)) == 1 + deeper(a.spec_depth(), b.spec_depth()),
        op_variables(AstOp::RotateLeft(a, b)) == a.spec_variables().union(b.spec_variables()),
        op_depth(AstOp::RotateLeft(a, b)) == 1 + deeper(a.spec_depth(), b.spec_depth()),
        op_variables(AstOp::RotateRight(a, b)) == a.spec_variables().union(b.spec_variables()),
        op_depth(AstOp::RotateRight(a, b)) == 1 + deeper(a.spec_depth(), b.spec_depth()),
        op_variables(AstOp::Concat(a, b)) == a.spec_variables().union(b.spec_variables()),
        op_depth(AstOp::Concat(a, b)) == 1 + deeper(a.spec_depth(), b.spec_depth()),
        op_variables(AstOp::ZeroExt(a, n)) == a.spec_variables(),
        op_depth(AstOp::ZeroExt(a, n)) == a.spec_depth() + 1,
        op_variables(AstOp::SignExt(a, n)) == a.spec_variables(),
        op_depth(AstOp::SignExt(a, n)) == a.spec_depth() + 1,
        op_variables(AstOp::Extract(a, n, m)) == a.spec_variables(),
        op_depth(AstOp::Extract(a, n, m)) == a.spec_depth() + 1,
        op_variables(AstOp::Reverse(a)) == a.spec_variables(),
        op_depth(AstOp::Reverse(a)) == a.spec_depth() + 1,
        op_variables(AstOp::Eq(a, b)) == a.spec_variables().union(b.spec_variables()),
        op_depth(AstOp::Eq(a, b)) == 1 + deeper(a.spec_depth(), b.spec_depth()),
        op_variables(AstOp::Neq(a, b)) == a.spec_variables().union(b.spec_variables()),
        op_depth(AstOp::Neq(a, b)) == 1 + deeper(a.spec_depth(), b.spec_depth()),
        op_variables(AstOp::ULT(a, b)) == a.spec_variables().union(b.spec_variables()),
        op_depth(AstOp::ULT(a, b)) == 1 + deeper(a.spec_depth(), b.spec_depth()),
        op_variables(AstOp::ULE(a, b)) == a.spec_variables().union(b.spec_variables()),
        op_depth(AstOp::ULE(a, b)) == 1 + deeper(a.spec_depth(), b.spec_depth()),
        op_variables(AstOp::UGT(a, b)) == a.spec_variables().union(b.spec_variables()),
        op_depth(AstOp::UGT(a, b)) == 1 + deeper(a.spec_depth(), b.spec_depth()),
        op_variables(AstOp::UGE(a, b)) == a.spec_variables().union(b.spec_variables()),
        op_depth(AstOp::UGE(a, b)) == 1 + deeper(a.spec_depth(), b.spec_depth()),
        op_variables(AstOp::SLT(a, b)) == a.spec_variables().union(b.spec_variables()),
        op_depth(AstOp::SLT(a, b)) == 1 + deeper(a.spec_depth(), b.spec_depth()),
        op_variables(AstOp::SLE(a, b)) == a.spec_variables().union(b.spec_variables()),
        op_depth(AstOp::SLE(a, b)) == 1 + deeper(a.spec_depth(), b.spec_depth()),
        op_variables(AstOp::SGT(a, b)) == a.spec_variables().union(b.spec_variables()),
        op_depth(AstOp::SGT(a, b)) == 1 + deeper(a.spec_depth(), b.spec_depth()),
        op_variables(AstOp::SGE(a, b)) == a.spec_variables().union(b.spec_variables()),
        op_depth(AstOp::SGE(a, b)) == 1 + deeper(a.spec_depth(), b.spec_depth()),
        op_variables(AstOp::FpToFp(a, sort, rm)) == a.spec_variables(),
        op_depth(AstOp::FpToFp(a, sort, rm)) == a.spec_depth() + 1,
        op_variables(AstOp::BvToFpUnsigned(a, sort, rm)) == a.spec_variables(),
        op_depth(AstOp::BvToFpUnsigned(a, sort, rm)) == a.spec_depth() + 1,
        op_variables(AstOp::FpToIEEEBV(a)) == a.spec_variables(),
        op_depth(AstOp::FpToIEEEBV(a)) == a.spec_depth() + 1,
        op_variables(AstOp::FpToUBV(a, n, rm)) == a.spec_variables(),
        op_depth(AstOp::FpToUBV(a, n, rm)) == a.spec_depth() + 1,
        op_variables(AstOp::FpToSBV(a, n, rm)) == a.spec_variables(),
        op_depth(AstOp::FpToSBV(a, n, rm)) == a.spec_depth() + 1,
        op_variables(AstOp::FpNeg(a, rm)) == a.spec_variables(),
        op_depth(AstOp::FpNeg(a, rm)) == a.spec_depth() + 1,
        op_variables(AstOp::FpAbs(a, rm)) == a.spec_variables(),
        op_depth(AstOp::FpAbs(a, rm)) == a.spec_depth() + 1,
        op_variables(AstOp::FpSqrt(a, rm)) == a.spec_variables(),
        op_depth(AstOp::FpSqrt(a, rm)) == a.spec_depth() + 1,
        op_variables(AstOp::FpAdd(a, b, rm)) == a.spec_variables().union(b.spec_variables()),
        op_depth(AstOp::FpAdd(a, b, rm)) == 1 + deeper(a.spec_depth(), b.spec_depth()),
        op_variables(AstOp::FpSub(a, b, rm)) == a.spec_variables().union(b.spec_variables()),
        op_depth(AstOp::FpSub(a, b, rm)) == 1 + deeper(a.spec_depth(), b.spec_depth()),
        op_variables(AstOp::FpMul(a, b, rm)) == a.spec_variables().union(b.spec_variables()),
        op_depth(AstOp::FpMul(a, b, rm)) == 1 + deeper(a.spec_depth(), b.spec_depth()),
        op_variables(AstOp::FpDiv(a, b, rm)) == a.spec_variables().union(b.spec_variables()),
        op_depth(AstOp::FpDiv(a, b, rm)) == 1 + deeper(a.spec_depth(), b.spec_depth()),
        op_variables(AstOp::FpEq(a, b)) == a.spec_variables().union(b.spec_variables()),
        op_depth(AstOp::FpEq(a, b)) == 1 + deeper(a.spec_depth(), b.spec_depth()),
        op_variables(AstOp::FpNeq(a, b)) == a.spec_variables().union(b.spec_variables()),
        op_depth(AstOp::FpNeq(a, b)) == 1 + deeper(a.spec_depth(), b.spec_depth()),
        op_variables(AstOp::FpLt(a, b)) == a.spec_variables().union(b.spec_variables()),
        op_depth(AstOp::FpLt(a, b)) == 1 + deeper(a.spec_depth(), b.spec_depth()),
        op_variables(AstOp::FpLeq(a, b)) == a.spec_variables().union(b.spec_variables()),
        op_depth(AstOp::FpLeq(a, b)) == 1 + deeper(a.spec_depth(), b.spec_depth()),
        op_variables(AstOp::FpGt(a, b)) == a.spec_variables().union(b.spec_variables()),
        op_depth(AstOp::FpGt(a, b)) == 1 + deeper(a.spec_depth(), b.spec_depth()),
        op_variables(AstOp::FpGeq(a, b)) == a.spec_variables().union(b.spec_variables()),
        op_depth(AstOp::FpGeq(a, b)) == 1 + deeper(a.spec_depth(), b.spec_depth()),
        op_variables(AstOp::FpIsNan(a)) == a.spec_variables(),
        op_depth(AstOp::FpIsNan(a)) == a.spec_depth() + 1,
        op_variables(AstOp::FpIsInf(a)) == a.spec_variables(),
        op_depth(AstOp::FpIsInf(a)) == a.spec_depth() + 1,
        op_variables(AstOp::StrLen(a)) == a.spec_variables(),
        op_depth(AstOp::StrLen(a)) == a.spec_depth() + 1,
        op_variables(AstOp::StrConcat(a, b)) == a.spec_variables().union(b.spec_variables()),
        op_depth(AstOp::StrConcat(a, b)) == 1 + deeper(a.spec_depth(), b.spec_depth()),
        op_variables(AstOp::StrSubstr(a, b, c)) == a.spec_variables().union(b.spec_variables()).union(c.spec_variables()),
        op_depth(AstOp::StrSubstr(a, b, c)) == 1 + deeper(deeper(a.spec_depth(), b.spec_depth()), c.spec_depth()),
        op_variables(AstOp::StrContains(a, b)) == a.spec_variables().union(b.spec_variables()),
        op_depth(AstOp::StrContains(a, b)) == 1 + deeper(a.spec_depth(), b.spec_depth()),
        op_variables(AstOp::StrIndexOf(a, b, c)) == a.spec_variables().union(b.spec_variables()),
        op_depth(AstOp::StrIndexOf(a, b, c)) == 1 + deeper(a.spec_depth(), b.spec_depth()),
        op_variables(AstOp::StrReplace(a, b, c)) == a.spec_variables().union(b.spec_variables()).union(c.spec_variables()),
        op_depth(AstOp::StrReplace(a, b, c)) == 1 + deeper(deeper(a.spec_depth(), b.spec_depth()), c.spec_depth()),
        op_variables(AstOp::StrPrefixOf(a, b)) == a.spec_variables().union(b.spec_variables()),
        op_depth(AstOp::StrPrefixOf(a, b)) == 1 + deeper(a.spec_depth(), b.spec_depth()),
        op_variables(AstOp::StrSuffixOf(a, b)) == a.spec_variables().union(b.spec_variables()),
        op_depth(AstOp::StrSuffixOf(a, b)) == 1 + deeper(a.spec_depth(), b.spec_depth()),
        op_variables(AstOp::StrToBV(a)) == a.spec_variables(),
        op_depth(AstOp::StrToBV(a)) == a.spec_depth() + 1,
        op_variables(AstOp::BVToStr(a)) == a.spec_variables(),
        op_depth(AstOp::BVToStr(a)) == a.spec_depth() + 1,
        op_variables(AstOp::StrIsDigit(a)) == a.spec_variables(),
        op_depth(AstOp::StrIsDigit(a)) == a.spec_depth() + 1,
        op_variables(AstOp::StrEq(a, b)) == a.spec_variables().union(b.spec_variables()),
        op_depth(AstOp::StrEq(a, b)) == 1 + deeper(a.spec_depth(), b.spec_depth()),
        op_variables(AstOp::StrNeq(a, b)) == a.spec_variables().union(b.spec_variables()),
        op_depth(AstOp::StrNeq(a, b)) == 1 + deeper(a.spec_depth(), b.spec_depth()),
        op_variables(AstOp::If(a, b, c)) == a.spec_variables().union(b.spec_variables()).union(c.spec_variables()),
        op_depth(AstOp::If(a, b, c)) == 1 + deeper(deeper(a.spec_depth(), b.spec_depth()), c.spec_depth()),
        op_variables(AstOp::Annotated(a, ann)) == a.spec_variables(),
        op_depth(AstOp::Annotated(a, ann)) == a.spec_depth() + 1,
{
    lemma_one_operand(a);
    lemma_two_operands(a, b);
    lemma_three_operands(a, b, c);
    assert(children_variables(Seq::<AstRef>::empty()) =~= Set::<Seq<char>>::empty());
}

/// The sort that each operation yields: symbols and constants their own;
/// bit-vector arithmetic, shifts, extensions, extraction, concatenation and
/// conversions to bit-vectors a bit-vector; comparisons, float tests and
/// string predicates a boolean; float arithmetic and conversions to floats a
/// float; string building a string; `Not`, `And`, `Or`, `Xor` and
/// `Annotated` the sort of their first operand, and `If` that of its `else`
/// branch.
pub proof fn lemma_sort_of_each_operation(a: AstRef, b: AstRef, c: AstRef, n: u32, m: u32, sort: FSort, rm: FPRM, ann: Annotation, name: String, flag: bool, bv: BitVec, f: Float)
    ensures
        kind_of_op(AstOp::BoolS(name)) == AstKind::Bool,
        kind_of_op(AstOp::BoolV(flag)) == AstKind::Bool,
        kind_of_op(AstOp::BVS(name, n)) == AstKind::BitVec,
        kind_of_op(AstOp::BVV(bv)) == AstKind::BitVec,
        kind_of_op(AstOp::FPS(name, sort)) == AstKind::Float,
        kind_of_op(AstOp::FPV(f)) == AstKind::Float,
        kind_of_op(AstOp::StringS(name, n)) == AstKind::String,
        kind_of_op(AstOp::StringV(name)) == AstKind::String,
        kind_of_op(AstOp::Not(a)) == a.spec_kind(),
        kind_of_op(AstOp::And(a, b)) == a.spec_kind(),
        kind_of_op(AstOp::Or(a, b)) == a.spec_kind(),
        kind_of_op(AstOp::Xor(a, b)) == a.spec_kind(),
        kind_of_op(AstOp::Add(a, b)) == AstKind::BitVec,
        kind_of_op(AstOp::Sub(a, b)) == AstKind::BitVec,
        kind_of_op(AstOp::Mul(a, b)) == AstKind::BitVec,
        kind_of_op(AstOp::UDiv(a, b)) == AstKind::BitVec,
        kind_of_op(AstOp::SDiv(a, b)) == AstKind::BitVec,
        kind_of_op(AstOp::URem(a, b)) == AstKind::BitVec,
        kind_of_op(AstOp::SRem(a, b)) == AstKind::BitVec,
        kind_of_op(AstOp::Pow(a, b)) == AstKind::BitVec,
        kind_of_op(AstOp::LShL(a, b)) == AstKind::BitVec,
        kind_of_op(AstOp::LShR(a, b)) == AstKind::BitVec,
        kind_of_op(AstOp::AShL(a, b)) == AstKind::BitVec,
        kind_of_op(AstOp::AShR(a, b)) == AstKind::BitVec,
        kind_of_op(AstOp::RotateLeft(a, b)) == AstKind::BitVec,
        kind_of_op(AstOp::RotateRight(a, b)) == AstKind::BitVec,
        kind_of_op(AstOp::Concat(a, b)) == AstKind::BitVec,
        kind_of_op(AstOp::ZeroExt(a, n)) == AstKind::BitVec,
        kind_of_op(AstOp::SignExt(a, n)) == AstKind::BitVec,
        kind_of_op(AstOp::Extract(a, n, m)) == AstKind::BitVec,
        kind_of_op(AstOp::Reverse(a)) == AstKind::BitVec,
        kind_of_op(AstOp::Eq(a, b)) == AstKind::Bool,
        kind_of_op(AstOp::Neq(a, b)) == AstKind::Bool,
        kind_of_op(AstOp::ULT(a, b)) == AstKind::Bool,
        kind_of_op(AstOp::ULE(a, b)) == AstKind::Bool,
        kind_of_op(AstOp::UGT(a, b)) == AstKind::Bool,
        kind_of_op(AstOp::UGE(a, b)) == AstKind::Bool,
        kind_of_op(AstOp::SLT(a, b)) == AstKind::Bool,
        kind_of_op(AstOp::SLE(a, b)) == AstKind::Bool,
        kind_of_op(AstOp::SGT(a, b)) == AstKind::Bool,
        kind_of_op(AstOp::SGE(a, b)) == AstKind::Bool,
        kind_of_op(AstOp::FpToFp(a, sort, rm)) == AstKind::Float,
        kind_of_op(AstOp::BvToFpUnsigned(a, sort, rm)) == AstKind::Float,
        kind_of_op(AstOp::FpToIEEEBV(a)) == AstKind::BitVec,
        kind_of_op(AstOp::FpToUBV(a, n, rm)) == AstKind::BitVec,
        kind_of_op(AstOp::FpToSBV(a, n, rm)) == AstKind::BitVec,
        kind_of_op(AstOp::FpNeg(a, rm)) == AstKind::Float,
        kind_of_op(AstOp::FpAbs(a, rm)) == AstKind::Float,
        kind_of_op(AstOp::FpSqrt(a, rm)) == AstKind::Float,
        kind_of_op(AstOp::FpAdd(a, b, rm)) == AstKind::Float,
        kind_of_op(AstOp::FpSub(a, b, rm)) == AstKind::Float,
        kind_of_op(AstOp::FpMul(a, b, rm)) == AstKind::Float,
        kind_of_op(AstOp::FpDiv(a, b, rm)) == AstKind::Float,
        kind_of_op(AstOp::FpEq(a, b)) == AstKind::Bool,
        kind_of_op(AstOp::FpNeq(a, b)) == AstKind::Bool,
        kind_of_op(AstOp::FpLt(a, b)) == AstKind::Bool,
        kind_of_op(AstOp::FpLeq(a, b)) == AstKind::Bool,
        kind_of_op(AstOp::FpGt(a, b)) == AstKind::Bool,
        kind_of_op(AstOp::FpGeq(a, b)) == AstKind::Bool,
        kind_of_op(AstOp::FpIsNan(a)) == AstKind::Bool,
        kind_of_op(AstOp::FpIsInf(a)) == AstKind::Bool,
        kind_of_op(AstOp::StrLen(a)) == AstKind::BitVec,
        kind_of_op(AstOp::StrConcat(a, b)) == AstKind::String,
        kind_of_op(AstOp::StrSubstr(a, b, c)) == AstKind::String,
        kind_of_op(AstOp::StrContains(a, b)) == AstKind::Bool,
        kind_of_op(AstOp::StrIndexOf(a, b, c)) == AstKind::BitVec,
        kind_of_op(AstOp::StrReplace(a, b, c)) == AstKind::String,
        kind_of_op(AstOp::StrPrefixOf(a, b)) == AstKind::Bool,
        kind_of_op(AstOp::StrSuffixOf(a, b)) == AstKind::Bool,
        kind_of_op(AstOp::StrToBV(a)) == AstKind::BitVec,
        kind_of_op(AstOp::BVToStr(a)) == AstKind::String,
        kind_of_op(AstOp::StrIsDigit(a)) == AstKind::Bool,
        kind_of_op(AstOp::StrEq(a, b)) == AstKind::Bool,
        kind_of_op(AstOp::StrNeq(a, b)) == AstKind::Bool,
        kind_of_op(AstOp::If(a, b, c)) == c.spec_kind(),
        kind_of_op(AstOp::Annotated(a, ann)) == a.spec_kind(),
{
}

/// The sorts that each operation takes: it is valid exactly when its
/// operands have those sorts (a symbol also needs a nonempty name, and a
/// conversion of a float to an unsigned bit-vector a nonzero width). `If` and
/// `Annotated` are not judged by this check.
pub proof fn lemma_valid_operand_sorts(a: AstRef, b: AstRef, c: AstRef, n: u32, m: u32, sort: FSort, rm: FPRM, ann: Annotation, name: String, flag: bool, bv: BitVec, f: Float)
    ensures
        op_valid_args(AstOp::BoolS(name)) <==> (name@.len() != 0),
        op_valid_args(AstOp::BoolV(flag)) <==> (true),
        op_valid_args(AstOp::BVS(name, n)) <==> (name@.len() != 0),
        op_valid_args(AstOp::BVV(bv)) <==> (true),
        op_valid_args(AstOp::FPS(name, sort)) <==> (name@.len() != 0),
        op_valid_args(AstOp::FPV(f)) <==> (true),
        op_valid_args(AstOp::StringS(name, n)) <==> (name@.len() != 0),
        op_valid_args(AstOp::StringV(name)) <==> (true),
        op_valid_args(AstOp::Not(a)) <==> ((a.spec_kind() == AstKind::Bool || a.spec_kind() == AstKind::BitVec)),
        op_valid_args(AstOp::And(a, b)) <==> ((a.spec_kind() == AstKind::Bool || a.spec_kind() == AstKind::BitVec) && a.spec_kind() == b.spec_kind()),
        op_valid_args(AstOp::Or(a, b)) <==> ((a.spec_kind() == AstKind::Bool || a.spec_kind() == AstKind::BitVec) && a.spec_kind() == b.spec_kind()),
        op_valid_args(AstOp::Xor(a, b)) <==> ((a.spec_kind() == AstKind::Bool || a.spec_kind() == AstKind::BitVec) && a.spec_kind() == b.spec_kind()),
        op_valid_args(AstOp::Add(a, b)) <==> (a.spec_kind() == AstKind::BitVec && b.spec_kind() == AstKind::BitVec),
        op_valid_args(AstOp::Sub(a, b)) <==> (a.spec_kind() == AstKind::BitVec && b.spec_kind() == AstKind::BitVec),
        op_valid_args(AstOp::Mul(a, b)) <==> (a.spec_kind() == AstKind::BitVec && b.spec_kind() == AstKind::BitVec),
        op_valid_args(AstOp::UDiv(a, b)) <==> (a.spec_kind() == AstKind::BitVec && b.spec_kind() == AstKind::BitVec),
        op_valid_args(AstOp::SDiv(a, b)) <==> (a.spec_kind() == AstKind::BitVec && b.spec_kind() == AstKind::BitVec),
        op_valid_args(AstOp::URem(a, b)) <==> (a.spec_kind() == AstKind::BitVec && b.spec_kind() == AstKind::BitVec),
        op_valid_args(AstOp::SRem(a, b)) <==> (a.spec_kind() == AstKind::BitVec && b.spec_kind() == AstKind::BitVec),
        op_valid_args(AstOp::Pow(a, b)) <==> (a.spec_kind() == AstKind::BitVec && b.spec_kind() == AstKind::BitVec),
        op_valid_args(AstOp::LShL(a, b)) <==> (a.spec_kind() == AstKind::BitVec && b.spec_kind() == AstKind::BitVec),
        op_valid_args(AstOp::LShR(a, b)) <==> (a.spec_kind() == AstKind::BitVec && b.spec_kind() == AstKind::BitVec),
        op_valid_args(AstOp::AShL(a, b)) <==> (a.spec_kind() == AstKind::BitVec && b.spec_kind() == AstKind::BitVec),
        op_valid_args(AstOp::AShR(a, b)) <==> (a.spec_kind() == AstKind::BitVec && b.spec_kind() == AstKind::BitVec),
        op_valid_args(AstOp::RotateLeft(a, b)) <==> (a.spec_kind() == AstKind::BitVec && b.spec_kind() == AstKind::BitVec),
        op_valid_args(AstOp::RotateRight(a, b)) <==> (a.spec_kind() == AstKind::BitVec && b.spec_kind() == AstKind::BitVec),
        op_valid_args(AstOp::Concat(a, b)) <==> (a.spec_kind() == AstKind::BitVec && b.spec_kind() == AstKind::BitVec),
        op_valid_args(AstOp::ZeroExt(a, n)) <==> (a.spec_kind() == AstKind::BitVec),
        op_valid_args(AstOp::SignExt(a, n)) <==> (a.spec_kind() == AstKind::BitVec),
        op_valid_args(AstOp::Extract(a, n, m)) <==> (a.spec_kind() == AstKind::BitVec),
        op_valid_args(AstOp::Reverse(a)) <==> (a.spec_kind() == AstKind::BitVec),
        op_valid_args(AstOp::Eq(a, b)) <==> (a.spec_kind() == AstKind::BitVec && b.spec_kind() == AstKind::BitVec),
        op_valid_args(AstOp::Neq(a, b)) <==> (a.spec_kind() == AstKind::BitVec && b.spec_kind() == AstKind::BitVec),
        op_valid_args(AstOp::ULT(a, b)) <==> (a.spec_kind() == AstKind::BitVec && b.spec_kind() == AstKind::BitVec),
        op_valid_args(AstOp::ULE(a, b)) <==> (a.spec_kind() == AstKind::BitVec && b.spec_kind() == AstKind::BitVec),
        op_valid_args(AstOp::UGT(a, b)) <==> (a.spec_kind() == AstKind::BitVec && b.spec_kind() == AstKind::BitVec),
        op_valid_args(AstOp::UGE(a, b)) <==> (a.spec_kind() == AstKind::BitVec && b.spec_kind() == AstKind::BitVec),
        op_valid_args(AstOp::SLT(a, b)) <==> (a.spec_kind() == AstKind::BitVec && b.spec_kind() == AstKind::BitVec),
        op_valid_args(AstOp::SLE(a, b)) <==> (a.spec_kind() == AstKind::BitVec && b.spec_kind() == AstKind::BitVec),
        op_valid_args(AstOp::SGT(a, b)) <==> (a.spec_kind() == AstKind::BitVec && b.spec_kind() == AstKind::BitVec),
        op_valid_args(AstOp::SGE(a, b)) <==> (a.spec_kind() == AstKind::BitVec && b.spec_kind() == AstKind::BitVec),
        op_valid_args(AstOp::FpToFp(a, sort, rm)) <==> (a.spec_kind() == AstKind::Float),
        op_valid_args(AstOp::BvToFpUnsigned(a, sort, rm)) <==> (a.spec_kind() == AstKind::Float),
        op_valid_args(AstOp::FpToIEEEBV(a)) <==> (a.spec_kind() == AstKind::Float),
        op_valid_args(AstOp::FpToUBV(a, n, rm)) <==> (a.spec_kind() == AstKind::Float && n > 0),
        op_valid_args(AstOp::FpToSBV(a, n, rm)) <==> (a.spec_kind() == AstKind::Float),
        op_valid_args(AstOp::FpNeg(a, rm)) <==> (a.spec_kind() == AstKind::Float),
        op_valid_args(AstOp::FpAbs(a, rm)) <==> (a.spec_kind() == AstKind::Float),
        op_valid_args(AstOp::FpSqrt(a, rm)) <==> (a.spec_kind() == AstKind::Float),
        op_valid_args(AstOp::FpAdd(a, b, rm)) <==> (a.spec_kind() == AstKind::Float && b.spec_kind() == AstKind::Float),
        op_valid_args(AstOp::FpSub(a, b, rm)) <==> (a.spec_kind() == AstKind::Float && b.spec_kind() == AstKind::Float),
        op_valid_args(AstOp::FpMul(a, b, rm)) <==> (a.spec_kind() == AstKind::Float && b.spec_kind() == AstKind::Float),
        op_valid_args(AstOp::FpDiv(a, b, rm)) <==> (a.spec_kind() == AstKind::Float && b.spec_kind() == AstKind::Float),
        op_valid_args(AstOp::FpEq(a, b)) <==> (a.spec_kind() == AstKind::Float && b.spec_kind() == AstKind::Float),
        op_valid_args(AstOp::FpNeq(a, b)) <==> (a.spec_kind() == AstKind::Float && b.spec_kind() == AstKind::Float),
        op_valid_args(AstOp::FpLt(a, b)) <==> (a.spec_kind() == AstKind::Float && b.spec_kind() == AstKind::Float),
        op_valid_args(AstOp::FpLeq(a, b)) <==> (a.spec_kind() == AstKind::Float && b.spec_kind() == AstKind::Float),
        op_valid_args(AstOp::FpGt(a, b)) <==> (a.spec_kind() == AstKind::Float && b.spec_kind() == AstKind::Float),
        op_valid_args(AstOp::FpGeq(a, b)) <==> (a.spec_kind() == AstKind::Float && b.spec_kind() == AstKind::Float),
        op_valid_args(AstOp::FpIsNan(a)) <==> (a.spec_kind() == AstKind::Float),
        op_valid_args(AstOp::FpIsInf(a)) <==> (a.spec_kind() == AstKind::Float),
        op_valid_args(AstOp::StrLen(a)) <==> (a.spec_kind() == AstKind::String),
        op_valid_args(AstOp::StrConcat(a, b)) <==> (a.spec_kind() == AstKind::String && b.spec_kind() == AstKind::String),
        op_valid_args(AstOp::StrSubstr(a, b, c)) <==> (a.spec_kind() == AstKind::BitVec && b.spec_kind() == AstKind::BitVec && c.spec_kind() == AstKind::String),
        op_valid_args(AstOp::StrContains(a, b)) <==> (a.spec_kind() == AstKind::String && b.spec_kind() == AstKind::String),
        op_valid_args(AstOp::StrIndexOf(a, b, c)) <==> (a.spec_kind() == AstKind::String && b.spec_kind() == AstKind::String && c.spec_kind() == AstKind::BitVec),
        op_valid_args(AstOp::StrReplace(a, b, c)) <==> (a.spec_kind() == AstKind::String && b.spec_kind() == AstKind::String && c.spec_kind() == AstKind::String),
        op_valid_args(AstOp::StrPrefixOf(a, b)) <==> (a.spec_kind() == AstKind::String && b.spec_kind() == AstKind::String),
        op_valid_args(AstOp::StrSuffixOf(a, b)) <==> (a.spec_kind() == AstKind::String && b.spec_kind() == AstKind::String),
        op_valid_args(AstOp::StrToBV(a)) <==> (a.spec_kind() == AstKind::String),
        op_valid_args(AstOp::BVToStr(a)) <==> (a.spec_kind() == AstKind::BitVec),
        op_valid_args(AstOp::StrIsDigit(a)) <==> (a.spec_kind() == AstKind::String),
        op_valid_args(AstOp::StrEq(a, b)) <==> (a.spec_kind() == AstKind::String && b.spec_kind() == AstKind::String),
        op_valid_args(AstOp::StrNeq(a, b)) <==> (a.spec_kind() == AstKind::String && b.spec_kind() == AstKind::String),
        !valid_args_defined(AstOp::If(a, b, c)),
        !valid_args_defined(AstOp::Annotated(a, ann)),
{
}

/// The position of an operation's kind in the list of kinds.
pub open spec fn kind_position(op: AstOp) -> nat {
    match op {
        AstOp::BoolS(..) => 0,
        AstOp::BoolV(..) => 1,
        AstOp::BVS(..) => 2,
        AstOp::BVV(..) => 3,
        AstOp::FPS(..) => 4,
        AstOp::FPV(..) => 5,
        AstOp::StringS(..) => 6,
        AstOp::StringV(..) => 7,
        AstOp::Not(..) => 8,
        AstOp::And(..) => 9,
        AstOp::Or(..) => 10,
        AstOp::Xor(..) => 11,
        AstOp::Add(..) => 12,
        AstOp::Sub(..) => 13,
        AstOp::Mul(..) => 14,
        AstOp::UDiv(..) => 15,
        AstOp::SDiv(..) => 16,
        AstOp::URem(..) => 17,
        AstOp::SRem(..) => 18,
        AstOp::Pow(..) => 19,
        AstOp::LShL(..) => 20,
        AstOp::LShR(..) => 21,
        AstOp::AShL(..) => 22,
        AstOp::AShR(..) => 23,
        AstOp::RotateLeft(..) => 24,
        AstOp::RotateRight(..) => 25,
        AstOp::Concat(..) => 26,
        AstOp::ZeroExt(..) => 27,
        AstOp::SignExt(..) => 28,
        AstOp::Extract(..) => 29,
        AstOp::Reverse(..) => 30,
        AstOp::Eq(..) => 31,
        AstOp::Neq(..) => 32,
        AstOp::ULT(..) => 33,
        AstOp::ULE(..) => 34,
        AstOp::UGT(..) => 35,
        AstOp::UGE(..) => 36,
        AstOp::SLT(..) => 37,
        AstOp::SLE(..) => 38,
        AstOp::SGT(..) => 39,
        AstOp::SGE(..) => 40,
        AstOp::FpToFp(..) => 41,
        AstOp::BvToFpUnsigned(..) => 42,
        AstOp::FpToIEEEBV(..) => 43,
        AstOp::FpToUBV(..) => 44,
        AstOp::FpToSBV(..) => 45,
        AstOp::FpNeg(..) => 46,
        AstOp::FpAbs(..) => 47,
        AstOp::FpSqrt(..) => 48,
        AstOp::FpAdd(..) => 49,
        AstOp::FpSub(..) => 50,
        AstOp::FpMul(..) => 51,
        AstOp::FpDiv(..) => 52,
        AstOp::FpEq(..) => 53,
        AstOp::FpNeq(..) => 54,
        AstOp::FpLt(..) => 55,
        AstOp::FpLeq(..) => 56,
        AstOp::FpGt(..) => 57,
        AstOp::FpGeq(..) => 58,
        AstOp::FpIsNan(..) => 59,
        AstOp::FpIsInf(..) => 60,
        AstOp::StrLen(..) => 61,
        AstOp::StrConcat(..) => 62,
        AstOp::StrSubstr(..) => 63,
        AstOp::StrContains(..) => 64,
        AstOp::StrIndexOf(..) => 65,
        AstOp::StrReplace(..) => 66,
        AstOp::StrPrefixOf(..) => 67,
        AstOp::StrSuffixOf(..) => 68,
        AstOp::StrToBV(..) => 69,
        AstOp::BVToStr(..) => 70,
        AstOp::StrIsDigit(..) => 71,
        AstOp::StrEq(..) => 72,
        AstOp::StrNeq(..) => 73,
        AstOp::If(..) => 74,
        AstOp::Annotated(..) => 75,
    }
}

/// The letters of each operation's name.
proof fn lemma_name_letters()
    ensures
        "BoolS"@.len() == 5 && "BoolS"@[0] == 'B' && "BoolS"@[1] == 'o' && "BoolS"@[2] == 'o' && "BoolS"@[3] == 'l' && "BoolS"@[4] == 'S',
        "BoolV"@.len() == 5 && "BoolV"@[0] == 'B' && "BoolV"@[1] == 'o' && "BoolV"@[2] == 'o' && "BoolV"@[3] == 'l' && "BoolV"@[4] == 'V',
        "BVS"@.len() == 3 && "BVS"@[0] == 'B' && "BVS"@[1] == 'V' && "BVS"@[2] == 'S',
        "BVV"@.len() == 3 && "BVV"@[0] == 'B' && "BVV"@[1] == 'V' && "BVV"@[2] == 'V',
        "FPS"@.len() == 3 && "FPS"@[0] == 'F' && "FPS"@[1] == 'P' && "FPS"@[2] == 'S',
        "FPV"@.len() == 3 && "FPV"@[0] == 'F' && "FPV"@[1] == 'P' && "FPV"@[2] == 'V',
        "StringS"@.len() == 7 && "StringS"@[0] == 'S' && "StringS"@[1] == 't' && "StringS"@[2] == 'r' && "StringS"@[3] == 'i' && "StringS"@[4] == 'n' && "StringS"@[5] == 'g' && "StringS"@[6] == 'S',
        "StringV"@.len() == 7 && "StringV"@[0] == 'S' && "StringV"@[1] == 't' && "StringV"@[2] == 'r' && "StringV"@[3] == 'i' && "StringV"@[4] == 'n' && "StringV"@[5] == 'g' && "StringV"@[6] == 'V',
        "__invert__"@.len() == 10 && "__invert__"@[0] == '_' && "__invert__"@[1] == '_' && "__invert__"@[2] == 'i' && "__invert__"@[3] == 'n' && "__invert__"@[4] == 'v' && "__invert__"@[5] == 'e' && "__invert__"@[6] == 'r' && "__invert__"@[7] == 't' && "__invert__"@[8] == '_' && "__invert__"@[9] == '_',
        "__and__"@.len() == 7 && "__and__"@[0] == '_' && "__and__"@[1] == '_' && "__and__"@[2] == 'a' && "__and__"@[3] == 'n' && "__and__"@[4] == 'd' && "__and__"@[5] == '_' && "__and__"@[6] == '_',
        "__or__"@.len() == 6 && "__or__"@[0] == '_' && "__or__"@[1] == '_' && "__or__"@[2] == 'o' && "__or__"@[3] == 'r' && "__or__"@[4] == '_' && "__or__"@[5] == '_',
        "__xor__"@.len() == 7 && "__xor__"@[0] == '_' && "__xor__"@[1] == '_' && "__xor__"@[2] == 'x' && "__xor__"@[3] == 'o' && "__xor__"@[4] == 'r' && "__xor__"@[5] == '_' && "__xor__"@[6] == '_',
        "__add__"@.len() == 7 && "__add__"@[0] == '_' && "__add__"@[1] == '_' && "__add__"@[2] == 'a' && "__add__"@[3] == 'd' && "__add__"@[4] == 'd' && "__add__"@[5] == '_' && "__add__"@[6] == '_',
        "__sub__"@.len() == 7 && "__sub__"@[0] == '_' && "__sub__"@[1] == '_' && "__sub__"@[2] == 's' && "__sub__"@[3] == 'u' && "__sub__"@[4] == 'b' && "__sub__"@[5] == '_' && "__sub__"@[6] == '_',
        "__mul__"@.len() == 7 && "__mul__"@[0] == '_' && "__mul__"@[1] == '_' && "__mul__"@[2] == 'm' && "__mul__"@[3] == 'u' && "__mul__"@[4] == 'l' && "__mul__"@[5] == '_' && "__mul__"@[6] == '_',
        "__floordiv__"@.len() == 12 && "__floordiv__"@[0] == '_' && "__floordiv__"@[1] == '_' && "__floordiv__"@[2] == 'f' && "__floordiv__"@[3] == 'l' && "__floordiv__"@[4] == 'o' && "__floordiv__"@[5] == 'o' && "__floordiv__"@[6] == 'r' && "__floordiv__"@[7] == 'd' && "__floordiv__"@[8] == 'i' && "__floordiv__"@[9] == 'v' && "__floordiv__"@[10] == '_' && "__floordiv__"@[11] == '_',
        "SDiv"@.len() == 4 && "SDiv"@[0] == 'S' && "SDiv"@[1] == 'D' && "SDiv"@[2] == 'i' && "SDiv"@[3] == 'v',
        "__mod__"@.len() == 7 && "__mod__"@[0] == '_' && "__mod__"@[1] == '_' && "__mod__"@[2] == 'm' && "__mod__"@[3] == 'o' && "__mod__"@[4] == 'd' && "__mod__"@[5] == '_' && "__mod__"@[6] == '_',
        "SMod"@.len() == 4 && "SMod"@[0] == 'S' && "SMod"@[1] == 'M' && "SMod"@[2] == 'o' && "SMod"@[3] == 'd',
        "__pow__"@.len() == 7 && "__pow__"@[0] == '_' && "__pow__"@[1] == '_' && "__pow__"@[2] == 'p' && "__pow__"@[3] == 'o' && "__pow__"@[4] == 'w' && "__pow__"@[5] == '_' && "__pow__"@[6] == '_',
        "__lshift__"@.len() == 10 && "__lshift__"@[0] == '_' && "__lshift__"@[1] == '_' && "__lshift__"@[2] == 'l' && "__lshift__"@[3] == 's' && "__lshift__"@[4] == 'h' && "__lshift__"@[5] == 'i' && "__lshift__"@[6] == 'f' && "__lshift__"@[7] == 't' && "__lshift__"@[8] == '_' && "__lshift__"@[9] == '_',
        "LShR"@.len() == 4 && "LShR"@[0] == 'L' && "LShR"@[1] == 'S' && "LShR"@[2] == 'h' && "LShR"@[3] == 'R',
        "AShL"@.len() == 4 && "AShL"@[0] == 'A' && "AShL"@[1] == 'S' && "AShL"@[2] == 'h' && "AShL"@[3] == 'L',
        "__rshift__"@.len() == 10 && "__rshift__"@[0] == '_' && "__rshift__"@[1] == '_' && "__rshift__"@[2] == 'r' && "__rshift__"@[3] == 's' && "__rshift__"@[4] == 'h' && "__rshift__"@[5] == 'i' && "__rshift__"@[6] == 'f' && "__rshift__"@[7] == 't' && "__rshift__"@[8] == '_' && "__rshift__"@[9] == '_',
        "RotateLeft"@.len() == 10 && "RotateLeft"@[0] == 'R' && "RotateLeft"@[1] == 'o' && "RotateLeft"@[2] == 't' && "RotateLeft"@[3] == 'a' && "RotateLeft"@[4] == 't' && "RotateLeft"@[5] == 'e' && "RotateLeft"@[6] == 'L' && "RotateLeft"@[7] == 'e' && "RotateLeft"@[8] == 'f' && "RotateLeft"@[9] == 't',
        "RotateRight"@.len() == 11 && "RotateRight"@[0] == 'R' && "RotateRight"@[1] == 'o' && "RotateRight"@[2] == 't' && "RotateRight"@[3] == 'a' && "RotateRight"@[4] == 't' && "RotateRight"@[5] == 'e' && "RotateRight"@[6] == 'R' && "RotateRight"@[7] == 'i' && "RotateRight"@[8] == 'g' && "RotateRight"@[9] == 'h' && "RotateRight"@[10] == 't',
        "Concat"@.len() == 6 && "Concat"@[0] == 'C' && "Concat"@[1] == 'o' && "Concat"@[2] == 'n' && "Concat"@[3] == 'c' && "Concat"@[4] == 'a' && "Concat"@[5] == 't',
        "ZeroExt"@.len() == 7 && "ZeroExt"@[0] == 'Z' && "ZeroExt"@[1] == 'e' && "ZeroExt"@[2] == 'r' && "ZeroExt"@[3] == 'o' && "ZeroExt"@[4] == 'E' && "ZeroExt"@[5] == 'x' && "ZeroExt"@[6] == 't',
        "SignExt"@.len() == 7 && "SignExt"@[0] == 'S' && "SignExt"@[1] == 'i' && "SignExt"@[2] == 'g' && "SignExt"@[3] == 'n' && "SignExt"@[4] == 'E' && "SignExt"@[5] == 'x' && "SignExt"@[6] == 't',
        "Extract"@.len() == 7 && "Extract"@[0] == 'E' && "Extract"@[1] == 'x' && "Extract"@[2] == 't' && "Extract"@[3] == 'r' && "Extract"@[4] == 'a' && "Extract"@[5] == 'c' && "Extract"@[6] == 't',
        "Reverse"@.len() == 7 && "Reverse"@[0] == 'R' && "Reverse"@[1] == 'e' && "Reverse"@[2] == 'v' && "Reverse"@[3] == 'e' && "Reverse"@[4] == 'r' && "Reverse"@[5] == 's' && "Reverse"@[6] == 'e',
        "__eq__"@.len() == 6 && "__eq__"@[0] == '_' && "__eq__"@[1] == '_' && "__eq__"@[2] == 'e' && "__eq__"@[3] == 'q' && "__eq__"@[4] == '_' && "__eq__"@[5] == '_',
        "__ne__"@.len() == 6 && "__ne__"@[0] == '_' && "__ne__"@[1] == '_' && "__ne__"@[2] == 'n' && "__ne__"@[3] == 'e' && "__ne__"@[4] == '_' && "__ne__"@[5] == '_',
        "ULT"@.len() == 3 && "ULT"@[0] == 'U' && "ULT"@[1] == 'L' && "ULT"@[2] == 'T',
        "ULE"@.len() == 3 && "ULE"@[0] == 'U' && "ULE"@[1] == 'L' && "ULE"@[2] == 'E',
        "UGT"@.len() == 3 && "UGT"@[0] == 'U' && "UGT"@[1] == 'G' && "UGT"@[2] == 'T',
        "UGE"@.len() == 3 && "UGE"@[0] == 'U' && "UGE"@[1] == 'G' && "UGE"@[2] == 'E',
        "SLT"@.len() == 3 && "SLT"@[0] == 'S' && "SLT"@[1] == 'L' && "SLT"@[2] == 'T',
        "SLE"@.len() == 3 && "SLE"@[0] == 'S' && "SLE"@[1] == 'L' && "SLE"@[2] == 'E',
        "SGT"@.len() == 3 && "SGT"@[0] == 'S' && "SGT"@[1] == 'G' && "SGT"@[2] == 'T',
        "SGE"@.len() == 3 && "SGE"@[0] == 'S' && "SGE"@[1] == 'G' && "SGE"@[2] == 'E',
        "fpToFP"@.len() == 6 && "fpToFP"@[0] == 'f' && "fpToFP"@[1] == 'p' && "fpToFP"@[2] == 'T' && "fpToFP"@[3] == 'o' && "fpToFP"@[4] == 'F' && "fpToFP"@[5] == 'P',
        "fpToFPUnsigned"@.len() == 14 && "fpToFPUnsigned"@[0] == 'f' && "fpToFPUnsigned"@[1] == 'p' && "fpToFPUnsigned"@[2] == 'T' && "fpToFPUnsigned"@[3] == 'o' && "fpToFPUnsigned"@[4] == 'F' && "fpToFPUnsigned"@[5] == 'P' && "fpToFPUnsigned"@[6] == 'U' && "fpToFPUnsigned"@[7] == 'n' && "fpToFPUnsigned"@[8] == 's' && "fpToFPUnsigned"@[9] == 'i' && "fpToFPUnsigned"@[10] == 'g' && "fpToFPUnsigned"@[11] == 'n' && "fpToFPUnsigned"@[12] == 'e' && "fpToFPUnsigned"@[13] == 'd',
        "fpToIEEEBV"@.len() == 10 && "fpToIEEEBV"@[0] == 'f' && "fpToIEEEBV"@[1] == 'p' && "fpToIEEEBV"@[2] == 'T' && "fpToIEEEBV"@[3] == 'o' && "fpToIEEEBV"@[4] == 'I' && "fpToIEEEBV"@[5] == 'E' && "fpToIEEEBV"@[6] == 'E' && "fpToIEEEBV"@[7] == 'E' && "fpToIEEEBV"@[8] == 'B' && "fpToIEEEBV"@[9] == 'V',
        "fpToUBV"@.len() == 7 && "fpToUBV"@[0] == 'f' && "fpToUBV"@[1] == 'p' && "fpToUBV"@[2] == 'T' && "fpToUBV"@[3] == 'o' && "fpToUBV"@[4] == 'U' && "fpToUBV"@[5] == 'B' && "fpToUBV"@[6] == 'V',
        "fpToSBV"@.len() == 7 && "fpToSBV"@[0] == 'f' && "fpToSBV"@[1] == 'p' && "fpToSBV"@[2] == 'T' && "fpToSBV"@[3] == 'o' && "fpToSBV"@[4] == 'S' && "fpToSBV"@[5] == 'B' && "fpToSBV"@[6] == 'V',
        "fpNeg"@.len() == 5 && "fpNeg"@[0] == 'f' && "fpNeg"@[1] == 'p' && "fpNeg"@[2] == 'N' && "fpNeg"@[3] == 'e' && "fpNeg"@[4] == 'g',
        "fpAbs"@.len() == 5 && "fpAbs"@[0] == 'f' && "fpAbs"@[1] == 'p' && "fpAbs"@[2] == 'A' && "fpAbs"@[3] == 'b' && "fpAbs"@[4] == 's',
        "fpSqrt"@.len() == 6 && "fpSqrt"@[0] == 'f' && "fpSqrt"@[1] == 'p' && "fpSqrt"@[2] == 'S' && "fpSqrt"@[3] == 'q' && "fpSqrt"@[4] == 'r' && "fpSqrt"@[5] == 't',
        "fpAdd"@.len() == 5 && "fpAdd"@[0] == 'f' && "fpAdd"@[1] == 'p' && "fpAdd"@[2] == 'A' && "fpAdd"@[3] == 'd' && "fpAdd"@[4] == 'd',
        "fpSub"@.len() == 5 && "fpSub"@[0] == 'f' && "fpSub"@[1] == 'p' && "fpSub"@[2] == 'S' && "fpSub"@[3] == 'u' && "fpSub"@[4] == 'b',
        "fpMul"@.len() == 5 && "fpMul"@[0] == 'f' && "fpMul"@[1] == 'p' && "fpMul"@[2] == 'M' && "fpMul"@[3] == 'u' && "fpMul"@[4] == 'l',
        "fpDiv"@.len() == 5 && "fpDiv"@[0] == 'f' && "fpDiv"@[1] == 'p' && "fpDiv"@[2] == 'D' && "fpDiv"@[3] == 'i' && "fpDiv"@[4] == 'v',
        "fpEQ"@.len() == 4 && "fpEQ"@[0] == 'f' && "fpEQ"@[1] == 'p' && "fpEQ"@[2] == 'E' && "fpEQ"@[3] == 'Q',
        "fpNE"@.len() == 4 && "fpNE"@[0] == 'f' && "fpNE"@[1] == 'p' && "fpNE"@[2] == 'N' && "fpNE"@[3] == 'E',
        "fpLT"@.len() == 4 && "fpLT"@[0] == 'f' && "fpLT"@[1] == 'p' && "fpLT"@[2] == 'L' && "fpLT"@[3] == 'T',
        "fpLEQ"@.len() == 5 && "fpLEQ"@[0] == 'f' && "fpLEQ"@[1] == 'p' && "fpLEQ"@[2] == 'L' && "fpLEQ"@[3] == 'E' && "fpLEQ"@[4] == 'Q',
        "fpGT"@.len() == 4 && "fpGT"@[0] == 'f' && "fpGT"@[1] == 'p' && "fpGT"@[2] == 'G' && "fpGT"@[3] == 'T',
        "fpGEQ"@.len() == 5 && "fpGEQ"@[0] == 'f' && "fpGEQ"@[1] == 'p' && "fpGEQ"@[2] == 'G' && "fpGEQ"@[3] == 'E' && "fpGEQ"@[4] == 'Q',
        "fpIsNaN"@.len() == 7 && "fpIsNaN"@[0] == 'f' && "fpIsNaN"@[1] == 'p' && "fpIsNaN"@[2] == 'I' && "fpIsNaN"@[3] == 's' && "fpIsNaN"@[4] == 'N' && "fpIsNaN"@[5] == 'a' && "fpIsNaN"@[6] == 'N',
        "fpIsInf"@.len() == 7 && "fpIsInf"@[0] == 'f' && "fpIsInf"@[1] == 'p' && "fpIsInf"@[2] == 'I' && "fpIsInf"@[3] == 's' && "fpIsInf"@[4] == 'I' && "fpIsInf"@[5] == 'n' && "fpIsInf"@[6] == 'f',
        "StrLen"@.len() == 6 && "StrLen"@[0] == 'S' && "StrLen"@[1] == 't' && "StrLen"@[2] == 'r' && "StrLen"@[3] == 'L' && "StrLen"@[4] == 'e' && "StrLen"@[5] == 'n',
        "StrConcat"@.len() == 9 && "StrConcat"@[0] == 'S' && "StrConcat"@[1] == 't' && "StrConcat"@[2] == 'r' && "StrConcat"@[3] == 'C' && "StrConcat"@[4] == 'o' && "StrConcat"@[5] == 'n' && "StrConcat"@[6] == 'c' && "StrConcat"@[7] == 'a' && "StrConcat"@[8] == 't',
        "StrSubstr"@.len() == 9 && "StrSubstr"@[0] == 'S' && "StrSubstr"@[1] == 't' && "StrSubstr"@[2] == 'r' && "StrSubstr"@[3] == 'S' && "StrSubstr"@[4] == 'u' && "StrSubstr"@[5] == 'b' && "StrSubstr"@[6] == 's' && "StrSubstr"@[7] == 't' && "StrSubstr"@[8] == 'r',
        "StrContains"@.len() == 11 && "StrContains"@[0] == 'S' && "StrContains"@[1] == 't' && "StrContains"@[2] == 'r' && "StrContains"@[3] == 'C' && "StrContains"@[4] == 'o' && "StrContains"@[5] == 'n' && "StrContains"@[6] == 't' && "StrContains"@[7] == 'a' && "StrContains"@[8] == 'i' && "StrContains"@[9] == 'n' && "StrContains"@[10] == 's',
        "StrIndexOf"@.len() == 10 && "StrIndexOf"@[0] == 'S' && "StrIndexOf"@[1] == 't' && "StrIndexOf"@[2] == 'r' && "StrIndexOf"@[3] == 'I' && "StrIndexOf"@[4] == 'n' && "StrIndexOf"@[5] == 'd' && "StrIndexOf"@[6] == 'e' && "StrIndexOf"@[7] == 'x' && "StrIndexOf"@[8] == 'O' && "StrIndexOf"@[9] == 'f',
        "StrReplace"@.len() == 10 && "StrReplace"@[0] == 'S' && "StrReplace"@[1] == 't' && "StrReplace"@[2] == 'r' && "StrReplace"@[3] == 'R' && "StrReplace"@[4] == 'e' && "StrReplace"@[5] == 'p' && "StrReplace"@[6] == 'l' && "StrReplace"@[7] == 'a' && "StrReplace"@[8] == 'c' && "StrReplace"@[9] == 'e',
        "StrPrefixOf"@.len() == 11 && "StrPrefixOf"@[0] == 'S' && "StrPrefixOf"@[1] == 't' && "StrPrefixOf"@[2] == 'r' && "StrPrefixOf"@[3] == 'P' && "StrPrefixOf"@[4] == 'r' && "StrPrefixOf"@[5] == 'e' && "StrPrefixOf"@[6] == 'f' && "StrPrefixOf"@[7] == 'i' && "StrPrefixOf"@[8] == 'x' && "StrPrefixOf"@[9] == 'O' && "StrPrefixOf"@[10] == 'f',
        "StrSuffixOf"@.len() == 11 && "StrSuffixOf"@[0] == 'S' && "StrSuffixOf"@[1] == 't' && "StrSuffixOf"@[2] == 'r' && "StrSuffixOf"@[3] == 'S' && "StrSuffixOf"@[4] == 'u' && "StrSuffixOf"@[5] == 'f' && "StrSuffixOf"@[6] == 'f' && "StrSuffixOf"@[7] == 'i' && "StrSuffixOf"@[8] == 'x' && "StrSuffixOf"@[9] == 'O' && "StrSuffixOf"@[10] == 'f',
        "StrToInt"@.len() == 8 && "StrToInt"@[0] == 'S' && "StrToInt"@[1] == 't' && "StrToInt"@[2] == 'r' && "StrToInt"@[3] == 'T' && "StrToInt"@[4] == 'o' && "StrToInt"@[5] == 'I' && "StrToInt"@[6] == 'n' && "StrToInt"@[7] == 't',
        "IntToStr"@.len() == 8 && "IntToStr"@[0] == 'I' && "IntToStr"@[1] == 'n' && "IntToStr"@[2] == 't' && "IntToStr"@[3] == 'T' && "IntToStr"@[4] == 'o' && "IntToStr"@[5] == 'S' && "IntToStr"@[6] == 't' && "IntToStr"@[7] == 'r',
        "StrIsDigit"@.len() == 10 && "StrIsDigit"@[0] == 'S' && "StrIsDigit"@[1] == 't' && "StrIsDigit"@[2] == 'r' && "StrIsDigit"@[3] == 'I' && "StrIsDigit"@[4] == 's' && "StrIsDigit"@[5] == 'D' && "StrIsDigit"@[6] == 'i' && "StrIsDigit"@[7] == 'g' && "StrIsDigit"@[8] == 'i' && "StrIsDigit"@[9] == 't',
        "StrEq"@.len() == 5 && "StrEq"@[0] == 'S' && "StrEq"@[1] == 't' && "StrEq"@[2] == 'r' && "StrEq"@[3] == 'E' && "StrEq"@[4] == 'q',
        "StrNeq"@.len() == 6 && "StrNeq"@[0] == 'S' && "StrNeq"@[1] == 't' && "StrNeq"@[2] == 'r' && "StrNeq"@[3] == 'N' && "StrNeq"@[4] == 'e' && "StrNeq"@[5] == 'q',
        "If"@.len() == 2 && "If"@[0] == 'I' && "If"@[1] == 'f',
        "Annotated"@.len() == 9 && "Annotated"@[0] == 'A' && "Annotated"@[1] == 'n' && "Annotated"@[2] == 'n' && "Annotated"@[3] == 'o' && "Annotated"@[4] == 't' && "Annotated"@[5] == 'a' && "Annotated"@[6] == 't' && "Annotated"@[7] == 'e' && "Annotated"@[8] == 'd',
{
    reveal_strlit("BoolS");
    reveal_strlit("BoolV");
    reveal_strlit("BVS");
    reveal_strlit("BVV");
    reveal_strlit("FPS");
    reveal_strlit("FPV");
    reveal_strlit("StringS");
    reveal_strlit("StringV");
    reveal_strlit("__invert__");
    reveal_strlit("__and__");
    reveal_strlit("__or__");
    reveal_strlit("__xor__");
    reveal_strlit("__add__");
    reveal_strlit("__sub__");
    reveal_strlit("__mul__");
    reveal_strlit("__floordiv__");
    reveal_strlit("SDiv");
    reveal_strlit("__mod__");
    reveal_strlit("SMod");
    reveal_strlit("__pow__");
    reveal_strlit("__lshift__");
    reveal_strlit("LShR");
    reveal_strlit("AShL");
    reveal_strlit("__rshift__");
    reveal_strlit("RotateLeft");
    reveal_strlit("RotateRight");
    reveal_strlit("Concat");
    reveal_strlit("ZeroExt");
    reveal_strlit("SignExt");
    reveal_strlit("Extract");
    reveal_strlit("Reverse");
    reveal_strlit("__eq__");
    reveal_strlit("__ne__");
    reveal_strlit("ULT");
    reveal_strlit("ULE");
    reveal_strlit("UGT");
    reveal_strlit("UGE");
    reveal_strlit("SLT");
    reveal_strlit("SLE");
    reveal_strlit("SGT");
    reveal_strlit("SGE");
    reveal_strlit("fpToFP");
    reveal_strlit("fpToFPUnsigned");
    reveal_strlit("fpToIEEEBV");
    reveal_strlit("fpToUBV");
    reveal_strlit("fpToSBV");
    reveal_strlit("fpNeg");
    reveal_strlit("fpAbs");
    reveal_strlit("fpSqrt");
    reveal_strlit("fpAdd");
    reveal_strlit("fpSub");
    reveal_strlit("fpMul");
    reveal_strlit("fpDiv");
    reveal_strlit("fpEQ");
    reveal_strlit("fpNE");
    reveal_strlit("fpLT");
    reveal_strlit("fpLEQ");
    reveal_strlit("fpGT");
    reveal_strlit("fpGEQ");
    reveal_strlit("fpIsNaN");
    reveal_strlit("fpIsInf");
    reveal_strlit("StrLen");
    reveal_strlit("StrConcat");
    reveal_strlit("StrSubstr");
    reveal_strlit("StrContains");
    reveal_strlit("StrIndexOf");
    reveal_strlit("StrReplace");
    reveal_strlit("StrPrefixOf");
    reveal_strlit("StrSuffixOf");
    reveal_strlit("StrToInt");
    reveal_strlit("IntToStr");
    reveal_strlit("StrIsDigit");
    reveal_strlit("StrEq");
    reveal_strlit("StrNeq");
    reveal_strlit("If");
    reveal_strlit("Annotated");
}

/// Operations of different kinds have different names.
pub proof fn lemma_names_tell_kinds(x: AstOp, y: AstOp)
    requires
        op_name(x) == op_name(y),
    ensures
        kind_position(x) == kind_position(y),
{
    lemma_name_letters();
    match x {
        AstOp::BoolS(..) => lemma_name_of_bools(y),
        AstOp::BoolV(..) => lemma_name_of_boolv(y),
        AstOp::BVS(..) => lemma_name_of_bvs(y),
        AstOp::BVV(..) => lemma_name_of_bvv(y),
        AstOp::FPS(..) => lemma_name_of_fps(y),
        AstOp::FPV(..) => lemma_name_of_fpv(y),
        AstOp::StringS(..) => lemma_name_of_strings(y),
        AstOp::StringV(..) => lemma_name_of_stringv(y),
        AstOp::Not(..) => lemma_name_of_not(y),
        AstOp::And(..) => lemma_name_of_and(y),
        AstOp::Or(..) => lemma_name_of_or(y),
        AstOp::Xor(..) => lemma_name_of_xor(y),
        AstOp::Add(..) => lemma_name_of_add(y),
        AstOp::Sub(..) => lemma_name_of_sub(y),
        AstOp::Mul(..) => lemma_name_of_mul(y),
        AstOp::UDiv(..) => lemma_name_of_udiv(y),
        AstOp::SDiv(..) => lemma_name_of_sdiv(y),
        AstOp::URem(..) => lemma_name_of_urem(y),
        AstOp::SRem(..) => lemma_name_of_srem(y),
        AstOp::Pow(..) => lemma_name_of_pow(y),
        AstOp::LShL(..) => lemma_name_of_lshl(y),
        AstOp::LShR(..) => lemma_name_of_lshr(y),
        AstOp::AShL(..) => lemma_name_of_ashl(y),
        AstOp::AShR(..) => lemma_name_of_ashr(y),
        AstOp::RotateLeft(..) => lemma_name_of_rotateleft(y),
        AstOp::RotateRight(..) => lemma_name_of_rotateright(y),
        AstOp::Concat(..) => lemma_name_of_concat(y),
        AstOp::ZeroExt(..) => lemma_name_of_zeroext(y),
        AstOp::SignExt(..) => lemma_name_of_signext(y),
        AstOp::Extract(..) => lemma_name_of_extract(y),
        AstOp::Reverse(..) => lemma_name_of_reverse(y),
        AstOp::Eq(..) => lemma_name_of_eq(y),
        AstOp::Neq(..) => lemma_name_of_neq(y),
        AstOp::ULT(..) => lemma_name_of_ult(y),
        AstOp::ULE(..) => lemma_name_of_ule(y),
        AstOp::UGT(..) => lemma_name_of_ugt(y),
        AstOp::UGE(..) => lemma_name_of_uge(y),
        AstOp::SLT(..) => lemma_name_of_slt(y),
        AstOp::SLE(..) => lemma_name_of_sle(y),
        AstOp::SGT(..) => lemma_name_of_sgt(y),
        AstOp::SGE(..) => lemma_name_of_sge(y),
        AstOp::FpToFp(..) => lemma_name_of_fptofp(y),
        AstOp::BvToFpUnsigned(..) => lemma_name_of_bvtofpunsigned(y),
        AstOp::FpToIEEEBV(..) => lemma_name_of_fptoieeebv(y),
        AstOp::FpToUBV(..) => lemma_name_of_fptoubv(y),
        AstOp::FpToSBV(..) => lemma_name_of_fptosbv(y),
        AstOp::FpNeg(..) => lemma_name_of_fpneg(y),
        AstOp::FpAbs(..) => lemma_name_of_fpabs(y),
        AstOp::FpSqrt(..) => lemma_name_of_fpsqrt(y),
        AstOp::FpAdd(..) => lemma_name_of_fpadd(y),
        AstOp::FpSub(..) => lemma_name_of_fpsub(y),
        AstOp::FpMul(..) => lemma_name_of_fpmul(y),
        AstOp::FpDiv(..) => lemma_name_of_fpdiv(y),
        AstOp::FpEq(..) => lemma_name_of_fpeq(y),
        AstOp::FpNeq(..) => lemma_name_of_fpneq(y),
        AstOp::FpLt(..) => lemma_name_of_fplt(y),
        AstOp::FpLeq(..) => lemma_name_of_fpleq(y),
        AstOp::FpGt(..) => lemma_name_of_fpgt(y),
        AstOp::FpGeq(..) => lemma_name_of_fpgeq(y),
        AstOp::FpIsNan(..) => lemma_name_of_fpisnan(y),
        AstOp::FpIsInf(..) => lemma_name_of_fpisinf(y),
        AstOp::StrLen(..) => lemma_name_of_strlen(y),
        AstOp::StrConcat(..) => lemma_name_of_strconcat(y),
        AstOp::StrSubstr(..) => lemma_name_of_strsubstr(y),
        AstOp::StrContains(..) => lemma_name_of_strcontains(y),
        AstOp::StrIndexOf(..) => lemma_name_of_strindexof(y),
        AstOp::StrReplace(..) => lemma_name_of_strreplace(y),
        AstOp::StrPrefixOf(..) => lemma_name_of_strprefixof(y),
        AstOp::StrSuffixOf(..) => lemma_name_of_strsuffixof(y),
        AstOp::StrToBV(..) => lemma_name_of_strtobv(y),
        AstOp::BVToStr(..) => lemma_name_of_bvtostr(y),
        AstOp::StrIsDigit(..) => lemma_name_of_strisdigit(y),
        AstOp::StrEq(..) => lemma_name_of_streq(y),
        AstOp::StrNeq(..) => lemma_name_of_strneq(y),
        AstOp::If(..) => lemma_name_of_if(y),
        AstOp::Annotated(..) => lemma_name_of_annotated(y),
    }
}

proof fn lemma_name_of_bools(y: AstOp)
    requires
        op_name(y) == "BoolS"@,
    ensures
        kind_position(y) == 0,
{
    lemma_name_letters();
}

proof fn lemma_name_of_boolv(y: AstOp)
    requires
        op_name(y) == "BoolV"@,
    ensures
        kind_position(y) == 1,
{
    lemma_name_letters();
}

proof fn lemma_name_of_bvs(y: AstOp)
    requires
        op_name(y) == "BVS"@,
    ensures
        kind_position(y) == 2,
{
    lemma_name_letters();
}

proof fn lemma_name_of_bvv(y: AstOp)
    requires
        op_name(y) == "BVV"@,
    ensures
        kind_position(y) == 3,
{
    lemma_name_letters();
}

proof fn lemma_name_of_fps(y: AstOp)
    requires
        op_name(y) == "FPS"@,
    ensures
        kind_position(y) == 4,
{
    lemma_name_letters();
}

proof fn lemma_name_of_fpv(y: AstOp)
    requires
        op_name(y) == "FPV"@,
    ensures
        kind_position(y) == 5,
{
    lemma_name_letters();
}

proof fn lemma_name_of_strings(y: AstOp)
    requires
        op_name(y) == "StringS"@,
    ensures
        kind_position(y) == 6,
{
    lemma_name_letters();
}

proof fn lemma_name_of_stringv(y: AstOp)
    requires
        op_name(y) == "StringV"@,
    ensures
        kind_position(y) == 7,
{
    lemma_name_letters();
}

proof fn lemma_name_of_not(y: AstOp)
    requires
        op_name(y) == "__invert__"@,
    ensures
        kind_position(y) == 8,
{
    lemma_name_letters();
}

proof fn lemma_name_of_and(y: AstOp)
    requires
        op_name(y) == "__and__"@,
    ensures
        kind_position(y) == 9,
{
    lemma_name_letters();
}

proof fn lemma_name_of_or(y: AstOp)
    requires
        op_name(y) == "__or__"@,
    ensures
        kind_position(y) == 10,
{
    lemma_name_letters();
}

proof fn lemma_name_of_xor(y: AstOp)
    requires
        op_name(y) == "__xor__"@,
    ensures
        kind_position(y) == 11,
{
    lemma_name_letters();
}

proof fn lemma_name_of_add(y: AstOp)
    requires
        op_name(y) == "__add__"@,
    ensures
        kind_position(y) == 12,
{
    lemma_name_letters();
}

proof fn lemma_name_of_sub(y: AstOp)
    requires
        op_name(y) == "__sub__"@,
    ensures
        kind_position(y) == 13,
{
    lemma_name_letters();
}

proof fn lemma_name_of_mul(y: AstOp)
    requires
        op_name(y) == "__mul__"@,
    ensures
        kind_position(y) == 14,
{
    lemma_name_letters();
}

proof fn lemma_name_of_udiv(y: AstOp)
    requires
        op_name(y) == "__floordiv__"@,
    ensures
        kind_position(y) == 15,
{
    lemma_name_letters();
}

proof fn lemma_name_of_sdiv(y: AstOp)
    requires
        op_name(y) == "SDiv"@,
    ensures
        kind_position(y) == 16,
{
    lemma_name_letters();
}

proof fn lemma_name_of_urem(y: AstOp)
    requires
        op_name(y) == "__mod__"@,
    ensures
        kind_position(y) == 17,
{
    lemma_name_letters();
}

proof fn lemma_name_of_srem(y: AstOp)
    requires
        op_name(y) == "SMod"@,
    ensures
        kind_position(y) == 18,
{
    lemma_name_letters();
}

proof fn lemma_name_of_pow(y: AstOp)
    requires
        op_name(y) == "__pow__"@,
    ensures
        kind_position(y) == 19,
{
    lemma_name_letters();
}

proof fn lemma_name_of_lshl(y: AstOp)
    requires
        op_name(y) == "__lshift__"@,
    ensures
        kind_position(y) == 20,
{
    lemma_name_letters();
}

proof fn lemma_name_of_lshr(y: AstOp)
    requires
        op_name(y) == "LShR"@,
    ensures
        kind_position(y) == 21,
{
    lemma_name_letters();
}

proof fn lemma_name_of_ashl(y: AstOp)
    requires
        op_name(y) == "AShL"@,
    ensures
        kind_position(y) == 22,
{
    lemma_name_letters();
}

proof fn lemma_name_of_ashr(y: AstOp)
    requires
        op_name(y) == "__rshift__"@,
    ensures
        kind_position(y) == 23,
{
    lemma_name_letters();
}

proof fn lemma_name_of_rotateleft(y: AstOp)
    requires
        op_name(y) == "RotateLeft"@,
    ensures
        kind_position(y) == 24,
{
    lemma_name_letters();
}

proof fn lemma_name_of_rotateright(y: AstOp)
    requires
        op_name(y) == "RotateRight"@,
    ensures
        kind_position(y) == 25,
{
    lemma_name_letters();
}

proof fn lemma_name_of_concat(y: AstOp)
    requires
        op_name(y) == "Concat"@,
    ensures
        kind_position(y) == 26,
{
    lemma_name_letters();
}

proof fn lemma_name_of_zeroext(y: AstOp)
    requires
        op_name(y) == "ZeroExt"@,
    ensures
        kind_position(y) == 27,
{
    lemma_name_letters();
}

proof fn lemma_name_of_signext(y: AstOp)
    requires
        op_name(y) == "SignExt"@,
    ensures
        kind_position(y) == 28,
{
    lemma_name_letters();
}

proof fn lemma_name_of_extract(y: AstOp)
    requires
        op_name(y) == "Extract"@,
    ensures
        kind_position(y) == 29,
{
    lemma_name_letters();
}

proof fn lemma_name_of_reverse(y: AstOp)
    requires
        op_name(y) == "Reverse"@,
    ensures
        kind_position(y) == 30,
{
    lemma_name_letters();
}

proof fn lemma_name_of_eq(y: AstOp)
    requires
        op_name(y) == "__eq__"@,
    ensures
        kind_position(y) == 31,
{
    lemma_name_letters();
}

proof fn lemma_name_of_neq(y: AstOp)
    requires
        op_name(y) == "__ne__"@,
    ensures
        kind_position(y) == 32,
{
    lemma_name_letters();
}

proof fn lemma_name_of_ult(y: AstOp)
    requires
        op_name(y) == "ULT"@,
    ensures
        kind_position(y) == 33,
{
    lemma_name_letters();
}

proof fn lemma_name_of_ule(y: AstOp)
    requires
        op_name(y) == "ULE"@,
    ensures
        kind_position(y) == 34,
{
    lemma_name_letters();
}

proof fn lemma_name_of_ugt(y: AstOp)
    requires
        op_name(y) == "UGT"@,
    ensures
        kind_position(y) == 35,
{
    lemma_name_letters();
}

proof fn lemma_name_of_uge(y: AstOp)
    requires
        op_name(y) == "UGE"@,
    ensures
        kind_position(y) == 36,
{
    lemma_name_letters();
}

proof fn lemma_name_of_slt(y: AstOp)
    requires
        op_name(y) == "SLT"@,
    ensures
        kind_position(y) == 37,
{
    lemma_name_letters();
}

proof fn lemma_name_of_sle(y: AstOp)
    requires
        op_name(y) == "SLE"@,
    ensures
        kind_position(y) == 38,
{
    lemma_name_letters();
}

proof fn lemma_name_of_sgt(y: AstOp)
    requires
        op_name(y) == "SGT"@,
    ensures
        kind_position(y) == 39,
{
    lemma_name_letters();
}

proof fn lemma_name_of_sge(y: AstOp)
    requires
        op_name(y) == "SGE"@,
    ensures
        kind_position(y) == 40,
{
    lemma_name_letters();
}

proof fn lemma_name_of_fptofp(y: AstOp)
    requires
        op_name(y) == "fpToFP"@,
    ensures
        kind_position(y) == 41,
{
    lemma_name_letters();
}

proof fn lemma_name_of_bvtofpunsigned(y: AstOp)
    requires
        op_name(y) == "fpToFPUnsigned"@,
    ensures
        kind_position(y) == 42,
{
    lemma_name_letters();
}

proof fn lemma_name_of_fptoieeebv(y: AstOp)
    requires
        op_name(y) == "fpToIEEEBV"@,
    ensures
        kind_position(y) == 43,
{
    lemma_name_letters();
}

proof fn lemma_name_of_fptoubv(y: AstOp)
    requires
        op_name(y) == "fpToUBV"@,
    ensures
        kind_position(y) == 44,
{
    lemma_name_letters();
}

proof fn lemma_name_of_fptosbv(y: AstOp)
    requires
        op_name(y) == "fpToSBV"@,
    ensures
        kind_position(y) == 45,
{
    lemma_name_letters();
}

proof fn lemma_name_of_fpneg(y: AstOp)
    requires
        op_name(y) == "fpNeg"@,
    ensures
        kind_position(y) == 46,
{
    lemma_name_letters();
}

proof fn lemma_name_of_fpabs(y: AstOp)
    requires
        op_name(y) == "fpAbs"@,
    ensures
        kind_position(y) == 47,
{
    lemma_name_letters();
}

proof fn lemma_name_of_fpsqrt(y: AstOp)
    requires
        op_name(y) == "fpSqrt"@,
    ensures
        kind_position(y) == 48,
{
    lemma_name_letters();
}

proof fn lemma_name_of_fpadd(y: AstOp)
    requires
        op_name(y) == "fpAdd"@,
    ensures
        kind_position(y) == 49,
{
    lemma_name_letters();
}

proof fn lemma_name_of_fpsub(y: AstOp)
    requires
        op_name(y) == "fpSub"@,
    ensures
        kind_position(y) == 50,
{
    lemma_name_letters();
}

proof fn lemma_name_of_fpmul(y: AstOp)
    requires
        op_name(y) == "fpMul"@,
    ensures
        kind_position(y) == 51,
{
    lemma_name_letters();
}

proof fn lemma_name_of_fpdiv(y: AstOp)
    requires
        op_name(y) == "fpDiv"@,
    ensures
        kind_position(y) == 52,
{
    lemma_name_letters();
}

proof fn lemma_name_of_fpeq(y: AstOp)
    requires
        op_name(y) == "fpEQ"@,
    ensures
        kind_position(y) == 53,
{
    lemma_name_letters();
}

proof fn lemma_name_of_fpneq(y: AstOp)
    requires
        op_name(y) == "fpNE"@,
    ensures
        kind_position(y) == 54,
{
    lemma_name_letters();
}

proof fn lemma_name_of_fplt(y: AstOp)
    requires
        op_name(y) == "fpLT"@,
    ensures
        kind_position(y) == 55,
{
    lemma_name_letters();
}

proof fn lemma_name_of_fpleq(y: AstOp)
    requires
        op_name(y) == "fpLEQ"@,
    ensures
        kind_position(y) == 56,
{
    lemma_name_letters();
}

proof fn lemma_name_of_fpgt(y: AstOp)
    requires
        op_name(y) == "fpGT"@,
    ensures
        kind_position(y) == 57,
{
    lemma_name_letters();
}

proof fn lemma_name_of_fpgeq(y: AstOp)
    requires
        op_name(y) == "fpGEQ"@,
    ensures
        kind_position(y) == 58,
{
    lemma_name_letters();
}

proof fn lemma_name_of_fpisnan(y: AstOp)
    requires
        op_name(y) == "fpIsNaN"@,
    ensures
        kind_position(y) == 59,
{
    lemma_name_letters();
}

proof fn lemma_name_of_fpisinf(y: AstOp)
    requires
        op_name(y) == "fpIsInf"@,
    ensures
        kind_position(y) == 60,
{
    lemma_name_letters();
}

proof fn lemma_name_of_strlen(y: AstOp)
    requires
        op_name(y) == "StrLen"@,
    ensures
        kind_position(y) == 61,
{
    lemma_name_letters();
}

proof fn lemma_name_of_strconcat(y: AstOp)
    requires
        op_name(y) == "StrConcat"@,
    ensures
        kind_position(y) == 62,
{
    lemma_name_letters();
}

proof fn lemma_name_of_strsubstr(y: AstOp)
    requires
        op_name(y) == "StrSubstr"@,
    ensures
        kind_position(y) == 63,
{
    lemma_name_letters();
}

proof fn lemma_name_of_strcontains(y: AstOp)
    requires
        op_name(y) == "StrContains"@,
    ensures
        kind_position(y) == 64,
{
    lemma_name_letters();
}

proof fn lemma_name_of_strindexof(y: AstOp)
    requires
        op_name(y) == "StrIndexOf"@,
    ensures
        kind_position(y) == 65,
{
    lemma_name_letters();
}

proof fn lemma_name_of_strreplace(y: AstOp)
    requires
        op_name(y) == "StrReplace"@,
    ensures
        kind_position(y) == 66,
{
    lemma_name_letters();
}

proof fn lemma_name_of_strprefixof(y: AstOp)
    requires
        op_name(y) == "StrPrefixOf"@,
    ensures
        kind_position(y) == 67,
{
    lemma_name_letters();
}

proof fn lemma_name_of_strsuffixof(y: AstOp)
    requires
        op_name(y) == "StrSuffixOf"@,
    ensures
        kind_position(y) == 68,
{
    lemma_name_letters();
}

proof fn lemma_name_of_strtobv(y: AstOp)
    requires
        op_name(y) == "StrToInt"@,
    ensures
        kind_position(y) == 69,
{
    lemma_name_letters();
}

proof fn lemma_name_of_bvtostr(y: AstOp)
    requires
        op_name(y) == "IntToStr"@,
    ensures
        kind_position(y) == 70,
{
    lemma_name_letters();
}

proof fn lemma_name_of_strisdigit(y: AstOp)
    requires
        op_name(y) == "StrIsDigit"@,
    ensures
        kind_position(y) == 71,
{
    lemma_name_letters();
}

proof fn lemma_name_of_streq(y: AstOp)
    requires
        op_name(y) == "StrEq"@,
    ensures
        kind_position(y) == 72,
{
    lemma_name_letters();
}

proof fn lemma_name_of_strneq(y: AstOp)
    requires
        op_name(y) == "StrNeq"@,
    ensures
        kind_position(y) == 73,
{
    lemma_name_letters();
}

proof fn lemma_name_of_if(y: AstOp)
    requires
        op_name(y) == "If"@,
    ensures
        kind_position(y) == 74,
{
    lemma_name_letters();
}

proof fn lemma_name_of_annotated(y: AstOp)
    requires
        op_name(y) == "Annotated"@,
    ensures
        kind_position(y) == 75,
{
    lemma_name_letters();
}

/// Splits equal sequences at the same place.
proof fn lemma_prefix(s1: Seq<u64>, t1: Seq<u64>, s2: Seq<u64>, t2: Seq<u64>)
    requires
        s1.len() == s2.len(),
        s1 + t1 == s2 + t2,
    ensures
        s1 == s2,
        t1 == t2,
{
    let w1 = s1 + t1;
    let w2 = s2 + t2;
    assert(s1 =~= w1.subrange(0, s1.len() as int));
    assert(s2 =~= w2.subrange(0, s2.len() as int));
    assert(t1 =~= w1.subrange(s1.len() as int, w1.len() as int));
    assert(t2 =~= w2.subrange(s2.len() as int, w2.len() as int));
}

/// The words of a byte string end where its length says.
proof fn lemma_bytes_prefix(b1: Seq<u8>, t1: Seq<u64>, b2: Seq<u8>, t2: Seq<u64>)
    requires
        b1.len() <= u64::MAX,
        b2.len() <= u64::MAX,
        bytes_words(b1) + t1 == bytes_words(b2) + t2,
    ensures
        b1 == b2,
        t1 == t2,
{
    let w1 = bytes_words(b1) + t1;
    let w2 = bytes_words(b2) + t2;
    assert(w1[0] == b1.len() as u64);
    assert(w2[0] == b2.len() as u64);
    assert forall|i: int| 0 <= i < b1.len() implies b1[i] == b2[i] by {
        assert(w1[i + 1] == b1[i] as u64);
        assert(w2[i + 1] == b2[i] as u64);
    }
    assert(b1 =~= b2);
    lemma_prefix(bytes_words(b1), t1, bytes_words(b2), t2);
}

/// The words of a string end where its length says, and give back the string.
proof fn lemma_str_prefix(s1: Seq<char>, t1: Seq<u64>, s2: Seq<char>, t2: Seq<u64>)
    requires
        encode_utf8(s1).len() <= u64::MAX,
        encode_utf8(s2).len() <= u64::MAX,
        str_words(s1) + t1 == str_words(s2) + t2,
    ensures
        s1 == s2,
        t1 == t2,
{
    lemma_bytes_prefix(encode_utf8(s1), t1, encode_utf8(s2), t2);
    encode_utf8_decode_utf8(s1);
    encode_utf8_decode_utf8(s2);
}

/// Operations of one name with equal words have equal parameter and operand words.
proof fn lemma_rest_of_words(x: AstOp, y: AstOp)
    requires
        op_name(x) == op_name(y),
        op_hash_words(x) == op_hash_words(y),
    ensures
        op_param_words(x) + child_hashes(op_children(x)) == op_param_words(y) + child_hashes(op_children(y)),
{
    let s = str_words(op_name(x));
    assert(op_hash_words(x) =~= s + (op_param_words(x) + child_hashes(op_children(x))));
    assert(op_hash_words(y) =~= s + (op_param_words(y) + child_hashes(op_children(y))));
    lemma_prefix(s, op_param_words(x) + child_hashes(op_children(x)), s, op_param_words(y) + child_hashes(op_children(y)));
}

/// Each rounding mode has its own code.
proof fn lemma_rounding_mode_code(r1: FPRM, r2: FPRM)
    requires
        rounding_mode_code(r1) == rounding_mode_code(r2),
    ensures
        r1 == r2,
{
}

/// Hashing keeps every parameter: two operations of the same kind whose
/// hashed words are equal have the same names, widths, bounds, amounts,
/// sorts, rounding modes, constants and annotations, and operands with the
/// same hashes (strings are taken to fit a 64-bit length).
pub proof fn lemma_hash_words_keep_parameters(
    a: AstRef, b: AstRef, c: AstRef, n: u32, m: u32, sort: FSort, rm: FPRM, ann: Annotation, name: String, flag: bool, bv: BitVec, f: Float,
    a2: AstRef, b2: AstRef, c2: AstRef, n2: u32, m2: u32, sort2: FSort, rm2: FPRM, ann2: Annotation, name2: String, flag2: bool, bv2: BitVec, f2: Float,
)
    ensures
        (encode_utf8(name@).len() <= u64::MAX && encode_utf8(name2@).len() <= u64::MAX && op_hash_words(AstOp::BoolS(name)) == op_hash_words(AstOp::BoolS(name2))) ==> (name@ == name2@),
        (op_hash_words(AstOp::BoolV(flag)) == op_hash_words(AstOp::BoolV(flag2))) ==> (flag == flag2),
        (encode_utf8(name@).len() <= u64::MAX && encode_utf8(name2@).len() <= u64::MAX && op_hash_words(AstOp::BVS(name, n)) == op_hash_words(AstOp::BVS(name2, n2))) ==> (name@ == name2@ && n == n2),
        (op_hash_words(AstOp::BVV(bv)) == op_hash_words(AstOp::BVV(bv2))) ==> (bv.spec_len() == bv2.spec_len() && bv.spec_words() == bv2.spec_words()),
        (encode_utf8(name@).len() <= u64::MAX && encode_utf8(name2@).len() <= u64::MAX && op_hash_words(AstOp::FPS(name, sort)) == op_hash_words(AstOp::FPS(name2, sort2))) ==> (name@ == name2@ && sort == sort2),
        (f.exponent.well_formed() && f2.exponent.well_formed() && f.mantissa.well_formed() && f2.mantissa.well_formed() && op_hash_words(AstOp::FPV(f)) == op_hash_words(AstOp::FPV(f2))) ==> (f.sign == f2.sign && f.exponent.spec_len() == f2.exponent.spec_len() && f.exponent.spec_words() == f2.exponent.spec_words() && f.mantissa.spec_len() == f2.mantissa.spec_len() && f.mantissa.spec_words() == f2.mantissa.spec_words()),
        (encode_utf8(name@).len() <= u64::MAX && encode_utf8(name2@).len() <= u64::MAX && op_hash_words(AstOp::StringS(name, n)) == op_hash_words(AstOp::StringS(name2, n2))) ==> (name@ == name2@ && n == n2),
        (encode_utf8(name@).len() <= u64::MAX && encode_utf8(name2@).len() <= u64::MAX && op_hash_words(AstOp::StringV(name)) == op_hash_words(AstOp::StringV(name2))) ==> (name@ == name2@),
        (op_hash_words(AstOp::ZeroExt(a, n)) == op_hash_words(AstOp::ZeroExt(a2, n2))) ==> (a.spec_hash() == a2.spec_hash() && n == n2),
        (op_hash_words(AstOp::SignExt(a, n)) == op_hash_words(AstOp::SignExt(a2, n2))) ==> (a.spec_hash() == a2.spec_hash() && n == n2),
        (op_hash_words(AstOp::Extract(a, n, m)) == op_hash_words(AstOp::Extract(a2, n2, m2))) ==> (a.spec_hash() == a2.spec_hash() && n == n2 && m == m2),
        (op_hash_words(AstOp::FpToFp(a, sort, rm)) == op_hash_words(AstOp::FpToFp(a2, sort2, rm2))) ==> (a.spec_hash() == a2.spec_hash() && sort == sort2 && rm == rm2),
        (op_hash_words(AstOp::BvToFpUnsigned(a, sort, rm)) == op_hash_words(AstOp::BvToFpUnsigned(a2, sort2, rm2))) ==> (a.spec_hash() == a2.spec_hash() && sort == sort2 && rm == rm2),
        (op_hash_words(AstOp::FpToUBV(a, n, rm)) == op_hash_words(AstOp::FpToUBV(a2, n2, rm2))) ==> (a.spec_hash() == a2.spec_hash() && n == n2 && rm == rm2),
        (op_hash_words(AstOp::FpToSBV(a, n, rm)) == op_hash_words(AstOp::FpToSBV(a2, n2, rm2))) ==> (a.spec_hash() == a2.spec_hash() && n == n2 && rm == rm2),
        (op_hash_words(AstOp::FpNeg(a, rm)) == op_hash_words(AstOp::FpNeg(a2, rm2))) ==> (a.spec_hash() == a2.spec_hash() && rm == rm2),
        (op_hash_words(AstOp::FpAbs(a, rm)) == op_hash_words(AstOp::FpAbs(a2, rm2))) ==> (a.spec_hash() == a2.spec_hash() && rm == rm2),
        (op_hash_words(AstOp::FpSqrt(a, rm)) == op_hash_words(AstOp::FpSqrt(a2, rm2))) ==> (a.spec_hash() == a2.spec_hash() && rm == rm2),
        (op_hash_words(AstOp::FpAdd(a, b, rm)) == op_hash_words(AstOp::FpAdd(a2, b2, rm2))) ==> (a.spec_hash() == a2.spec_hash() && b.spec_hash() == b2.spec_hash() && rm == rm2),
        (op_hash_words(AstOp::FpSub(a, b, rm)) == op_hash_words(AstOp::FpSub(a2, b2, rm2))) ==> (a.spec_hash() == a2.spec_hash() && b.spec_hash() == b2.spec_hash() && rm == rm2),
        (op_hash_words(AstOp::FpMul(a, b, rm)) == op_hash_words(AstOp::FpMul(a2, b2, rm2))) ==> (a.spec_hash() == a2.spec_hash() && b.spec_hash() == b2.spec_hash() && rm == rm2),
        (op_hash_words(AstOp::FpDiv(a, b, rm)) == op_hash_words(AstOp::FpDiv(a2, b2, rm2))) ==> (a.spec_hash() == a2.spec_hash() && b.spec_hash() == b2.spec_hash() && rm == rm2),
        (op_hash_words(AstOp::StrIndexOf(a, b, c)) == op_hash_words(AstOp::StrIndexOf(a2, b2, c2))) ==> (a.spec_hash() == a2.spec_hash() && b.spec_hash() == b2.spec_hash() && c.spec_hash() == c2.spec_hash()),
        (encode_utf8(ann.name@).len() <= u64::MAX && encode_utf8(ann2.name@).len() <= u64::MAX && ann.value@.len() <= u64::MAX && ann2.value@.len() <= u64::MAX && op_hash_words(AstOp::Annotated(a, ann)) == op_hash_words(AstOp::Annotated(a2, ann2))) ==> (a.spec_hash() == a2.spec_hash() && ann@ == ann2@),
{
    lemma_hash_bools(name, name2);
    lemma_hash_boolv(flag, flag2);
    lemma_hash_bvs(name, n, name2, n2);
    lemma_hash_bvv(bv, bv2);
    lemma_hash_fps(name, sort, name2, sort2);
    lemma_hash_fpv(f, f2);
    lemma_hash_strings(name, n, name2, n2);
    lemma_hash_stringv(name, name2);
    lemma_hash_zeroext(a, n, a2, n2);
    lemma_hash_signext(a, n, a2, n2);
    lemma_hash_extract(a, n, m, a2, n2, m2);
    lemma_hash_fptofp(a, sort, rm, a2, sort2, rm2);
    lemma_hash_bvtofpunsigned(a, sort, rm, a2, sort2, rm2);
    lemma_hash_fptoubv(a, n, rm, a2, n2, rm2);
    lemma_hash_fptosbv(a, n, rm, a2, n2, rm2);
    lemma_hash_fpneg(a, rm, a2, rm2);
    lemma_hash_fpabs(a, rm, a2, rm2);
    lemma_hash_fpsqrt(a, rm, a2, rm2);
    lemma_hash_fpadd(a, b, rm, a2, b2, rm2);
    lemma_hash_fpsub(a, b, rm, a2, b2, rm2);
    lemma_hash_fpmul(a, b, rm, a2, b2, rm2);
    lemma_hash_fpdiv(a, b, rm, a2, b2, rm2);
    lemma_hash_strindexof(a, b, c, a2, b2, c2);
    lemma_hash_annotated(a, ann, a2, ann2);
}

/// Hashing `BoolS`.
proof fn lemma_hash_bools(name: String, name2: String)
    ensures
        (encode_utf8(name@).len() <= u64::MAX && encode_utf8(name2@).len() <= u64::MAX && op_hash_words(AstOp::BoolS(name)) == op_hash_words(AstOp::BoolS(name2))) ==> (name@ == name2@),
{
    if encode_utf8(name@).len() <= u64::MAX && encode_utf8(name2@).len() <= u64::MAX && op_hash_words(AstOp::BoolS(name)) == op_hash_words(AstOp::BoolS(name2)) {
        lemma_rest_of_words(AstOp::BoolS(name), AstOp::BoolS(name2));
        assert(op_param_words(AstOp::BoolS(name)) + child_hashes(op_children(AstOp::BoolS(name))) =~= str_words(name@) + (child_hashes(Seq::<AstRef>::empty())));
        assert(op_param_words(AstOp::BoolS(name2)) + child_hashes(op_children(AstOp::BoolS(name2))) =~= str_words(name2@) + (child_hashes(Seq::<AstRef>::empty())));
        lemma_str_prefix(name@, child_hashes(Seq::<AstRef>::empty()), name2@, child_hashes(Seq::<AstRef>::empty()));
    }
}

/// Hashing `BoolV`.
proof fn lemma_hash_boolv(flag: bool, flag2: bool)
    ensures
        (op_hash_words(AstOp::BoolV(flag)) == op_hash_words(AstOp::BoolV(flag2))) ==> (flag == flag2),
{
    if op_hash_words(AstOp::BoolV(flag)) == op_hash_words(AstOp::BoolV(flag2)) {
        lemma_rest_of_words(AstOp::BoolV(flag), AstOp::BoolV(flag2));
        assert(op_param_words(AstOp::BoolV(flag)) + child_hashes(op_children(AstOp::BoolV(flag))) =~= seq![bool_word(flag)] + (child_hashes(Seq::<AstRef>::empty())));
        assert(op_param_words(AstOp::BoolV(flag2)) + child_hashes(op_children(AstOp::BoolV(flag2))) =~= seq![bool_word(flag2)] + (child_hashes(Seq::<AstRef>::empty())));
        lemma_prefix((seq![bool_word(flag)]), child_hashes(Seq::<AstRef>::empty()), (seq![bool_word(flag2)]), child_hashes(Seq::<AstRef>::empty()));
        assert((seq![bool_word(flag)]).len() == (seq![bool_word(flag2)]).len());
        assert((seq![bool_word(flag)])[0] == (seq![bool_word(flag2)])[0]);
    }
}

/// Hashing `BVS`.
proof fn lemma_hash_bvs(name: String, n: u32, name2: String, n2: u32)
    ensures
        (encode_utf8(name@).len() <= u64::MAX && encode_utf8(name2@).len() <= u64::MAX && op_hash_words(AstOp::BVS(name, n)) == op_hash_words(AstOp::BVS(name2, n2))) ==> (name@ == name2@ && n == n2),
{
    if encode_utf8(name@).len() <= u64::MAX && encode_utf8(name2@).len() <= u64::MAX && op_hash_words(AstOp::BVS(name, n)) == op_hash_words(AstOp::BVS(name2, n2)) {
        lemma_rest_of_words(AstOp::BVS(name, n), AstOp::BVS(name2, n2));
        assert(op_param_words(AstOp::BVS(name, n)) + child_hashes(op_children(AstOp::BVS(name, n))) =~= str_words(name@) + (seq![n as u64] + (child_hashes(Seq::<AstRef>::empty()))));
        assert(op_param_words(AstOp::BVS(name2, n2)) + child_hashes(op_children(AstOp::BVS(name2, n2))) =~= str_words(name2@) + (seq![n2 as u64] + (child_hashes(Seq::<AstRef>::empty()))));
        lemma_str_prefix(name@, seq![n as u64] + (child_hashes(Seq::<AstRef>::empty())), name2@, seq![n2 as u64] + (child_hashes(Seq::<AstRef>::empty())));
        lemma_prefix((seq![n as u64]), child_hashes(Seq::<AstRef>::empty()), (seq![n2 as u64]), child_hashes(Seq::<AstRef>::empty()));
        assert((seq![n as u64]).len() == (seq![n2 as u64]).len());
        assert((seq![n as u64])[0] == (seq![n2 as u64])[0]);
    }
}

/// Hashing `BVV`.
proof fn lemma_hash_bvv(bv: BitVec, bv2: BitVec)
    ensures
        (op_hash_words(AstOp::BVV(bv)) == op_hash_words(AstOp::BVV(bv2))) ==> (bv.spec_len() == bv2.spec_len() && bv.spec_words() == bv2.spec_words()),
{
    bv.lemma_len_fits();
    bv2.lemma_len_fits();
    if op_hash_words(AstOp::BVV(bv)) == op_hash_words(AstOp::BVV(bv2)) {
        lemma_rest_of_words(AstOp::BVV(bv), AstOp::BVV(bv2));
        assert(op_param_words(AstOp::BVV(bv)) + child_hashes(op_children(AstOp::BVV(bv))) =~= seq![bv.spec_len() as u64] + (bv.spec_words() + (child_hashes(Seq::<AstRef>::empty()))));
        assert(op_param_words(AstOp::BVV(bv2)) + child_hashes(op_children(AstOp::BVV(bv2))) =~= seq![bv2.spec_len() as u64] + (bv2.spec_words() + (child_hashes(Seq::<AstRef>::empty()))));
        lemma_prefix((seq![bv.spec_len() as u64]), bv.spec_words() + (child_hashes(Seq::<AstRef>::empty())), (seq![bv2.spec_len() as u64]), bv2.spec_words() + (child_hashes(Seq::<AstRef>::empty())));
        assert((seq![bv.spec_len() as u64]).len() == (seq![bv2.spec_len() as u64]).len());
        assert((seq![bv.spec_len() as u64])[0] == (seq![bv2.spec_len() as u64])[0]);
        assert(bv.spec_words() + child_hashes(Seq::<AstRef>::empty()) =~= bv.spec_words());
        assert(bv2.spec_words() + child_hashes(Seq::<AstRef>::empty()) =~= bv2.spec_words());
    }
}

/// Hashing `FPS`.
proof fn lemma_hash_fps(name: String, sort: FSort, name2: String, sort2: FSort)
    ensures
        (encode_utf8(name@).len() <= u64::MAX && encode_utf8(name2@).len() <= u64::MAX && op_hash_words(AstOp::FPS(name, sort)) == op_hash_words(AstOp::FPS(name2, sort2))) ==> (name@ == name2@ && sort == sort2),
{
    if encode_utf8(name@).len() <= u64::MAX && encode_utf8(name2@).len() <= u64::MAX && op_hash_words(AstOp::FPS(name, sort)) == op_hash_words(AstOp::FPS(name2, sort2)) {
        lemma_rest_of_words(AstOp::FPS(name, sort), AstOp::FPS(name2, sort2));
        assert(op_param_words(AstOp::FPS(name, sort)) + child_hashes(op_children(AstOp::FPS(name, sort))) =~= str_words(name@) + (sort_words(sort) + (child_hashes(Seq::<AstRef>::empty()))));
        assert(op_param_words(AstOp::FPS(name2, sort2)) + child_hashes(op_children(AstOp::FPS(name2, sort2))) =~= str_words(name2@) + (sort_words(sort2) + (child_hashes(Seq::<AstRef>::empty()))));
        lemma_str_prefix(name@, sort_words(sort) + (child_hashes(Seq::<AstRef>::empty())), name2@, sort_words(sort2) + (child_hashes(Seq::<AstRef>::empty())));
        lemma_prefix((sort_words(sort)), child_hashes(Seq::<AstRef>::empty()), (sort_words(sort2)), child_hashes(Seq::<AstRef>::empty()));
        assert((sort_words(sort)).len() == (sort_words(sort2)).len());
        assert((sort_words(sort))[0] == (sort_words(sort2))[0]);
        assert((sort_words(sort))[1] == (sort_words(sort2))[1]);
    }
}

/// Hashing `FPV`.
proof fn lemma_hash_fpv(f: Float, f2: Float)
    ensures
        (f.exponent.well_formed() && f2.exponent.well_formed() && f.mantissa.well_formed() && f2.mantissa.well_formed() && op_hash_words(AstOp::FPV(f)) == op_hash_words(AstOp::FPV(f2))) ==> (f.sign == f2.sign && f.exponent.spec_len() == f2.exponent.spec_len() && f.exponent.spec_words() == f2.exponent.spec_words() && f.mantissa.spec_len() == f2.mantissa.spec_len() && f.mantissa.spec_words() == f2.mantissa.spec_words()),
{
    if f.exponent.well_formed() && f2.exponent.well_formed() && f.mantissa.well_formed() && f2.mantissa.well_formed() && op_hash_words(AstOp::FPV(f)) == op_hash_words(AstOp::FPV(f2)) {
        lemma_rest_of_words(AstOp::FPV(f), AstOp::FPV(f2));
        assert(op_param_words(AstOp::FPV(f)) + child_hashes(op_children(AstOp::FPV(f))) =~= seq![bool_word(f.sign)] + (bitvec_words(f.exponent) + (bitvec_words(f.mantissa) + (child_hashes(Seq::<AstRef>::empty())))));
        assert(op_param_words(AstOp::FPV(f2)) + child_hashes(op_children(AstOp::FPV(f2))) =~= seq![bool_word(f2.sign)] + (bitvec_words(f2.exponent) + (bitvec_words(f2.mantissa) + (child_hashes(Seq::<AstRef>::empty())))));
        lemma_prefix((seq![bool_word(f.sign)]), bitvec_words(f.exponent) + (bitvec_words(f.mantissa) + (child_hashes(Seq::<AstRef>::empty()))), (seq![bool_word(f2.sign)]), bitvec_words(f2.exponent) + (bitvec_words(f2.mantissa) + (child_hashes(Seq::<AstRef>::empty()))));
        assert((seq![bool_word(f.sign)]).len() == (seq![bool_word(f2.sign)]).len());
        assert((seq![bool_word(f.sign)])[0] == (seq![bool_word(f2.sign)])[0]);
        f.exponent.lemma_len_fits();
        f2.exponent.lemma_len_fits();
        f.exponent.lemma_words_len();
        f2.exponent.lemma_words_len();
        assert((bitvec_words(f.exponent) + (bitvec_words(f.mantissa) + (child_hashes(Seq::<AstRef>::empty()))))[0] == (bitvec_words(f2.exponent) + (bitvec_words(f2.mantissa) + (child_hashes(Seq::<AstRef>::empty()))))[0]);
        assert(f.exponent.spec_len() == f2.exponent.spec_len());
        lemma_prefix(bitvec_words(f.exponent), bitvec_words(f.mantissa) + (child_hashes(Seq::<AstRef>::empty())), bitvec_words(f2.exponent), bitvec_words(f2.mantissa) + (child_hashes(Seq::<AstRef>::empty())));
        assert(f.exponent.spec_words() =~= bitvec_words(f.exponent).subrange(1, bitvec_words(f.exponent).len() as int));
        assert(f2.exponent.spec_words() =~= bitvec_words(f2.exponent).subrange(1, bitvec_words(f2.exponent).len() as int));
        f.mantissa.lemma_len_fits();
        f2.mantissa.lemma_len_fits();
        f.mantissa.lemma_words_len();
        f2.mantissa.lemma_words_len();
        assert((bitvec_words(f.mantissa) + (child_hashes(Seq::<AstRef>::empty())))[0] == (bitvec_words(f2.mantissa) + (child_hashes(Seq::<AstRef>::empty())))[0]);
        assert(f.mantissa.spec_len() == f2.mantissa.spec_len());
        lemma_prefix(bitvec_words(f.mantissa), child_hashes(Seq::<AstRef>::empty()), bitvec_words(f2.mantissa), child_hashes(Seq::<AstRef>::empty()));
        assert(f.mantissa.spec_words() =~= bitvec_words(f.mantissa).subrange(1, bitvec_words(f.mantissa).len() as int));
        assert(f2.mantissa.spec_words() =~= bitvec_words(f2.mantissa).subrange(1, bitvec_words(f2.mantissa).len() as int));
    }
}

/// Hashing `StringS`.
proof fn lemma_hash_strings(name: String, n: u32, name2: String, n2: u32)
    ensures
        (encode_utf8(name@).len() <= u64::MAX && encode_utf8(name2@).len() <= u64::MAX && op_hash_words(AstOp::StringS(name, n)) == op_hash_words(AstOp::StringS(name2, n2))) ==> (name@ == name2@ && n == n2),
{
    if encode_utf8(name@).len() <= u64::MAX && encode_utf8(name2@).len() <= u64::MAX && op_hash_words(AstOp::StringS(name, n)) == op_hash_words(AstOp::StringS(name2, n2)) {
        lemma_rest_of_words(AstOp::StringS(name, n), AstOp::StringS(name2, n2));
        assert(op_param_words(AstOp::StringS(name, n)) + child_hashes(op_children(AstOp::StringS(name, n))) =~= str_words(name@) + (seq![n as u64] + (child_hashes(Seq::<AstRef>::empty()))));
        assert(op_param_words(AstOp::StringS(name2, n2)) + child_hashes(op_children(AstOp::StringS(name2, n2))) =~= str_words(name2@) + (seq![n2 as u64] + (child_hashes(Seq::<AstRef>::empty()))));
        lemma_str_prefix(name@, seq![n as u64] + (child_hashes(Seq::<AstRef>::empty())), name2@, seq![n2 as u64] + (child_hashes(Seq::<AstRef>::empty())));
        lemma_prefix((seq![n as u64]), child_hashes(Seq::<AstRef>::empty()), (seq![n2 as u64]), child_hashes(Seq::<AstRef>::empty()));
        assert((seq![n as u64]).len() == (seq![n2 as u64]).len());
        assert((seq![n as u64])[0] == (seq![n2 as u64])[0]);
    }
}

/// Hashing `StringV`.
proof fn lemma_hash_stringv(name: String, name2: String)
    ensures
        (encode_utf8(name@).len() <= u64::MAX && encode_utf8(name2@).len() <= u64::MAX && op_hash_words(AstOp::StringV(name)) == op_hash_words(AstOp::StringV(name2))) ==> (name@ == name2@),
{
    if encode_utf8(name@).len() <= u64::MAX && encode_utf8(name2@).len() <= u64::MAX && op_hash_words(AstOp::StringV(name)) == op_hash_words(AstOp::StringV(name2)) {
        lemma_rest_of_words(AstOp::StringV(name), AstOp::StringV(name2));
        assert(op_param_words(AstOp::StringV(name)) + child_hashes(op_children(AstOp::StringV(name))) =~= str_words(name@) + (child_hashes(Seq::<AstRef>::empty())));
        assert(op_param_words(AstOp::StringV(name2)) + child_hashes(op_children(AstOp::StringV(name2))) =~= str_words(name2@) + (child_hashes(Seq::<AstRef>::empty())));
        lemma_str_prefix(name@, child_hashes(Seq::<AstRef>::empty()), name2@, child_hashes(Seq::<AstRef>::empty()));
    }
}

/// Hashing `ZeroExt`.
proof fn lemma_hash_zeroext(a: AstRef, n: u32, a2: AstRef, n2: u32)
    ensures
        (op_hash_words(AstOp::ZeroExt(a, n)) == op_hash_words(AstOp::ZeroExt(a2, n2))) ==> (a.spec_hash() == a2.spec_hash() && n == n2),
{
    if op_hash_words(AstOp::ZeroExt(a, n)) == op_hash_words(AstOp::ZeroExt(a2, n2)) {
        lemma_rest_of_words(AstOp::ZeroExt(a, n), AstOp::ZeroExt(a2, n2));
        assert(op_param_words(AstOp::ZeroExt(a, n)) + child_hashes(op_children(AstOp::ZeroExt(a, n))) =~= seq![n as u64] + (child_hashes(seq![a])));
        assert(op_param_words(AstOp::ZeroExt(a2, n2)) + child_hashes(op_children(AstOp::ZeroExt(a2, n2))) =~= seq![n2 as u64] + (child_hashes(seq![a2])));
        lemma_prefix((seq![n as u64]), child_hashes(seq![a]), (seq![n2 as u64]), child_hashes(seq![a2]));
        assert((seq![n as u64]).len() == (seq![n2 as u64]).len());
        assert((seq![n as u64])[0] == (seq![n2 as u64])[0]);
        assert(child_hashes(seq![a])[0] == a.spec_hash());
        assert(child_hashes(seq![a2])[0] == a2.spec_hash());
    }
}

/// Hashing `SignExt`.
proof fn lemma_hash_signext(a: AstRef, n: u32, a2: AstRef, n2: u32)
    ensures
        (op_hash_words(AstOp::SignExt(a, n)) == op_hash_words(AstOp::SignExt(a2, n2))) ==> (a.spec_hash() == a2.spec_hash() && n == n2),
{
    if op_hash_words(AstOp::SignExt(a, n)) == op_hash_words(AstOp::SignExt(a2, n2)) {
        lemma_rest_of_words(AstOp::SignExt(a, n), AstOp::SignExt(a2, n2));
        assert(op_param_words(AstOp::SignExt(a, n)) + child_hashes(op_children(AstOp::SignExt(a, n))) =~= seq![n as u64] + (child_hashes(seq![a])));
        assert(op_param_words(AstOp::SignExt(a2, n2)) + child_hashes(op_children(AstOp::SignExt(a2, n2))) =~= seq![n2 as u64] + (child_hashes(seq![a2])));
        lemma_prefix((seq![n as u64]), child_hashes(seq![a]), (seq![n2 as u64]), child_hashes(seq![a2]));
        assert((seq![n as u64]).len() == (seq![n2 as u64]).len());
        assert((seq![n as u64])[0] == (seq![n2 as u64])[0]);
        assert(child_hashes(seq![a])[0] == a.spec_hash());
        assert(child_hashes(seq![a2])[0] == a2.spec_hash());
    }
}

/// Hashing `Extract`.
proof fn lemma_hash_extract(a: AstRef, n: u32, m: u32, a2: AstRef, n2: u32, m2: u32)
    ensures
        (op_hash_words(AstOp::Extract(a, n, m)) == op_hash_words(AstOp::Extract(a2, n2, m2))) ==> (a.spec_hash() == a2.spec_hash() && n == n2 && m == m2),
{
    if op_hash_words(AstOp::Extract(a, n, m)) == op_hash_words(AstOp::Extract(a2, n2, m2)) {
        lemma_rest_of_words(AstOp::Extract(a, n, m), AstOp::Extract(a2, n2, m2));
        assert(op_param_words(AstOp::Extract(a, n, m)) + child_hashes(op_children(AstOp::Extract(a, n, m))) =~= seq![n as u64, m as u64] + (child_hashes(seq![a])));
        assert(op_param_words(AstOp::Extract(a2, n2, m2)) + child_hashes(op_children(AstOp::Extract(a2, n2, m2))) =~= seq![n2 as u64, m2 as u64] + (child_hashes(seq![a2])));
        lemma_prefix((seq![n as u64, m as u64]), child_hashes(seq![a]), (seq![n2 as u64, m2 as u64]), child_hashes(seq![a2]));
        assert((seq![n as u64, m as u64]).len() == (seq![n2 as u64, m2 as u64]).len());
        assert((seq![n as u64, m as u64])[0] == (seq![n2 as u64, m2 as u64])[0]);
        assert((seq![n as u64, m as u64])[1] == (seq![n2 as u64, m2 as u64])[1]);
        assert(child_hashes(seq![a])[0] == a.spec_hash());
        assert(child_hashes(seq![a2])[0] == a2.spec_hash());
    }
}

/// Hashing `FpToFp`.
proof fn lemma_hash_fptofp(a: AstRef, sort: FSort, rm: FPRM, a2: AstRef, sort2: FSort, rm2: FPRM)
    ensures
        (op_hash_words(AstOp::FpToFp(a, sort, rm)) == op_hash_words(AstOp::FpToFp(a2, sort2, rm2))) ==> (a.spec_hash() == a2.spec_hash() && sort == sort2 && rm == rm2),
{
    if op_hash_words(AstOp::FpToFp(a, sort, rm)) == op_hash_words(AstOp::FpToFp(a2, sort2, rm2)) {
        lemma_rest_of_words(AstOp::FpToFp(a, sort, rm), AstOp::FpToFp(a2, sort2, rm2));
        assert(op_param_words(AstOp::FpToFp(a, sort, rm)) + child_hashes(op_children(AstOp::FpToFp(a, sort, rm))) =~= sort_words(sort) + seq![rounding_mode_code(rm)] + (child_hashes(seq![a])));
        assert(op_param_words(AstOp::FpToFp(a2, sort2, rm2)) + child_hashes(op_children(AstOp::FpToFp(a2, sort2, rm2))) =~= sort_words(sort2) + seq![rounding_mode_code(rm2)] + (child_hashes(seq![a2])));
        lemma_prefix((sort_words(sort) + seq![rounding_mode_code(rm)]), child_hashes(seq![a]), (sort_words(sort2) + seq![rounding_mode_code(rm2)]), child_hashes(seq![a2]));
        assert((sort_words(sort) + seq![rounding_mode_code(rm)]).len() == (sort_words(sort2) + seq![rounding_mode_code(rm2)]).len());
        assert((sort_words(sort) + seq![rounding_mode_code(rm)])[0] == (sort_words(sort2) + seq![rounding_mode_code(rm2)])[0]);
        assert((sort_words(sort) + seq![rounding_mode_code(rm)])[1] == (sort_words(sort2) + seq![rounding_mode_code(rm2)])[1]);
        assert((sort_words(sort) + seq![rounding_mode_code(rm)])[2] == (sort_words(sort2) + seq![rounding_mode_code(rm2)])[2]);
        assert(child_hashes(seq![a])[0] == a.spec_hash());
        assert(child_hashes(seq![a2])[0] == a2.spec_hash());
    }
}

/// Hashing `BvToFpUnsigned`.
proof fn lemma_hash_bvtofpunsigned(a: AstRef, sort: FSort, rm: FPRM, a2: AstRef, sort2: FSort, rm2: FPRM)
    ensures
        (op_hash_words(AstOp::BvToFpUnsigned(a, sort, rm)) == op_hash_words(AstOp::BvToFpUnsigned(a2, sort2, rm2))) ==> (a.spec_hash() == a2.spec_hash() && sort == sort2 && rm == rm2),
{
    if op_hash_words(AstOp::BvToFpUnsigned(a, sort, rm)) == op_hash_words(AstOp::BvToFpUnsigned(a2, sort2, rm2)) {
        lemma_rest_of_words(AstOp::BvToFpUnsigned(a, sort, rm), AstOp::BvToFpUnsigned(a2, sort2, rm2));
        assert(op_param_words(AstOp::BvToFpUnsigned(a, sort, rm)) + child_hashes(op_children(AstOp::BvToFpUnsigned(a, sort, rm))) =~= sort_words(sort) + seq![rounding_mode_code(rm)] + (child_hashes(seq![a])));
        assert(op_param_words(AstOp::BvToFpUnsigned(a2, sort2, rm2)) + child_hashes(op_children(AstOp::BvToFpUnsigned(a2, sort2, rm2))) =~= sort_words(sort2) + seq![rounding_mode_code(rm2)] + (child_hashes(seq![a2])));
        lemma_prefix((sort_words(sort) + seq![rounding_mode_code(rm)]), child_hashes(seq![a]), (sort_words(sort2) + seq![rounding_mode_code(rm2)]), child_hashes(seq![a2]));
        assert((sort_words(sort) + seq![rounding_mode_code(rm)]).len() == (sort_words(sort2) + seq![rounding_mode_code(rm2)]).len());
        assert((sort_words(sort) + seq![rounding_mode_code(rm)])[0] == (sort_words(sort2) + seq![rounding_mode_code(rm2)])[0]);
        assert((sort_words(sort) + seq![rounding_mode_code(rm)])[1] == (sort_words(sort2) + seq![rounding_mode_code(rm2)])[1]);
        assert((sort_words(sort) + seq![rounding_mode_code(rm)])[2] == (sort_words(sort2) + seq![rounding_mode_code(rm2)])[2]);
        assert(child_hashes(seq![a])[0] == a.spec_hash());
        assert(child_hashes(seq![a2])[0] == a2.spec_hash());
    }
}

/// Hashing `FpToUBV`.
proof fn lemma_hash_fptoubv(a: AstRef, n: u32, rm: FPRM, a2: AstRef, n2: u32, rm2: FPRM)
    ensures
        (op_hash_words(AstOp::FpToUBV(a, n, rm)) == op_hash_words(AstOp::FpToUBV(a2, n2, rm2))) ==> (a.spec_hash() == a2.spec_hash() && n == n2 && rm == rm2),
{
    if op_hash_words(AstOp::FpToUBV(a, n, rm)) == op_hash_words(AstOp::FpToUBV(a2, n2, rm2)) {
        lemma_rest_of_words(AstOp::FpToUBV(a, n, rm), AstOp::FpToUBV(a2, n2, rm2));
        assert(op_param_words(AstOp::FpToUBV(a, n, rm)) + child_hashes(op_children(AstOp::FpToUBV(a, n, rm))) =~= seq![n as u64, rounding_mode_code(rm)] + (child_hashes(seq![a])));
        assert(op_param_words(AstOp::FpToUBV(a2, n2, rm2)) + child_hashes(op_children(AstOp::FpToUBV(a2, n2, rm2))) =~= seq![n2 as u64, rounding_mode_code(rm2)] + (child_hashes(seq![a2])));
        lemma_prefix((seq![n as u64, rounding_mode_code(rm)]), child_hashes(seq![a]), (seq![n2 as u64, rounding_mode_code(rm2)]), child_hashes(seq![a2]));
        assert((seq![n as u64, rounding_mode_code(rm)]).len() == (seq![n2 as u64, rounding_mode_code(rm2)]).len());
        assert((seq![n as u64, rounding_mode_code(rm)])[0] == (seq![n2 as u64, rounding_mode_code(rm2)])[0]);
        assert((seq![n as u64, rounding_mode_code(rm)])[1] == (seq![n2 as u64, rounding_mode_code(rm2)])[1]);
        assert(child_hashes(seq![a])[0] == a.spec_hash());
        assert(child_hashes(seq![a2])[0] == a2.spec_hash());
    }
}

/// Hashing `FpToSBV`.
proof fn lemma_hash_fptosbv(a: AstRef, n: u32, rm: FPRM, a2: AstRef, n2: u32, rm2: FPRM)
    ensures
        (op_hash_words(AstOp::FpToSBV(a, n, rm)) == op_hash_words(AstOp::FpToSBV(a2, n2, rm2))) ==> (a.spec_hash() == a2.spec_hash() && n == n2 && rm == rm2),
{
    if op_hash_words(AstOp::FpToSBV(a, n, rm)) == op_hash_words(AstOp::FpToSBV(a2, n2, rm2)) {
        lemma_rest_of_words(AstOp::FpToSBV(a, n, rm), AstOp::FpToSBV(a2, n2, rm2));
        assert(op_param_words(AstOp::FpToSBV(a, n, rm)) + child_hashes(op_children(AstOp::FpToSBV(a, n, rm))) =~= seq![n as u64, rounding_mode_code(rm)] + (child_hashes(seq![a])));
        assert(op_param_words(AstOp::FpToSBV(a2, n2, rm2)) + child_hashes(op_children(AstOp::FpToSBV(a2, n2, rm2))) =~= seq![n2 as u64, rounding_mode_code(rm2)] + (child_hashes(seq![a2])));
        lemma_prefix((seq![n as u64, rounding_mode_code(rm)]), child_hashes(seq![a]), (seq![n2 as u64, rounding_mode_code(rm2)]), child_hashes(seq![a2]));
        assert((seq![n as u64, rounding_mode_code(rm)]).len() == (seq![n2 as u64, rounding_mode_code(rm2)]).len());
        assert((seq![n as u64, rounding_mode_code(rm)])[0] == (seq![n2 as u64, rounding_mode_code(rm2)])[0]);
        assert((seq![n as u64, rounding_mode_code(rm)])[1] == (seq![n2 as u64, rounding_mode_code(rm2)])[1]);
        assert(child_hashes(seq![a])[0] == a.spec_hash());
        assert(child_hashes(seq![a2])[0] == a2.spec_hash());
    }
}

/// Hashing `FpNeg`.
proof fn lemma_hash_fpneg(a: AstRef, rm: FPRM, a2: AstRef, rm2: FPRM)
    ensures
        (op_hash_words(AstOp::FpNeg(a, rm)) == op_hash_words(AstOp::FpNeg(a2, rm2))) ==> (a.spec_hash() == a2.spec_hash() && rm == rm2),
{
    if op_hash_words(AstOp::FpNeg(a, rm)) == op_hash_words(AstOp::FpNeg(a2, rm2)) {
        lemma_rest_of_words(AstOp::FpNeg(a, rm), AstOp::FpNeg(a2, rm2));
        assert(op_param_words(AstOp::FpNeg(a, rm)) + child_hashes(op_children(AstOp::FpNeg(a, rm))) =~= seq![rounding_mode_code(rm)] + (child_hashes(seq![a])));
        assert(op_param_words(AstOp::FpNeg(a2, rm2)) + child_hashes(op_children(AstOp::FpNeg(a2, rm2))) =~= seq![rounding_mode_code(rm2)] + (child_hashes(seq![a2])));
        lemma_prefix((seq![rounding_mode_code(rm)]), child_hashes(seq![a]), (seq![rounding_mode_code(rm2)]), child_hashes(seq![a2]));
        assert((seq![rounding_mode_code(rm)]).len() == (seq![rounding_mode_code(rm2)]).len());
        assert((seq![rounding_mode_code(rm)])[0] == (seq![rounding_mode_code(rm2)])[0]);
        assert(child_hashes(seq![a])[0] == a.spec_hash());
        assert(child_hashes(seq![a2])[0] == a2.spec_hash());
    }
}

/// Hashing `FpAbs`.
proof fn lemma_hash_fpabs(a: AstRef, rm: FPRM, a2: AstRef, rm2: FPRM)
    ensures
        (op_hash_words(AstOp::FpAbs(a, rm)) == op_hash_words(AstOp::FpAbs(a2, rm2))) ==> (a.spec_hash() == a2.spec_hash() && rm == rm2),
{
    if op_hash_words(AstOp::FpAbs(a, rm)) == op_hash_words(AstOp::FpAbs(a2, rm2)) {
        lemma_rest_of_words(AstOp::FpAbs(a, rm), AstOp::FpAbs(a2, rm2));
        assert(op_param_words(AstOp::FpAbs(a, rm)) + child_hashes(op_children(AstOp::FpAbs(a, rm))) =~= seq![rounding_mode_code(rm)] + (child_hashes(seq![a])));
        assert(op_param_words(AstOp::FpAbs(a2, rm2)) + child_hashes(op_children(AstOp::FpAbs(a2, rm2))) =~= seq![rounding_mode_code(rm2)] + (child_hashes(seq![a2])));
        lemma_prefix((seq![rounding_mode_code(rm)]), child_hashes(seq![a]), (seq![rounding_mode_code(rm2)]), child_hashes(seq![a2]));
        assert((seq![rounding_mode_code(rm)]).len() == (seq![rounding_mode_code(rm2)]).len());
        assert((seq![rounding_mode_code(rm)])[0] == (seq![rounding_mode_code(rm2)])[0]);
        assert(child_hashes(seq![a])[0] == a.spec_hash());
        assert(child_hashes(seq![a2])[0] == a2.spec_hash());
    }
}

/// Hashing `FpSqrt`.
proof fn lemma_hash_fpsqrt(a: AstRef, rm: FPRM, a2: AstRef, rm2: FPRM)
    ensures
        (op_hash_words(AstOp::FpSqrt(a, rm)) == op_hash_words(AstOp::FpSqrt(a2, rm2))) ==> (a.spec_hash() == a2.spec_hash() && rm == rm2),
{
    if op_hash_words(AstOp::FpSqrt(a, rm)) == op_hash_words(AstOp::FpSqrt(a2, rm2)) {
        lemma_rest_of_words(AstOp::FpSqrt(a, rm), AstOp::FpSqrt(a2, rm2));
        assert(op_param_words(AstOp::FpSqrt(a, rm)) + child_hashes(op_children(AstOp::FpSqrt(a, rm))) =~= seq![rounding_mode_code(rm)] + (child_hashes(seq![a])));
        assert(op_param_words(AstOp::FpSqrt(a2, rm2)) + child_hashes(op_children(AstOp::FpSqrt(a2, rm2))) =~= seq![rounding_mode_code(rm2)] + (child_hashes(seq![a2])));
        lemma_prefix((seq![rounding_mode_code(rm)]), child_hashes(seq![a]), (seq![rounding_mode_code(rm2)]), child_hashes(seq![a2]));
        assert((seq![rounding_mode_code(rm)]).len() == (seq![rounding_mode_code(rm2)]).len());
        assert((seq![rounding_mode_code(rm)])[0] == (seq![rounding_mode_code(rm2)])[0]);
        assert(child_hashes(seq![a])[0] == a.spec_hash());
        assert(child_hashes(seq![a2])[0] == a2.spec_hash());
    }
}

/// Hashing `FpAdd`.
proof fn lemma_hash_fpadd(a: AstRef, b: AstRef, rm: FPRM, a2: AstRef, b2: AstRef, rm2: FPRM)
    ensures
        (op_hash_words(AstOp::FpAdd(a, b, rm)) == op_hash_words(AstOp::FpAdd(a2, b2, rm2))) ==> (a.spec_hash() == a2.spec_hash() && b.spec_hash() == b2.spec_hash() && rm == rm2),
{
    if op_hash_words(AstOp::FpAdd(a, b, rm)) == op_hash_words(AstOp::FpAdd(a2, b2, rm2)) {
        lemma_rest_of_words(AstOp::FpAdd(a, b, rm), AstOp::FpAdd(a2, b2, rm2));
        assert(op_param_words(AstOp::FpAdd(a, b, rm)) + child_hashes(op_children(AstOp::FpAdd(a, b, rm))) =~= seq![rounding_mode_code(rm)] + (child_hashes(seq![a, b])));
        assert(op_param_words(AstOp::FpAdd(a2, b2, rm2)) + child_hashes(op_children(AstOp::FpAdd(a2, b2, rm2))) =~= seq![rounding_mode_code(rm2)] + (child_hashes(seq![a2, b2])));
        lemma_prefix((seq![rounding_mode_code(rm)]), child_hashes(seq![a, b]), (seq![rounding_mode_code(rm2)]), child_hashes(seq![a2, b2]));
        assert((seq![rounding_mode_code(rm)]).len() == (seq![rounding_mode_code(rm2)]).len());
        assert((seq![rounding_mode_code(rm)])[0] == (seq![rounding_mode_code(rm2)])[0]);
        assert(child_hashes(seq![a, b])[0] == a.spec_hash());
        assert(child_hashes(seq![a2, b2])[0] == a2.spec_hash());
        assert(child_hashes(seq![a, b])[1] == b.spec_hash());
        assert(child_hashes(seq![a2, b2])[1] == b2.spec_hash());
    }
}

/// Hashing `FpSub`.
proof fn lemma_hash_fpsub(a: AstRef, b: AstRef, rm: FPRM, a2: AstRef, b2: AstRef, rm2: FPRM)
    ensures
        (op_hash_words(AstOp::FpSub(a, b, rm)) == op_hash_words(AstOp::FpSub(a2, b2, rm2))) ==> (a.spec_hash() == a2.spec_hash() && b.spec_hash() == b2.spec_hash() && rm == rm2),
{
    if op_hash_words(AstOp::FpSub(a, b, rm)) == op_hash_words(AstOp::FpSub(a2, b2, rm2)) {
        lemma_rest_of_words(AstOp::FpSub(a, b, rm), AstOp::FpSub(a2, b2, rm2));
        assert(op_param_words(AstOp::FpSub(a, b, rm)) + child_hashes(op_children(AstOp::FpSub(a, b, rm))) =~= seq![rounding_mode_code(rm)] + (child_hashes(seq![a, b])));
        assert(op_param_words(AstOp::FpSub(a2, b2, rm2)) + child_hashes(op_children(AstOp::FpSub(a2, b2, rm2))) =~= seq![rounding_mode_code(rm2)] + (child_hashes(seq![a2, b2])));
        lemma_prefix((seq![rounding_mode_code(rm)]), child_hashes(seq![a, b]), (seq![rounding_mode_code(rm2)]), child_hashes(seq![a2, b2]));
        assert((seq![rounding_mode_code(rm)]).len() == (seq![rounding_mode_code(rm2)]).len());
        assert((seq![rounding_mode_code(rm)])[0] == (seq![rounding_mode_code(rm2)])[0]);
        assert(child_hashes(seq![a, b])[0] == a.spec_hash());
        assert(child_hashes(seq![a2, b2])[0] == a2.spec_hash());
        assert(child_hashes(seq![a, b])[1] == b.spec_hash());
        assert(child_hashes(seq![a2, b2])[1] == b2.spec_hash());
    }
}

/// Hashing `FpMul`.
proof fn lemma_hash_fpmul(a: AstRef, b: AstRef, rm: FPRM, a2: AstRef, b2: AstRef, rm2: FPRM)
    ensures
        (op_hash_words(AstOp::FpMul(a, b, rm)) == op_hash_words(AstOp::FpMul(a2, b2, rm2))) ==> (a.spec_hash() == a2.spec_hash() && b.spec_hash() == b2.spec_hash() && rm == rm2),
{
    if op_hash_words(AstOp::FpMul(a, b, rm)) == op_hash_words(AstOp::FpMul(a2, b2, rm2)) {
        lemma_rest_of_words(AstOp::FpMul(a, b, rm), AstOp::FpMul(a2, b2, rm2));
        assert(op_param_words(AstOp::FpMul(a, b, rm)) + child_hashes(op_children(AstOp::FpMul(a, b, rm))) =~= seq![rounding_mode_code(rm)] + (child_hashes(seq![a, b])));
        assert(op_param_words(AstOp::FpMul(a2, b2, rm2)) + child_hashes(op_children(AstOp::FpMul(a2, b2, rm2))) =~= seq![rounding_mode_code(rm2)] + (child_hashes(seq![a2, b2])));
        lemma_prefix((seq![rounding_mode_code(rm)]), child_hashes(seq![a, b]), (seq![rounding_mode_code(rm2)]), child_hashes(seq![a2, b2]));
        assert((seq![rounding_mode_code(rm)]).len() == (seq![rounding_mode_code(rm2)]).len());
        assert((seq![rounding_mode_code(rm)])[0] == (seq![rounding_mode_code(rm2)])[0]);
        assert(child_hashes(seq![a, b])[0] == a.spec_hash());
        assert(child_hashes(seq![a2, b2])[0] == a2.spec_hash());
        assert(child_hashes(seq![a, b])[1] == b.spec_hash());
        assert(child_hashes(seq![a2, b2])[1] == b2.spec_hash());
    }
}

/// Hashing `FpDiv`.
proof fn lemma_hash_fpdiv(a: AstRef, b: AstRef, rm: FPRM, a2: AstRef, b2: AstRef, rm2: FPRM)
    ensures
        (op_hash_words(AstOp::FpDiv(a, b, rm)) == op_hash_words(AstOp::FpDiv(a2, b2, rm2))) ==> (a.spec_hash() == a2.spec_hash() && b.spec_hash() == b2.spec_hash() && rm == rm2),
{
    if op_hash_words(AstOp::FpDiv(a, b, rm)) == op_hash_words(AstOp::FpDiv(a2, b2, rm2)) {
        lemma_rest_of_words(AstOp::FpDiv(a, b, rm), AstOp::FpDiv(a2, b2, rm2));
        assert(op_param_words(AstOp::FpDiv(a, b, rm)) + child_hashes(op_children(AstOp::FpDiv(a, b, rm))) =~= seq![rounding_mode_code(rm)] + (child_hashes(seq![a, b])));
        assert(op_param_words(AstOp::FpDiv(a2, b2, rm2)) + child_hashes(op_children(AstOp::FpDiv(a2, b2, rm2))) =~= seq![rounding_mode_code(rm2)] + (child_hashes(seq![a2, b2])));
        lemma_prefix((seq![rounding_mode_code(rm)]), child_hashes(seq![a, b]), (seq![rounding_mode_code(rm2)]), child_hashes(seq![a2, b2]));
        assert((seq![rounding_mode_code(rm)]).len() == (seq![rounding_mode_code(rm2)]).len());
        assert((seq![rounding_mode_code(rm)])[0] == (seq![rounding_mode_code(rm2)])[0]);
        assert(child_hashes(seq![a, b])[0] == a.spec_hash());
        assert(child_hashes(seq![a2, b2])[0] == a2.spec_hash());
        assert(child_hashes(seq![a, b])[1] == b.spec_hash());
        assert(child_hashes(seq![a2, b2])[1] == b2.spec_hash());
    }
}

/// Hashing `StrIndexOf`.
proof fn lemma_hash_strindexof(a: AstRef, b: AstRef, c: AstRef, a2: AstRef, b2: AstRef, c2: AstRef)
    ensures
        (op_hash_words(AstOp::StrIndexOf(a, b, c)) == op_hash_words(AstOp::StrIndexOf(a2, b2, c2))) ==> (a.spec_hash() == a2.spec_hash() && b.spec_hash() == b2.spec_hash() && c.spec_hash() == c2.spec_hash()),
{
    if op_hash_words(AstOp::StrIndexOf(a, b, c)) == op_hash_words(AstOp::StrIndexOf(a2, b2, c2)) {
        lemma_rest_of_words(AstOp::StrIndexOf(a, b, c), AstOp::StrIndexOf(a2, b2, c2));
        assert(op_param_words(AstOp::StrIndexOf(a, b, c)) + child_hashes(op_children(AstOp::StrIndexOf(a, b, c))) =~= seq![c.spec_hash()] + (child_hashes(seq![a, b])));
        assert(op_param_words(AstOp::StrIndexOf(a2, b2, c2)) + child_hashes(op_children(AstOp::StrIndexOf(a2, b2, c2))) =~= seq![c2.spec_hash()] + (child_hashes(seq![a2, b2])));
        lemma_prefix((seq![c.spec_hash()]), child_hashes(seq![a, b]), (seq![c2.spec_hash()]), child_hashes(seq![a2, b2]));
        assert((seq![c.spec_hash()]).len() == (seq![c2.spec_hash()]).len());
        assert((seq![c.spec_hash()])[0] == (seq![c2.spec_hash()])[0]);
        assert(child_hashes(seq![a, b])[0] == a.spec_hash());
        assert(child_hashes(seq![a2, b2])[0] == a2.spec_hash());
        assert(child_hashes(seq![a, b])[1] == b.spec_hash());
        assert(child_hashes(seq![a2, b2])[1] == b2.spec_hash());
    }
}

/// Hashing `Annotated`.
proof fn lemma_hash_annotated(a: AstRef, ann: Annotation, a2: AstRef, ann2: Annotation)
    ensures
        (encode_utf8(ann.name@).len() <= u64::MAX && encode_utf8(ann2.name@).len() <= u64::MAX && ann.value@.len() <= u64::MAX && ann2.value@.len() <= u64::MAX && op_hash_words(AstOp::Annotated(a, ann)) == op_hash_words(AstOp::Annotated(a2, ann2))) ==> (a.spec_hash() == a2.spec_hash() && ann@ == ann2@),
{
    if encode_utf8(ann.name@).len() <= u64::MAX && encode_utf8(ann2.name@).len() <= u64::MAX && ann.value@.len() <= u64::MAX && ann2.value@.len() <= u64::MAX && op_hash_words(AstOp::Annotated(a, ann)) == op_hash_words(AstOp::Annotated(a2, ann2)) {
        lemma_rest_of_words(AstOp::Annotated(a, ann), AstOp::Annotated(a2, ann2));
        assert(op_param_words(AstOp::Annotated(a, ann)) + child_hashes(op_children(AstOp::Annotated(a, ann))) =~= str_words(ann.name@) + (bytes_words(ann.value@) + (seq![bool_word(ann.eliminatable), bool_word(ann.relocatable)] + (child_hashes(seq![a])))));
        assert(op_param_words(AstOp::Annotated(a2, ann2)) + child_hashes(op_children(AstOp::Annotated(a2, ann2))) =~= str_words(ann2.name@) + (bytes_words(ann2.value@) + (seq![bool_word(ann2.eliminatable), bool_word(ann2.relocatable)] + (child_hashes(seq![a2])))));
        lemma_str_prefix(ann.name@, bytes_words(ann.value@) + (seq![bool_word(ann.eliminatable), bool_word(ann.relocatable)] + (child_hashes(seq![a]))), ann2.name@, bytes_words(ann2.value@) + (seq![bool_word(ann2.eliminatable), bool_word(ann2.relocatable)] + (child_hashes(seq![a2]))));
        lemma_bytes_prefix(ann.value@, seq![bool_word(ann.eliminatable), bool_word(ann.relocatable)] + (child_hashes(seq![a])), ann2.value@, seq![bool_word(ann2.eliminatable), bool_word(ann2.relocatable)] + (child_hashes(seq![a2])));
        lemma_prefix((seq![bool_word(ann.eliminatable), bool_word(ann.relocatable)]), child_hashes(seq![a]), (seq![bool_word(ann2.eliminatable), bool_word(ann2.relocatable)]), child_hashes(seq![a2]));
        assert((seq![bool_word(ann.eliminatable), bool_word(ann.relocatable)]).len() == (seq![bool_word(ann2.eliminatable), bool_word(ann2.relocatable)]).len());
        assert((seq![bool_word(ann.eliminatable), bool_word(ann.relocatable)])[0] == (seq![bool_word(ann2.eliminatable), bool_word(ann2.relocatable)])[0]);
        assert((seq![bool_word(ann.eliminatable), bool_word(ann.relocatable)])[1] == (seq![bool_word(ann2.eliminatable), bool_word(ann2.relocatable)])[1]);
        assert(child_hashes(seq![a])[0] == a.spec_hash());
        assert(child_hashes(seq![a2])[0] == a2.spec_hash());
    }
}

/// Hashing keeps every operand: two operations of the same kind whose hashed
/// words are equal have operands with the same hashes, position by position.
pub proof fn lemma_hash_words_keep_operands(
    a: AstRef, b: AstRef, c: AstRef, n: u32, m: u32, sort: FSort, rm: FPRM, ann: Annotation, name: String, flag: bool, bv: BitVec, f: Float,
    a2: AstRef, b2: AstRef, c2: AstRef, n2: u32, m2: u32, sort2: FSort, rm2: FPRM, ann2: Annotation, name2: String, flag2: bool, bv2: BitVec, f2: Float,
)
    ensures
        (op_hash_words(AstOp::Not(a)) == op_hash_words(AstOp::Not(a2))) ==> (a.spec_hash() == a2.spec_hash()),
        (op_hash_words(AstOp::And(a, b)) == op_hash_words(AstOp::And(a2, b2))) ==> (a.spec_hash() == a2.spec_hash() && b.spec_hash() == b2.spec_hash()),
        (op_hash_words(AstOp::Or(a, b)) == op_hash_words(AstOp::Or(a2, b2))) ==> (a.spec_hash() == a2.spec_hash() && b.spec_hash() == b2.spec_hash()),
        (op_hash_words(AstOp::Xor(a, b)) == op_hash_words(AstOp::Xor(a2, b2))) ==> (a.spec_hash() == a2.spec_hash() && b.spec_hash() == b2.spec_hash()),
        (op_hash_words(AstOp::Add(a, b)) == op_hash_words(AstOp::Add(a2, b2))) ==> (a.spec_hash() == a2.spec_hash() && b.spec_hash() == b2.spec_hash()),
        (op_hash_words(AstOp::Sub(a, b)) == op_hash_words(AstOp::Sub(a2, b2))) ==> (a.spec_hash() == a2.spec_hash() && b.spec_hash() == b2.spec_hash()),
        (op_hash_words(AstOp::Mul(a, b)) == op_hash_words(AstOp::Mul(a2, b2))) ==> (a.spec_hash() == a2.spec_hash() && b.spec_hash() == b2.spec_hash()),
        (op_hash_words(AstOp::UDiv(a, b)) == op_hash_words(AstOp::UDiv(a2, b2))) ==> (a.spec_hash() == a2.spec_hash() && b.spec_hash() == b2.spec_hash()),
        (op_hash_words(AstOp::SDiv(a, b)) == op_hash_words(AstOp::SDiv(a2, b2))) ==> (a.spec_hash() == a2.spec_hash() && b.spec_hash() == b2.spec_hash()),
        (op_hash_words(AstOp::URem(a, b)) == op_hash_words(AstOp::URem(a2, b2))) ==> (a.spec_hash() == a2.spec_hash() && b.spec_hash() == b2.spec_hash()),
        (op_hash_words(AstOp::SRem(a, b)) == op_hash_words(AstOp::SRem(a2, b2))) ==> (a.spec_hash() == a2.spec_hash() && b.spec_hash() == b2.spec_hash()),
        (op_hash_words(AstOp::Pow(a, b)) == op_hash_words(AstOp::Pow(a2, b2))) ==> (a.spec_hash() == a2.spec_hash() && b.spec_hash() == b2.spec_hash()),
        (op_hash_words(AstOp::LShL(a, b)) == op_hash_words(AstOp::LShL(a2, b2))) ==> (a.spec_hash() == a2.spec_hash() && b.spec_hash() == b2.spec_hash()),
        (op_hash_words(AstOp::LShR(a, b)) == op_hash_words(AstOp::LShR(a2, b2))) ==> (a.spec_hash() == a2.spec_hash() && b.spec_hash() == b2.spec_hash()),
        (op_hash_words(AstOp::AShL(a, b)) == op_hash_words(AstOp::AShL(a2, b2))) ==> (a.spec_hash() == a2.spec_hash() && b.spec_hash() == b2.spec_hash()),
        (op_hash_words(AstOp::AShR(a, b)) == op_hash_words(AstOp::AShR(a2, b2))) ==> (a.spec_hash() == a2.spec_hash() && b.spec_hash() == b2.spec_hash()),
        (op_hash_words(AstOp::RotateLeft(a, b)) == op_hash_words(AstOp::RotateLeft(a2, b2))) ==> (a.spec_hash() == a2.spec_hash() && b.spec_hash() == b2.spec_hash()),
        (op_hash_words(AstOp::RotateRight(a, b)) == op_hash_words(AstOp::RotateRight(a2, b2))) ==> (a.spec_hash() == a2.spec_hash() && b.spec_hash() == b2.spec_hash()),
        (op_hash_words(AstOp::Concat(a, b)) == op_hash_words(AstOp::Concat(a2, b2))) ==> (a.spec_hash() == a2.spec_hash() && b.spec_hash() == b2.spec_hash()),
        (op_hash_words(AstOp::Reverse(a)) == op_hash_words(AstOp::Reverse(a2))) ==> (a.spec_hash() == a2.spec_hash()),
        (op_hash_words(AstOp::Eq(a, b)) == op_hash_words(AstOp::Eq(a2, b2))) ==> (a.spec_hash() == a2.spec_hash() && b.spec_hash() == b2.spec_hash()),
        (op_hash_words(AstOp::Neq(a, b)) == op_hash_words(AstOp::Neq(a2, b2))) ==> (a.spec_hash() == a2.spec_hash() && b.spec_hash() == b2.spec_hash()),
        (op_hash_words(AstOp::ULT(a, b)) == op_hash_words(AstOp::ULT(a2, b2))) ==> (a.spec_hash() == a2.spec_hash() && b.spec_hash() == b2.spec_hash()),
        (op_hash_words(AstOp::ULE(a, b)) == op_hash_words(AstOp::ULE(a2, b2))) ==> (a.spec_hash() == a2.spec_hash() && b.spec_hash() == b2.spec_hash()),
        (op_hash_words(AstOp::UGT(a, b)) == op_hash_words(AstOp::UGT(a2, b2))) ==> (a.spec_hash() == a2.spec_hash() && b.spec_hash() == b2.spec_hash()),
        (op_hash_words(AstOp::UGE(a, b)) == op_hash_words(AstOp::UGE(a2, b2))) ==> (a.spec_hash() == a2.spec_hash() && b.spec_hash() == b2.spec_hash()),
        (op_hash_words(AstOp::SLT(a, b)) == op_hash_words(AstOp::SLT(a2, b2))) ==> (a.spec_hash() == a2.spec_hash() && b.spec_hash() == b2.spec_hash()),
        (op_hash_words(AstOp::SLE(a, b)) == op_hash_words(AstOp::SLE(a2, b2))) ==> (a.spec_hash() == a2.spec_hash() && b.spec_hash() == b2.spec_hash()),
        (op_hash_words(AstOp::SGT(a, b)) == op_hash_words(AstOp::SGT(a2, b2))) ==> (a.spec_hash() == a2.spec_hash() && b.spec_hash() == b2.spec_hash()),
        (op_hash_words(AstOp::SGE(a, b)) == op_hash_words(AstOp::SGE(a2, b2))) ==> (a.spec_hash() == a2.spec_hash() && b.spec_hash() == b2.spec_hash()),
        (op_hash_words(AstOp::FpToIEEEBV(a)) == op_hash_words(AstOp::FpToIEEEBV(a2))) ==> (a.spec_hash() == a2.spec_hash()),
        (op_hash_words(AstOp::FpEq(a, b)) == op_hash_words(AstOp::FpEq(a2, b2))) ==> (a.spec_hash() == a2.spec_hash() && b.spec_hash() == b2.spec_hash()),
        (op_hash_words(AstOp::FpNeq(a, b)) == op_hash_words(AstOp::FpNeq(a2, b2))) ==> (a.spec_hash() == a2.spec_hash() && b.spec_hash() == b2.spec_hash()),
        (op_hash_words(AstOp::FpLt(a, b)) == op_hash_words(AstOp::FpLt(a2, b2))) ==> (a.spec_hash() == a2.spec_hash() && b.spec_hash() == b2.spec_hash()),
        (op_hash_words(AstOp::FpLeq(a, b)) == op_hash_words(AstOp::FpLeq(a2, b2))) ==> (a.spec_hash() == a2.spec_hash() && b.spec_hash() == b2.spec_hash()),
        (op_hash_words(AstOp::FpGt(a, b)) == op_hash_words(AstOp::FpGt(a2, b2))) ==> (a.spec_hash() == a2.spec_hash() && b.spec_hash() == b2.spec_hash()),
        (op_hash_words(AstOp::FpGeq(a, b)) == op_hash_words(AstOp::FpGeq(a2, b2))) ==> (a.spec_hash() == a2.spec_hash() && b.spec_hash() == b2.spec_hash()),
        (op_hash_words(AstOp::FpIsNan(a)) == op_hash_words(AstOp::FpIsNan(a2))) ==> (a.spec_hash() == a2.spec_hash()),
        (op_hash_words(AstOp::FpIsInf(a)) == op_hash_words(AstOp::FpIsInf(a2))) ==> (a.spec_hash() == a2.spec_hash()),
        (op_hash_words(AstOp::StrLen(a)) == op_hash_words(AstOp::StrLen(a2))) ==> (a.spec_hash() == a2.spec_hash()),
        (op_hash_words(AstOp::StrConcat(a, b)) == op_hash_words(AstOp::StrConcat(a2, b2))) ==> (a.spec_hash() == a2.spec_hash() && b.spec_hash() == b2.spec_hash()),
        (op_hash_words(AstOp::StrSubstr(a, b, c)) == op_hash_words(AstOp::StrSubstr(a2, b2, c2))) ==> (a.spec_hash() == a2.spec_hash() && b.spec_hash() == b2.spec_hash() && c.spec_hash() == c2.spec_hash()),
        (op_hash_words(AstOp::StrContains(a, b)) == op_hash_words(AstOp::StrContains(a2, b2))) ==> (a.spec_hash() == a2.spec_hash() && b.spec_hash() == b2.spec_hash()),
        (op_hash_words(AstOp::StrReplace(a, b, c)) == op_hash_words(AstOp::StrReplace(a2, b2, c2))) ==> (a.spec_hash() == a2.spec_hash() && b.spec_hash() == b2.spec_hash() && c.spec_hash() == c2.spec_hash()),
        (op_hash_words(AstOp::StrPrefixOf(a, b)) == op_hash_words(AstOp::StrPrefixOf(a2, b2))) ==> (a.spec_hash() == a2.spec_hash() && b.spec_hash() == b2.spec_hash()),
        (op_hash_words(AstOp::StrSuffixOf(a, b)) == op_hash_words(AstOp::StrSuffixOf(a2, b2))) ==> (a.spec_hash() == a2.spec_hash() && b.spec_hash() == b2.spec_hash()),
        (op_hash_words(AstOp::StrToBV(a)) == op_hash_words(AstOp::StrToBV(a2))) ==> (a.spec_hash() == a2.spec_hash()),
        (op_hash_words(AstOp::BVToStr(a)) == op_hash_words(AstOp::BVToStr(a2))) ==> (a.spec_hash() == a2.spec_hash()),
        (op_hash_words(AstOp::StrIsDigit(a)) == op_hash_words(AstOp::StrIsDigit(a2))) ==> (a.spec_hash() == a2.spec_hash()),
        (op_hash_words(AstOp::StrEq(a, b)) == op_hash_words(AstOp::StrEq(a2, b2))) ==> (a.spec_hash() == a2.spec_hash() && b.spec_hash() == b2.spec_hash()),
        (op_hash_words(AstOp::StrNeq(a, b)) == op_hash_words(AstOp::StrNeq(a2, b2))) ==> (a.spec_hash() == a2.spec_hash() && b.spec_hash() == b2.spec_hash()),
        (op_hash_words(AstOp::If(a, b, c)) == op_hash_words(AstOp::If(a2, b2, c2))) ==> (a.spec_hash() == a2.spec_hash() && b.spec_hash() == b2.spec_hash() && c.spec_hash() == c2.spec_hash()),
{
    lemma_hash_not(a, a2);
    lemma_hash_and(a, b, a2, b2);
    lemma_hash_or(a, b, a2, b2);
    lemma_hash_xor(a, b, a2, b2);
    lemma_hash_add(a, b, a2, b2);
    lemma_hash_sub(a, b, a2, b2);
    lemma_hash_mul(a, b, a2, b2);
    lemma_hash_udiv(a, b, a2, b2);
    lemma_hash_sdiv(a, b, a2, b2);
    lemma_hash_urem(a, b, a2, b2);
    lemma_hash_srem(a, b, a2, b2);
    lemma_hash_pow(a, b, a2, b2);
    lemma_hash_lshl(a, b, a2, b2);
    lemma_hash_lshr(a, b, a2, b2);
    lemma_hash_ashl(a, b, a2, b2);
    lemma_hash_ashr(a, b, a2, b2);
    lemma_hash_rotateleft(a, b, a2, b2);
    lemma_hash_rotateright(a, b, a2, b2);
    lemma_hash_concat(a, b, a2, b2);
    lemma_hash_reverse(a, a2);
    lemma_hash_eq(a, b, a2, b2);
    lemma_hash_neq(a, b, a2, b2);
    lemma_hash_ult(a, b, a2, b2);
    lemma_hash_ule(a, b, a2, b2);
    lemma_hash_ugt(a, b, a2, b2);
    lemma_hash_uge(a, b, a2, b2);
    lemma_hash_slt(a, b, a2, b2);
    lemma_hash_sle(a, b, a2, b2);
    lemma_hash_sgt(a, b, a2, b2);
    lemma_hash_sge(a, b, a2, b2);
    lemma_hash_fptoieeebv(a, a2);
    lemma_hash_fpeq(a, b, a2, b2);
    lemma_hash_fpneq(a, b, a2, b2);
    lemma_hash_fplt(a, b, a2, b2);
    lemma_hash_fpleq(a, b, a2, b2);
    lemma_hash_fpgt(a, b, a2, b2);
    lemma_hash_fpgeq(a, b, a2, b2);
    lemma_hash_fpisnan(a, a2);
    lemma_hash_fpisinf(a, a2);
    lemma_hash_strlen(a, a2);
    lemma_hash_strconcat(a, b, a2, b2);
    lemma_hash_strsubstr(a, b, c, a2, b2, c2);
    lemma_hash_strcontains(a, b, a2, b2);
    lemma_hash_strreplace(a, b, c, a2, b2, c2);
    lemma_hash_strprefixof(a, b, a2, b2);
    lemma_hash_strsuffixof(a, b, a2, b2);
    lemma_hash_strtobv(a, a2);
    lemma_hash_bvtostr(a, a2);
    lemma_hash_strisdigit(a, a2);
    lemma_hash_streq(a, b, a2, b2);
    lemma_hash_strneq(a, b, a2, b2);
    lemma_hash_if(a, b, c, a2, b2, c2);
}

/// Hashing `Not`.
proof fn lemma_hash_not(a: AstRef, a2: AstRef)
    ensures
        (op_hash_words(AstOp::Not(a)) == op_hash_words(AstOp::Not(a2))) ==> (a.spec_hash() == a2.spec_hash()),
{
    if op_hash_words(AstOp::Not(a)) == op_hash_words(AstOp::Not(a2)) {
        lemma_rest_of_words(AstOp::Not(a), AstOp::Not(a2));
        assert(op_param_words(AstOp::Not(a)) + child_hashes(op_children(AstOp::Not(a))) =~= child_hashes(seq![a]));
        assert(op_param_words(AstOp::Not(a2)) + child_hashes(op_children(AstOp::Not(a2))) =~= child_hashes(seq![a2]));
        assert(child_hashes(seq![a])[0] == a.spec_hash());
        assert(child_hashes(seq![a2])[0] == a2.spec_hash());
    }
}

/// Hashing `And`.
proof fn lemma_hash_and(a: AstRef, b: AstRef, a2: AstRef, b2: AstRef)
    ensures
        (op_hash_words(AstOp::And(a, b)) == op_hash_words(AstOp::And(a2, b2))) ==> (a.spec_hash() == a2.spec_hash() && b.spec_hash() == b2.spec_hash()),
{
    if op_hash_words(AstOp::And(a, b)) == op_hash_words(AstOp::And(a2, b2)) {
        lemma_rest_of_words(AstOp::And(a, b), AstOp::And(a2, b2));
        assert(op_param_words(AstOp::And(a, b)) + child_hashes(op_children(AstOp::And(a, b))) =~= child_hashes(seq![a, b]));
        assert(op_param_words(AstOp::And(a2, b2)) + child_hashes(op_children(AstOp::And(a2, b2))) =~= child_hashes(seq![a2, b2]));
        assert(child_hashes(seq![a, b])[0] == a.spec_hash());
        assert(child_hashes(seq![a2, b2])[0] == a2.spec_hash());
        assert(child_hashes(seq![a, b])[1] == b.spec_hash());
        assert(child_hashes(seq![a2, b2])[1] == b2.spec_hash());
    }
}

/// Hashing `Or`.
proof fn lemma_hash_or(a: AstRef, b: AstRef, a2: AstRef, b2: AstRef)
    ensures
        (op_hash_words(AstOp::Or(a, b)) == op_hash_words(AstOp::Or(a2, b2))) ==> (a.spec_hash() == a2.spec_hash() && b.spec_hash() == b2.spec_hash()),
{
    if op_hash_words(AstOp::Or(a, b)) == op_hash_words(AstOp::Or(a2, b2)) {
        lemma_rest_of_words(AstOp::Or(a, b), AstOp::Or(a2, b2));
        assert(op_param_words(AstOp::Or(a, b)) + child_hashes(op_children(AstOp::Or(a, b))) =~= child_hashes(seq![a, b]));
        assert(op_param_words(AstOp::Or(a2, b2)) + child_hashes(op_children(AstOp::Or(a2, b2))) =~= child_hashes(seq![a2, b2]));
        assert(child_hashes(seq![a, b])[0] == a.spec_hash());
        assert(child_hashes(seq![a2, b2])[0] == a2.spec_hash());
        assert(child_hashes(seq![a, b])[1] == b.spec_hash());
        assert(child_hashes(seq![a2, b2])[1] == b2.spec_hash());
    }
}

/// Hashing `Xor`.
proof fn lemma_hash_xor(a: AstRef, b: AstRef, a2: AstRef, b2: AstRef)
    ensures
        (op_hash_words(AstOp::Xor(a, b)) == op_hash_words(AstOp::Xor(a2, b2))) ==> (a.spec_hash() == a2.spec_hash() && b.spec_hash() == b2.spec_hash()),
{
    if op_hash_words(AstOp::Xor(a, b)) == op_hash_words(AstOp::Xor(a2, b2)) {
        lemma_rest_of_words(AstOp::Xor(a, b), AstOp::Xor(a2, b2));
        assert(op_param_words(AstOp::Xor(a, b)) + child_hashes(op_children(AstOp::Xor(a, b))) =~= child_hashes(seq![a, b]));
        assert(op_param_words(AstOp::Xor(a2, b2)) + child_hashes(op_children(AstOp::Xor(a2, b2))) =~= child_hashes(seq![a2, b2]));
        assert(child_hashes(seq![a, b])[0] == a.spec_hash());
        assert(child_hashes(seq![a2, b2])[0] == a2.spec_hash());
        assert(child_hashes(seq![a, b])[1] == b.spec_hash());
        assert(child_hashes(seq![a2, b2])[1] == b2.spec_hash());
    }
}

/// Hashing `Add`.
proof fn lemma_hash_add(a: AstRef, b: AstRef, a2: AstRef, b2: AstRef)
    ensures
        (op_hash_words(AstOp::Add(a, b)) == op_hash_words(AstOp::Add(a2, b2))) ==> (a.spec_hash() == a2.spec_hash() && b.spec_hash() == b2.spec_hash()),
{
    if op_hash_words(AstOp::Add(a, b)) == op_hash_words(AstOp::Add(a2, b2)) {
        lemma_rest_of_words(AstOp::Add(a, b), AstOp::Add(a2, b2));
        assert(op_param_words(AstOp::Add(a, b)) + child_hashes(op_children(AstOp::Add(a, b))) =~= child_hashes(seq![a, b]));
        assert(op_param_words(AstOp::Add(a2, b2)) + child_hashes(op_children(AstOp::Add(a2, b2))) =~= child_hashes(seq![a2, b2]));
        assert(child_hashes(seq![a, b])[0] == a.spec_hash());
        assert(child_hashes(seq![a2, b2])[0] == a2.spec_hash());
        assert(child_hashes(seq![a, b])[1] == b.spec_hash());
        assert(child_hashes(seq![a2, b2])[1] == b2.spec_hash());
    }
}

/// Hashing `Sub`.
proof fn lemma_hash_sub(a: AstRef, b: AstRef, a2: AstRef, b2: AstRef)
    ensures
        (op_hash_words(AstOp::Sub(a, b)) == op_hash_words(AstOp::Sub(a2, b2))) ==> (a.spec_hash() == a2.spec_hash() && b.spec_hash() == b2.spec_hash()),
{
    if op_hash_words(AstOp::Sub(a, b)) == op_hash_words(AstOp::Sub(a2, b2)) {
        lemma_rest_of_words(AstOp::Sub(a, b), AstOp::Sub(a2, b2));
        assert(op_param_words(AstOp::Sub(a, b)) + child_hashes(op_children(AstOp::Sub(a, b))) =~= child_hashes(seq![a, b]));
        assert(op_param_words(AstOp::Sub(a2, b2)) + child_hashes(op_children(AstOp::Sub(a2, b2))) =~= child_hashes(seq![a2, b2]));
        assert(child_hashes(seq![a, b])[0] == a.spec_hash());
        assert(child_hashes(seq![a2, b2])[0] == a2.spec_hash());
        assert(child_hashes(seq![a, b])[1] == b.spec_hash());
        assert(child_hashes(seq![a2, b2])[1] == b2.spec_hash());
    }
}

/// Hashing `Mul`.
proof fn lemma_hash_mul(a: AstRef, b: AstRef, a2: AstRef, b2: AstRef)
    ensures
        (op_hash_words(AstOp::Mul(a, b)) == op_hash_words(AstOp::Mul(a2, b2))) ==> (a.spec_hash() == a2.spec_hash() && b.spec_hash() == b2.spec_hash()),
{
    if op_hash_words(AstOp::Mul(a, b)) == op_hash_words(AstOp::Mul(a2, b2)) {
        lemma_rest_of_words(AstOp::Mul(a, b), AstOp::Mul(a2, b2));
        assert(op_param_words(AstOp::Mul(a, b)) + child_hashes(op_children(AstOp::Mul(a, b))) =~= child_hashes(seq![a, b]));
        assert(op_param_words(AstOp::Mul(a2, b2)) + child_hashes(op_children(AstOp::Mul(a2, b2))) =~= child_hashes(seq![a2, b2]));
        assert(child_hashes(seq![a, b])[0] == a.spec_hash());
        assert(child_hashes(seq![a2, b2])[0] == a2.spec_hash());
        assert(child_hashes(seq![a, b])[1] == b.spec_hash());
        assert(child_hashes(seq![a2, b2])[1] == b2.spec_hash());
    }
}

/// Hashing `UDiv`.
proof fn lemma_hash_udiv(a: AstRef, b: AstRef, a2: AstRef, b2: AstRef)
    ensures
        (op_hash_words(AstOp::UDiv(a, b)) == op_hash_words(AstOp::UDiv(a2, b2))) ==> (a.spec_hash() == a2.spec_hash() && b.spec_hash() == b2.spec_hash()),
{
    if op_hash_words(AstOp::UDiv(a, b)) == op_hash_words(AstOp::UDiv(a2, b2)) {
        lemma_rest_of_words(AstOp::UDiv(a, b), AstOp::UDiv(a2, b2));
        assert(op_param_words(AstOp::UDiv(a, b)) + child_hashes(op_children(AstOp::UDiv(a, b))) =~= child_hashes(seq![a, b]));
        assert(op_param_words(AstOp::UDiv(a2, b2)) + child_hashes(op_children(AstOp::UDiv(a2, b2))) =~= child_hashes(seq![a2, b2]));
        assert(child_hashes(seq![a, b])[0] == a.spec_hash());
        assert(child_hashes(seq![a2, b2])[0] == a2.spec_hash());
        assert(child_hashes(seq![a, b])[1] == b.spec_hash());
        assert(child_hashes(seq![a2, b2])[1] == b2.spec_hash());
    }
}

/// Hashing `SDiv`.
proof fn lemma_hash_sdiv(a: AstRef, b: AstRef, a2: AstRef, b2: AstRef)
    ensures
        (op_hash_words(AstOp::SDiv(a, b)) == op_hash_words(AstOp::SDiv(a2, b2))) ==> (a.spec_hash() == a2.spec_hash() && b.spec_hash() == b2.spec_hash()),
{
    if op_hash_words(AstOp::SDiv(a, b)) == op_hash_words(AstOp::SDiv(a2, b2)) {
        lemma_rest_of_words(AstOp::SDiv(a, b), AstOp::SDiv(a2, b2));
        assert(op_param_words(AstOp::SDiv(a, b)) + child_hashes(op_children(AstOp::SDiv(a, b))) =~= child_hashes(seq![a, b]));
        assert(op_param_words(AstOp::SDiv(a2, b2)) + child_hashes(op_children(AstOp::SDiv(a2, b2))) =~= child_hashes(seq![a2, b2]));
        assert(child_hashes(seq![a, b])[0] == a.spec_hash());
        assert(child_hashes(seq![a2, b2])[0] == a2.spec_hash());
        assert(child_hashes(seq![a, b])[1] == b.spec_hash());
        assert(child_hashes(seq![a2, b2])[1] == b2.spec_hash());
    }
}

/// Hashing `URem`.
proof fn lemma_hash_urem(a: AstRef, b: AstRef, a2: AstRef, b2: AstRef)
    ensures
        (op_hash_words(AstOp::URem(a, b)) == op_hash_words(AstOp::URem(a2, b2))) ==> (a.spec_hash() == a2.spec_hash() && b.spec_hash() == b2.spec_hash()),
{
    if op_hash_words(AstOp::URem(a, b)) == op_hash_words(AstOp::URem(a2, b2)) {
        lemma_rest_of_words(AstOp::URem(a, b), AstOp::URem(a2, b2));
        assert(op_param_words(AstOp::URem(a, b)) + child_hashes(op_children(AstOp::URem(a, b))) =~= child_hashes(seq![a, b]));
        assert(op_param_words(AstOp::URem(a2, b2)) + child_hashes(op_children(AstOp::URem(a2, b2))) =~= child_hashes(seq![a2, b2]));
        assert(child_hashes(seq![a, b])[0] == a.spec_hash());
        assert(child_hashes(seq![a2, b2])[0] == a2.spec_hash());
        assert(child_hashes(seq![a, b])[1] == b.spec_hash());
        assert(child_hashes(seq![a2, b2])[1] == b2.spec_hash());
    }
}

/// Hashing `SRem`.
proof fn lemma_hash_srem(a: AstRef, b: AstRef, a2: AstRef, b2: AstRef)
    ensures
        (op_hash_words(AstOp::SRem(a, b)) == op_hash_words(AstOp::SRem(a2, b2))) ==> (a.spec_hash() == a2.spec_hash() && b.spec_hash() == b2.spec_hash()),
{
    if op_hash_words(AstOp::SRem(a, b)) == op_hash_words(AstOp::SRem(a2, b2)) {
        lemma_rest_of_words(AstOp::SRem(a, b), AstOp::SRem(a2, b2));
        assert(op_param_words(AstOp::SRem(a, b)) + child_hashes(op_children(AstOp::SRem(a, b))) =~= child_hashes(seq![a, b]));
        assert(op_param_words(AstOp::SRem(a2, b2)) + child_hashes(op_children(AstOp::SRem(a2, b2))) =~= child_hashes(seq![a2, b2]));
        assert(child_hashes(seq![a, b])[0] == a.spec_hash());
        assert(child_hashes(seq![a2, b2])[0] == a2.spec_hash());
        assert(child_hashes(seq![a, b])[1] == b.spec_hash());
        assert(child_hashes(seq![a2, b2])[1] == b2.spec_hash());
    }
}

/// Hashing `Pow`.
proof fn lemma_hash_pow(a: AstRef, b: AstRef, a2: AstRef, b2: AstRef)
    ensures
        (op_hash_words(AstOp::Pow(a, b)) == op_hash_words(AstOp::Pow(a2, b2))) ==> (a.spec_hash() == a2.spec_hash() && b.spec_hash() == b2.spec_hash()),
{
    if op_hash_words(AstOp::Pow(a, b)) == op_hash_words(AstOp::Pow(a2, b2)) {
        lemma_rest_of_words(AstOp::Pow(a, b), AstOp::Pow(a2, b2));
        assert(op_param_words(AstOp::Pow(a, b)) + child_hashes(op_children(AstOp::Pow(a, b))) =~= child_hashes(seq![a, b]));
        assert(op_param_words(AstOp::Pow(a2, b2)) + child_hashes(op_children(AstOp::Pow(a2, b2))) =~= child_hashes(seq![a2, b2]));
        assert(child_hashes(seq![a, b])[0] == a.spec_hash());
        assert(child_hashes(seq![a2, b2])[0] == a2.spec_hash());
        assert(child_hashes(seq![a, b])[1] == b.spec_hash());
        assert(child_hashes(seq![a2, b2])[1] == b2.spec_hash());
    }
}

/// Hashing `LShL`.
proof fn lemma_hash_lshl(a: AstRef, b: AstRef, a2: AstRef, b2: AstRef)
    ensures
        (op_hash_words(AstOp::LShL(a, b)) == op_hash_words(AstOp::LShL(a2, b2))) ==> (a.spec_hash() == a2.spec_hash() && b.spec_hash() == b2.spec_hash()),
{
    if op_hash_words(AstOp::LShL(a, b)) == op_hash_words(AstOp::LShL(a2, b2)) {
        lemma_rest_of_words(AstOp::LShL(a, b), AstOp::LShL(a2, b2));
        assert(op_param_words(AstOp::LShL(a, b)) + child_hashes(op_children(AstOp::LShL(a, b))) =~= child_hashes(seq![a, b]));
        assert(op_param_words(AstOp::LShL(a2, b2)) + child_hashes(op_children(AstOp::LShL(a2, b2))) =~= child_hashes(seq![a2, b2]));
        assert(child_hashes(seq![a, b])[0] == a.spec_hash());
        assert(child_hashes(seq![a2, b2])[0] == a2.spec_hash());
        assert(child_hashes(seq![a, b])[1] == b.spec_hash());
        assert(child_hashes(seq![a2, b2])[1] == b2.spec_hash());
    }
}

/// Hashing `LShR`.
proof fn lemma_hash_lshr(a: AstRef, b: AstRef, a2: AstRef, b2: AstRef)
    ensures
        (op_hash_words(AstOp::LShR(a, b)) == op_hash_words(AstOp::LShR(a2, b2))) ==> (a.spec_hash() == a2.spec_hash() && b.spec_hash() == b2.spec_hash()),
{
    if op_hash_words(AstOp::LShR(a, b)) == op_hash_words(AstOp::LShR(a2, b2)) {
        lemma_rest_of_words(AstOp::LShR(a, b), AstOp::LShR(a2, b2));
        assert(op_param_words(AstOp::LShR(a, b)) + child_hashes(op_children(AstOp::LShR(a, b))) =~= child_hashes(seq![a, b]));
        assert(op_param_words(AstOp::LShR(a2, b2)) + child_hashes(op_children(AstOp::LShR(a2, b2))) =~= child_hashes(seq![a2, b2]));
        assert(child_hashes(seq![a, b])[0] == a.spec_hash());
        assert(child_hashes(seq![a2, b2])[0] == a2.spec_hash());
        assert(child_hashes(seq![a, b])[1] == b.spec_hash());
        assert(child_hashes(seq![a2, b2])[1] == b2.spec_hash());
    }
}

/// Hashing `AShL`.
proof fn lemma_hash_ashl(a: AstRef, b: AstRef, a2: AstRef, b2: AstRef)
    ensures
        (op_hash_words(AstOp::AShL(a, b)) == op_hash_words(AstOp::AShL(a2, b2))) ==> (a.spec_hash() == a2.spec_hash() && b.spec_hash() == b2.spec_hash()),
{
    if op_hash_words(AstOp::AShL(a, b)) == op_hash_words(AstOp::AShL(a2, b2)) {
        lemma_rest_of_words(AstOp::AShL(a, b), AstOp::AShL(a2, b2));
        assert(op_param_words(AstOp::AShL(a, b)) + child_hashes(op_children(AstOp::AShL(a, b))) =~= child_hashes(seq![a, b]));
        assert(op_param_words(AstOp::AShL(a2, b2)) + child_hashes(op_children(AstOp::AShL(a2, b2))) =~= child_hashes(seq![a2, b2]));
        assert(child_hashes(seq![a, b])[0] == a.spec_hash());
        assert(child_hashes(seq![a2, b2])[0] == a2.spec_hash());
        assert(child_hashes(seq![a, b])[1] == b.spec_hash());
        assert(child_hashes(seq![a2, b2])[1] == b2.spec_hash());
    }
}

/// Hashing `AShR`.
proof fn lemma_hash_ashr(a: AstRef, b: AstRef, a2: AstRef, b2: AstRef)
    ensures
        (op_hash_words(AstOp::AShR(a, b)) == op_hash_words(AstOp::AShR(a2, b2))) ==> (a.spec_hash() == a2.spec_hash() && b.spec_hash() == b2.spec_hash()),
{
    if op_hash_words(AstOp::AShR(a, b)) == op_hash_words(AstOp::AShR(a2, b2)) {
        lemma_rest_of_words(AstOp::AShR(a, b), AstOp::AShR(a2, b2));
        assert(op_param_words(AstOp::AShR(a, b)) + child_hashes(op_children(AstOp::AShR(a, b))) =~= child_hashes(seq![a, b]));
        assert(op_param_words(AstOp::AShR(a2, b2)) + child_hashes(op_children(AstOp::AShR(a2, b2))) =~= child_hashes(seq![a2, b2]));
        assert(child_hashes(seq![a, b])[0] == a.spec_hash());
        assert(child_hashes(seq![a2, b2])[0] == a2.spec_hash());
        assert(child_hashes(seq![a, b])[1] == b.spec_hash());
        assert(child_hashes(seq![a2, b2])[1] == b2.spec_hash());
    }
}

/// Hashing `RotateLeft`.
proof fn lemma_hash_rotateleft(a: AstRef, b: AstRef, a2: AstRef, b2: AstRef)
    ensures
        (op_hash_words(AstOp::RotateLeft(a, b)) == op_hash_words(AstOp::RotateLeft(a2, b2))) ==> (a.spec_hash() == a2.spec_hash() && b.spec_hash() == b2.spec_hash()),
{
    if op_hash_words(AstOp::RotateLeft(a, b)) == op_hash_words(AstOp::RotateLeft(a2, b2)) {
        lemma_rest_of_words(AstOp::RotateLeft(a, b), AstOp::RotateLeft(a2, b2));
        assert(op_param_words(AstOp::RotateLeft(a, b)) + child_hashes(op_children(AstOp::RotateLeft(a, b))) =~= child_hashes(seq![a, b]));
        assert(op_param_words(AstOp::RotateLeft(a2, b2)) + child_hashes(op_children(AstOp::RotateLeft(a2, b2))) =~= child_hashes(seq![a2, b2]));
        assert(child_hashes(seq![a, b])[0] == a.spec_hash());
        assert(child_hashes(seq![a2, b2])[0] == a2.spec_hash());
        assert(child_hashes(seq![a, b])[1] == b.spec_hash());
        assert(child_hashes(seq![a2, b2])[1] == b2.spec_hash());
    }
}

/// Hashing `RotateRight`.
proof fn lemma_hash_rotateright(a: AstRef, b: AstRef, a2: AstRef, b2: AstRef)
    ensures
        (op_hash_words(AstOp::RotateRight(a, b)) == op_hash_words(AstOp::RotateRight(a2, b2))) ==> (a.spec_hash() == a2.spec_hash() && b.spec_hash() == b2.spec_hash()),
{
    if op_hash_words(AstOp::RotateRight(a, b)) == op_hash_words(AstOp::RotateRight(a2, b2)) {
        lemma_rest_of_words(AstOp::RotateRight(a, b), AstOp::RotateRight(a2, b2));
        assert(op_param_words(AstOp::RotateRight(a, b)) + child_hashes(op_children(AstOp::RotateRight(a, b))) =~= child_hashes(seq![a, b]));
        assert(op_param_words(AstOp::RotateRight(a2, b2)) + child_hashes(op_children(AstOp::RotateRight(a2, b2))) =~= child_hashes(seq![a2, b2]));
        assert(child_hashes(seq![a, b])[0] == a.spec_hash());
        assert(child_hashes(seq![a2, b2])[0] == a2.spec_hash());
        assert(child_hashes(seq![a, b])[1] == b.spec_hash());
        assert(child_hashes(seq![a2, b2])[1] == b2.spec_hash());
    }
}

/// Hashing `Concat`.
proof fn lemma_hash_concat(a: AstRef, b: AstRef, a2: AstRef, b2: AstRef)
    ensures
        (op_hash_words(AstOp::Concat(a, b)) == op_hash_words(AstOp::Concat(a2, b2))) ==> (a.spec_hash() == a2.spec_hash() && b.spec_hash() == b2.spec_hash()),
{
    if op_hash_words(AstOp::Concat(a, b)) == op_hash_words(AstOp::Concat(a2, b2)) {
        lemma_rest_of_words(AstOp::Concat(a, b), AstOp::Concat(a2, b2));
        assert(op_param_words(AstOp::Concat(a, b)) + child_hashes(op_children(AstOp::Concat(a, b))) =~= child_hashes(seq![a, b]));
        assert(op_param_words(AstOp::Concat(a2, b2)) + child_hashes(op_children(AstOp::Concat(a2, b2))) =~= child_hashes(seq![a2, b2]));
        assert(child_hashes(seq![a, b])[0] == a.spec_hash());
        assert(child_hashes(seq![a2, b2])[0] == a2.spec_hash());
        assert(child_hashes(seq![a, b])[1] == b.spec_hash());
        assert(child_hashes(seq![a2, b2])[1] == b2.spec_hash());
    }
}

/// Hashing `Reverse`.
proof fn lemma_hash_reverse(a: AstRef, a2: AstRef)
    ensures
        (op_hash_words(AstOp::Reverse(a)) == op_hash_words(AstOp::Reverse(a2))) ==> (a.spec_hash() == a2.spec_hash()),
{
    if op_hash_words(AstOp::Reverse(a)) == op_hash_words(AstOp::Reverse(a2)) {
        lemma_rest_of_words(AstOp::Reverse(a), AstOp::Reverse(a2));
        assert(op_param_words(AstOp::Reverse(a)) + child_hashes(op_children(AstOp::Reverse(a))) =~= child_hashes(seq![a]));
        assert(op_param_words(AstOp::Reverse(a2)) + child_hashes(op_children(AstOp::Reverse(a2))) =~= child_hashes(seq![a2]));
        assert(child_hashes(seq![a])[0] == a.spec_hash());
        assert(child_hashes(seq![a2])[0] == a2.spec_hash());
    }
}

/// Hashing `Eq`.
proof fn lemma_hash_eq(a: AstRef, b: AstRef, a2: AstRef, b2: AstRef)
    ensures
        (op_hash_words(AstOp::Eq(a, b)) == op_hash_words(AstOp::Eq(a2, b2))) ==> (a.spec_hash() == a2.spec_hash() && b.spec_hash() == b2.spec_hash()),
{
    if op_hash_words(AstOp::Eq(a, b)) == op_hash_words(AstOp::Eq(a2, b2)) {
        lemma_rest_of_words(AstOp::Eq(a, b), AstOp::Eq(a2, b2));
        assert(op_param_words(AstOp::Eq(a, b)) + child_hashes(op_children(AstOp::Eq(a, b))) =~= child_hashes(seq![a, b]));
        assert(op_param_words(AstOp::Eq(a2, b2)) + child_hashes(op_children(AstOp::Eq(a2, b2))) =~= child_hashes(seq![a2, b2]));
        assert(child_hashes(seq![a, b])[0] == a.spec_hash());
        assert(child_hashes(seq![a2, b2])[0] == a2.spec_hash());
        assert(child_hashes(seq![a, b])[1] == b.spec_hash());
        assert(child_hashes(seq![a2, b2])[1] == b2.spec_hash());
    }
}

/// Hashing `Neq`.
proof fn lemma_hash_neq(a: AstRef, b: AstRef, a2: AstRef, b2: AstRef)
    ensures
        (op_hash_words(AstOp::Neq(a, b)) == op_hash_words(AstOp::Neq(a2, b2))) ==> (a.spec_hash() == a2.spec_hash() && b.spec_hash() == b2.spec_hash()),
{
    if op_hash_words(AstOp::Neq(a, b)) == op_hash_words(AstOp::Neq(a2, b2)) {
        lemma_rest_of_words(AstOp::Neq(a, b), AstOp::Neq(a2, b2));
        assert(op_param_words(AstOp::Neq(a, b)) + child_hashes(op_children(AstOp::Neq(a, b))) =~= child_hashes(seq![a, b]));
        assert(op_param_words(AstOp::Neq(a2, b2)) + child_hashes(op_children(AstOp::Neq(a2, b2))) =~= child_hashes(seq![a2, b2]));
        assert(child_hashes(seq![a, b])[0] == a.spec_hash());
        assert(child_hashes(seq![a2, b2])[0] == a2.spec_hash());
        assert(child_hashes(seq![a, b])[1] == b.spec_hash());
        assert(child_hashes(seq![a2, b2])[1] == b2.spec_hash());
    }
}

/// Hashing `ULT`.
proof fn lemma_hash_ult(a: AstRef, b: AstRef, a2: AstRef, b2: AstRef)
    ensures
        (op_hash_words(AstOp::ULT(a, b)) == op_hash_words(AstOp::ULT(a2, b2))) ==> (a.spec_hash() == a2.spec_hash() && b.spec_hash() == b2.spec_hash()),
{
    if op_hash_words(AstOp::ULT(a, b)) == op_hash_words(AstOp::ULT(a2, b2)) {
        lemma_rest_of_words(AstOp::ULT(a, b), AstOp::ULT(a2, b2));
        assert(op_param_words(AstOp::ULT(a, b)) + child_hashes(op_children(AstOp::ULT(a, b))) =~= child_hashes(seq![a, b]));
        assert(op_param_words(AstOp::ULT(a2, b2)) + child_hashes(op_children(AstOp::ULT(a2, b2))) =~= child_hashes(seq![a2, b2]));
        assert(child_hashes(seq![a, b])[0] == a.spec_hash());
        assert(child_hashes(seq![a2, b2])[0] == a2.spec_hash());
        assert(child_hashes(seq![a, b])[1] == b.spec_hash());
        assert(child_hashes(seq![a2, b2])[1] == b2.spec_hash());
    }
}

/// Hashing `ULE`.
proof fn lemma_hash_ule(a: AstRef, b: AstRef, a2: AstRef, b2: AstRef)
    ensures
        (op_hash_words(AstOp::ULE(a, b)) == op_hash_words(AstOp::ULE(a2, b2))) ==> (a.spec_hash() == a2.spec_hash() && b.spec_hash() == b2.spec_hash()),
{
    if op_hash_words(AstOp::ULE(a, b)) == op_hash_words(AstOp::ULE(a2, b2)) {
        lemma_rest_of_words(AstOp::ULE(a, b), AstOp::ULE(a2, b2));
        assert(op_param_words(AstOp::ULE(a, b)) + child_hashes(op_children(AstOp::ULE(a, b))) =~= child_hashes(seq![a, b]));
        assert(op_param_words(AstOp::ULE(a2, b2)) + child_hashes(op_children(AstOp::ULE(a2, b2))) =~= child_hashes(seq![a2, b2]));
        assert(child_hashes(seq![a, b])[0] == a.spec_hash());
        assert(child_hashes(seq![a2, b2])[0] == a2.spec_hash());
        assert(child_hashes(seq![a, b])[1] == b.spec_hash());
        assert(child_hashes(seq![a2, b2])[1] == b2.spec_hash());
    }
}

/// Hashing `UGT`.
proof fn lemma_hash_ugt(a: AstRef, b: AstRef, a2: AstRef, b2: AstRef)
    ensures
        (op_hash_words(AstOp::UGT(a, b)) == op_hash_words(AstOp::UGT(a2, b2))) ==> (a.spec_hash() == a2.spec_hash() && b.spec_hash() == b2.spec_hash()),
{
    if op_hash_words(AstOp::UGT(a, b)) == op_hash_words(AstOp::UGT(a2, b2)) {
        lemma_rest_of_words(AstOp::UGT(a, b), AstOp::UGT(a2, b2));
        assert(op_param_words(AstOp::UGT(a, b)) + child_hashes(op_children(AstOp::UGT(a, b))) =~= child_hashes(seq![a, b]));
        assert(op_param_words(AstOp::UGT(a2, b2)) + child_hashes(op_children(AstOp::UGT(a2, b2))) =~= child_hashes(seq![a2, b2]));
        assert(child_hashes(seq![a, b])[0] == a.spec_hash());
        assert(child_hashes(seq![a2, b2])[0] == a2.spec_hash());
        assert(child_hashes(seq![a, b])[1] == b.spec_hash());
        assert(child_hashes(seq![a2, b2])[1] == b2.spec_hash());
    }
}

/// Hashing `UGE`.
proof fn lemma_hash_uge(a: AstRef, b: AstRef, a2: AstRef, b2: AstRef)
    ensures
        (op_hash_words(AstOp::UGE(a, b)) == op_hash_words(AstOp::UGE(a2, b2))) ==> (a.spec_hash() == a2.spec_hash() && b.spec_hash() == b2.spec_hash()),
{
    if op_hash_words(AstOp::UGE(a, b)) == op_hash_words(AstOp::UGE(a2, b2)) {
        lemma_rest_of_words(AstOp::UGE(a, b), AstOp::UGE(a2, b2));
        assert(op_param_words(AstOp::UGE(a, b)) + child_hashes(op_children(AstOp::UGE(a, b))) =~= child_hashes(seq![a, b]));
        assert(op_param_words(AstOp::UGE(a2, b2)) + child_hashes(op_children(AstOp::UGE(a2, b2))) =~= child_hashes(seq![a2, b2]));
        assert(child_hashes(seq![a, b])[0] == a.spec_hash());
        assert(child_hashes(seq![a2, b2])[0] == a2.spec_hash());
        assert(child_hashes(seq![a, b])[1] == b.spec_hash());
        assert(child_hashes(seq![a2, b2])[1] == b2.spec_hash());
    }
}

/// Hashing `SLT`.
proof fn lemma_hash_slt(a: AstRef, b: AstRef, a2: AstRef, b2: AstRef)
    ensures
        (op_hash_words(AstOp::SLT(a, b)) == op_hash_words(AstOp::SLT(a2, b2))) ==> (a.spec_hash() == a2.spec_hash() && b.spec_hash() == b2.spec_hash()),
{
    if op_hash_words(AstOp::SLT(a, b)) == op_hash_words(AstOp::SLT(a2, b2)) {
        lemma_rest_of_words(AstOp::SLT(a, b), AstOp::SLT(a2, b2));
        assert(op_param_words(AstOp::SLT(a, b)) + child_hashes(op_children(AstOp::SLT(a, b))) =~= child_hashes(seq![a, b]));
        assert(op_param_words(AstOp::SLT(a2, b2)) + child_hashes(op_children(AstOp::SLT(a2, b2))) =~= child_hashes(seq![a2, b2]));
        assert(child_hashes(seq![a, b])[0] == a.spec_hash());
        assert(child_hashes(seq![a2, b2])[0] == a2.spec_hash());
        assert(child_hashes(seq![a, b])[1] == b.spec_hash());
        assert(child_hashes(seq![a2, b2])[1] == b2.spec_hash());
    }
}

/// Hashing `SLE`.
proof fn lemma_hash_sle(a: AstRef, b: AstRef, a2: AstRef, b2: AstRef)
    ensures
        (op_hash_words(AstOp::SLE(a, b)) == op_hash_words(AstOp::SLE(a2, b2))) ==> (a.spec_hash() == a2.spec_hash() && b.spec_hash() == b2.spec_hash()),
{
    if op_hash_words(AstOp::SLE(a, b)) == op_hash_words(AstOp::SLE(a2, b2)) {
        lemma_rest_of_words(AstOp::SLE(a, b), AstOp::SLE(a2, b2));
        assert(op_param_words(AstOp::SLE(a, b)) + child_hashes(op_children(AstOp::SLE(a, b))) =~= child_hashes(seq![a, b]));
        assert(op_param_words(AstOp::SLE(a2, b2)) + child_hashes(op_children(AstOp::SLE(a2, b2))) =~= child_hashes(seq![a2, b2]));
        assert(child_hashes(seq![a, b])[0] == a.spec_hash());
        assert(child_hashes(seq![a2, b2])[0] == a2.spec_hash());
        assert(child_hashes(seq![a, b])[1] == b.spec_hash());
        assert(child_hashes(seq![a2, b2])[1] == b2.spec_hash());
    }
}

/// Hashing `SGT`.
proof fn lemma_hash_sgt(a: AstRef, b: AstRef, a2: AstRef, b2: AstRef)
    ensures
        (op_hash_words(AstOp::SGT(a, b)) == op_hash_words(AstOp::SGT(a2, b2))) ==> (a.spec_hash() == a2.spec_hash() && b.spec_hash() == b2.spec_hash()),
{
    if op_hash_words(AstOp::SGT(a, b)) == op_hash_words(AstOp::SGT(a2, b2)) {
        lemma_rest_of_words(AstOp::SGT(a, b), AstOp::SGT(a2, b2));
        assert(op_param_words(AstOp::SGT(a, b)) + child_hashes(op_children(AstOp::SGT(a, b))) =~= child_hashes(seq![a, b]));
        assert(op_param_words(AstOp::SGT(a2, b2)) + child_hashes(op_children(AstOp::SGT(a2, b2))) =~= child_hashes(seq![a2, b2]));
        assert(child_hashes(seq![a, b])[0] == a.spec_hash());
        assert(child_hashes(seq![a2, b2])[0] == a2.spec_hash());
        assert(child_hashes(seq![a, b])[1] == b.spec_hash());
        assert(child_hashes(seq![a2, b2])[1] == b2.spec_hash());
    }
}

/// Hashing `SGE`.
proof fn lemma_hash_sge(a: AstRef, b: AstRef, a2: AstRef, b2: AstRef)
    ensures
        (op_hash_words(AstOp::SGE(a, b)) == op_hash_words(AstOp::SGE(a2, b2))) ==> (a.spec_hash() == a2.spec_hash() && b.spec_hash() == b2.spec_hash()),
{
    if op_hash_words(AstOp::SGE(a, b)) == op_hash_words(AstOp::SGE(a2, b2)) {
        lemma_rest_of_words(AstOp::SGE(a, b), AstOp::SGE(a2, b2));
        assert(op_param_words(AstOp::SGE(a, b)) + child_hashes(op_children(AstOp::SGE(a, b))) =~= child_hashes(seq![a, b]));
        assert(op_param_words(AstOp::SGE(a2, b2)) + child_hashes(op_children(AstOp::SGE(a2, b2))) =~= child_hashes(seq![a2, b2]));
        assert(child_hashes(seq![a, b])[0] == a.spec_hash());
        assert(child_hashes(seq![a2, b2])[0] == a2.spec_hash());
        assert(child_hashes(seq![a, b])[1] == b.spec_hash());
        assert(child_hashes(seq![a2, b2])[1] == b2.spec_hash());
    }
}

/// Hashing `FpToIEEEBV`.
proof fn lemma_hash_fptoieeebv(a: AstRef, a2: AstRef)
    ensures
        (op_hash_words(AstOp::FpToIEEEBV(a)) == op_hash_words(AstOp::FpToIEEEBV(a2))) ==> (a.spec_hash() == a2.spec_hash()),
{
    if op_hash_words(AstOp::FpToIEEEBV(a)) == op_hash_words(AstOp::FpToIEEEBV(a2)) {
        lemma_rest_of_words(AstOp::FpToIEEEBV(a), AstOp::FpToIEEEBV(a2));
        assert(op_param_words(AstOp::FpToIEEEBV(a)) + child_hashes(op_children(AstOp::FpToIEEEBV(a))) =~= child_hashes(seq![a]));
        assert(op_param_words(AstOp::FpToIEEEBV(a2)) + child_hashes(op_children(AstOp::FpToIEEEBV(a2))) =~= child_hashes(seq![a2]));
        assert(child_hashes(seq![a])[0] == a.spec_hash());
        assert(child_hashes(seq![a2])[0] == a2.spec_hash());
    }
}

/// Hashing `FpEq`.
proof fn lemma_hash_fpeq(a: AstRef, b: AstRef, a2: AstRef, b2: AstRef)
    ensures
        (op_hash_words(AstOp::FpEq(a, b)) == op_hash_words(AstOp::FpEq(a2, b2))) ==> (a.spec_hash() == a2.spec_hash() && b.spec_hash() == b2.spec_hash()),
{
    if op_hash_words(AstOp::FpEq(a, b)) == op_hash_words(AstOp::FpEq(a2, b2)) {
        lemma_rest_of_words(AstOp::FpEq(a, b), AstOp::FpEq(a2, b2));
        assert(op_param_words(AstOp::FpEq(a, b)) + child_hashes(op_children(AstOp::FpEq(a, b))) =~= child_hashes(seq![a, b]));
        assert(op_param_words(AstOp::FpEq(a2, b2)) + child_hashes(op_children(AstOp::FpEq(a2, b2))) =~= child_hashes(seq![a2, b2]));
        assert(child_hashes(seq![a, b])[0] == a.spec_hash());
        assert(child_hashes(seq![a2, b2])[0] == a2.spec_hash());
        assert(child_hashes(seq![a, b])[1] == b.spec_hash());
        assert(child_hashes(seq![a2, b2])[1] == b2.spec_hash());
    }
}

/// Hashing `FpNeq`.
proof fn lemma_hash_fpneq(a: AstRef, b: AstRef, a2: AstRef, b2: AstRef)
    ensures
        (op_hash_words(AstOp::FpNeq(a, b)) == op_hash_words(AstOp::FpNeq(a2, b2))) ==> (a.spec_hash() == a2.spec_hash() && b.spec_hash() == b2.spec_hash()),
{
    if op_hash_words(AstOp::FpNeq(a, b)) == op_hash_words(AstOp::FpNeq(a2, b2)) {
        lemma_rest_of_words(AstOp::FpNeq(a, b), AstOp::FpNeq(a2, b2));
        assert(op_param_words(AstOp::FpNeq(a, b)) + child_hashes(op_children(AstOp::FpNeq(a, b))) =~= child_hashes(seq![a, b]));
        assert(op_param_words(AstOp::FpNeq(a2, b2)) + child_hashes(op_children(AstOp::FpNeq(a2, b2))) =~= child_hashes(seq![a2, b2]));
        assert(child_hashes(seq![a, b])[0] == a.spec_hash());
        assert(child_hashes(seq![a2, b2])[0] == a2.spec_hash());
        assert(child_hashes(seq![a, b])[1] == b.spec_hash());
        assert(child_hashes(seq![a2, b2])[1] == b2.spec_hash());
    }
}

/// Hashing `FpLt`.
proof fn lemma_hash_fplt(a: AstRef, b: AstRef, a2: AstRef, b2: AstRef)
    ensures
        (op_hash_words(AstOp::FpLt(a, b)) == op_hash_words(AstOp::FpLt(a2, b2))) ==> (a.spec_hash() == a2.spec_hash() && b.spec_hash() == b2.spec_hash()),
{
    if op_hash_words(AstOp::FpLt(a, b)) == op_hash_words(AstOp::FpLt(a2, b2)) {
        lemma_rest_of_words(AstOp::FpLt(a, b), AstOp::FpLt(a2, b2));
        assert(op_param_words(AstOp::FpLt(a, b)) + child_hashes(op_children(AstOp::FpLt(a, b))) =~= child_hashes(seq![a, b]));
        assert(op_param_words(AstOp::FpLt(a2, b2)) + child_hashes(op_children(AstOp::FpLt(a2, b2))) =~= child_hashes(seq![a2, b2]));
        assert(child_hashes(seq![a, b])[0] == a.spec_hash());
        assert(child_hashes(seq![a2, b2])[0] == a2.spec_hash());
        assert(child_hashes(seq![a, b])[1] == b.spec_hash());
        assert(child_hashes(seq![a2, b2])[1] == b2.spec_hash());
    }
}

/// Hashing `FpLeq`.
proof fn lemma_hash_fpleq(a: AstRef, b: AstRef, a2: AstRef, b2: AstRef)
    ensures
        (op_hash_words(AstOp::FpLeq(a, b)) == op_hash_words(AstOp::FpLeq(a2, b2))) ==> (a.spec_hash() == a2.spec_hash() && b.spec_hash() == b2.spec_hash()),
{
    if op_hash_words(AstOp::FpLeq(a, b)) == op_hash_words(AstOp::FpLeq(a2, b2)) {
        lemma_rest_of_words(AstOp::FpLeq(a, b), AstOp::FpLeq(a2, b2));
        assert(op_param_words(AstOp::FpLeq(a, b)) + child_hashes(op_children(AstOp::FpLeq(a, b))) =~= child_hashes(seq![a, b]));
        assert(op_param_words(AstOp::FpLeq(a2, b2)) + child_hashes(op_children(AstOp::FpLeq(a2, b2))) =~= child_hashes(seq![a2, b2]));
        assert(child_hashes(seq![a, b])[0] == a.spec_hash());
        assert(child_hashes(seq![a2, b2])[0] == a2.spec_hash());
        assert(child_hashes(seq![a, b])[1] == b.spec_hash());
        assert(child_hashes(seq![a2, b2])[1] == b2.spec_hash());
    }
}

/// Hashing `FpGt`.
proof fn lemma_hash_fpgt(a: AstRef, b: AstRef, a2: AstRef, b2: AstRef)
    ensures
        (op_hash_words(AstOp::FpGt(a, b)) == op_hash_words(AstOp::FpGt(a2, b2))) ==> (a.spec_hash() == a2.spec_hash() && b.spec_hash() == b2.spec_hash()),
{
    if op_hash_words(AstOp::FpGt(a, b)) == op_hash_words(AstOp::FpGt(a2, b2)) {
        lemma_rest_of_words(AstOp::FpGt(a, b), AstOp::FpGt(a2, b2));
        assert(op_param_words(AstOp::FpGt(a, b)) + child_hashes(op_children(AstOp::FpGt(a, b))) =~= child_hashes(seq![a, b]));
        assert(op_param_words(AstOp::FpGt(a2, b2)) + child_hashes(op_children(AstOp::FpGt(a2, b2))) =~= child_hashes(seq![a2, b2]));
        assert(child_hashes(seq![a, b])[0] == a.spec_hash());
        assert(child_hashes(seq![a2, b2])[0] == a2.spec_hash());
        assert(child_hashes(seq![a, b])[1] == b.spec_hash());
        assert(child_hashes(seq![a2, b2])[1] == b2.spec_hash());
    }
}

/// Hashing `FpGeq`.
proof fn lemma_hash_fpgeq(a: AstRef, b: AstRef, a2: AstRef, b2: AstRef)
    ensures
        (op_hash_words(AstOp::FpGeq(a, b)) == op_hash_words(AstOp::FpGeq(a2, b2))) ==> (a.spec_hash() == a2.spec_hash() && b.spec_hash() == b2.spec_hash()),
{
    if op_hash_words(AstOp::FpGeq(a, b)) == op_hash_words(AstOp::FpGeq(a2, b2)) {
        lemma_rest_of_words(AstOp::FpGeq(a, b), AstOp::FpGeq(a2, b2));
        assert(op_param_words(AstOp::FpGeq(a, b)) + child_hashes(op_children(AstOp::FpGeq(a, b))) =~= child_hashes(seq![a, b]));
        assert(op_param_words(AstOp::FpGeq(a2, b2)) + child_hashes(op_children(AstOp::FpGeq(a2, b2))) =~= child_hashes(seq![a2, b2]));
        assert(child_hashes(seq![a, b])[0] == a.spec_hash());
        assert(child_hashes(seq![a2, b2])[0] == a2.spec_hash());
        assert(child_hashes(seq![a, b])[1] == b.spec_hash());
        assert(child_hashes(seq![a2, b2])[1] == b2.spec_hash());
    }
}

/// Hashing `FpIsNan`.
proof fn lemma_hash_fpisnan(a: AstRef, a2: AstRef)
    ensures
        (op_hash_words(AstOp::FpIsNan(a)) == op_hash_words(AstOp::FpIsNan(a2))) ==> (a.spec_hash() == a2.spec_hash()),
{
    if op_hash_words(AstOp::FpIsNan(a)) == op_hash_words(AstOp::FpIsNan(a2)) {
        lemma_rest_of_words(AstOp::FpIsNan(a), AstOp::FpIsNan(a2));
        assert(op_param_words(AstOp::FpIsNan(a)) + child_hashes(op_children(AstOp::FpIsNan(a))) =~= child_hashes(seq![a]));
        assert(op_param_words(AstOp::FpIsNan(a2)) + child_hashes(op_children(AstOp::FpIsNan(a2))) =~= child_hashes(seq![a2]));
        assert(child_hashes(seq![a])[0] == a.spec_hash());
        assert(child_hashes(seq![a2])[0] == a2.spec_hash());
    }
}

/// Hashing `FpIsInf`.
proof fn lemma_hash_fpisinf(a: AstRef, a2: AstRef)
    ensures
        (op_hash_words(AstOp::FpIsInf(a)) == op_hash_words(AstOp::FpIsInf(a2))) ==> (a.spec_hash() == a2.spec_hash()),
{
    if op_hash_words(AstOp::FpIsInf(a)) == op_hash_words(AstOp::FpIsInf(a2)) {
        lemma_rest_of_words(AstOp::FpIsInf(a), AstOp::FpIsInf(a2));
        assert(op_param_words(AstOp::FpIsInf(a)) + child_hashes(op_children(AstOp::FpIsInf(a))) =~= child_hashes(seq![a]));
        assert(op_param_words(AstOp::FpIsInf(a2)) + child_hashes(op_children(AstOp::FpIsInf(a2))) =~= child_hashes(seq![a2]));
        assert(child_hashes(seq![a])[0] == a.spec_hash());
        assert(child_hashes(seq![a2])[0] == a2.spec_hash());
    }
}

/// Hashing `StrLen`.
proof fn lemma_hash_strlen(a: AstRef, a2: AstRef)
    ensures
        (op_hash_words(AstOp::StrLen(a)) == op_hash_words(AstOp::StrLen(a2))) ==> (a.spec_hash() == a2.spec_hash()),
{
    if op_hash_words(AstOp::StrLen(a)) == op_hash_words(AstOp::StrLen(a2)) {
        lemma_rest_of_words(AstOp::StrLen(a), AstOp::StrLen(a2));
        assert(op_param_words(AstOp::StrLen(a)) + child_hashes(op_children(AstOp::StrLen(a))) =~= child_hashes(seq![a]));
        assert(op_param_words(AstOp::StrLen(a2)) + child_hashes(op_children(AstOp::StrLen(a2))) =~= child_hashes(seq![a2]));
        assert(child_hashes(seq![a])[0] == a.spec_hash());
        assert(child_hashes(seq![a2])[0] == a2.spec_hash());
    }
}

/// Hashing `StrConcat`.
proof fn lemma_hash_strconcat(a: AstRef, b: AstRef, a2: AstRef, b2: AstRef)
    ensures
        (op_hash_words(AstOp::StrConcat(a, b)) == op_hash_words(AstOp::StrConcat(a2, b2))) ==> (a.spec_hash() == a2.spec_hash() && b.spec_hash() == b2.spec_hash()),
{
    if op_hash_words(AstOp::StrConcat(a, b)) == op_hash_words(AstOp::StrConcat(a2, b2)) {
        lemma_rest_of_words(AstOp::StrConcat(a, b), AstOp::StrConcat(a2, b2));
        assert(op_param_words(AstOp::StrConcat(a, b)) + child_hashes(op_children(AstOp::StrConcat(a, b))) =~= child_hashes(seq![a, b]));
        assert(op_param_words(AstOp::StrConcat(a2, b2)) + child_hashes(op_children(AstOp::StrConcat(a2, b2))) =~= child_hashes(seq![a2, b2]));
        assert(child_hashes(seq![a, b])[0] == a.spec_hash());
        assert(child_hashes(seq![a2, b2])[0] == a2.spec_hash());
        assert(child_hashes(seq![a, b])[1] == b.spec_hash());
        assert(child_hashes(seq![a2, b2])[1] == b2.spec_hash());
    }
}

/// Hashing `StrSubstr`.
proof fn lemma_hash_strsubstr(a: AstRef, b: AstRef, c: AstRef, a2: AstRef, b2: AstRef, c2: AstRef)
    ensures
        (op_hash_words(AstOp::StrSubstr(a, b, c)) == op_hash_words(AstOp::StrSubstr(a2, b2, c2))) ==> (a.spec_hash() == a2.spec_hash() && b.spec_hash() == b2.spec_hash() && c.spec_hash() == c2.spec_hash()),
{
    if op_hash_words(AstOp::StrSubstr(a, b, c)) == op_hash_words(AstOp::StrSubstr(a2, b2, c2)) {
        lemma_rest_of_words(AstOp::StrSubstr(a, b, c), AstOp::StrSubstr(a2, b2, c2));
        assert(op_param_words(AstOp::StrSubstr(a, b, c)) + child_hashes(op_children(AstOp::StrSubstr(a, b, c))) =~= child_hashes(seq![a, b, c]));
        assert(op_param_words(AstOp::StrSubstr(a2, b2, c2)) + child_hashes(op_children(AstOp::StrSubstr(a2, b2, c2))) =~= child_hashes(seq![a2, b2, c2]));
        assert(child_hashes(seq![a, b, c])[0] == a.spec_hash());
        assert(child_hashes(seq![a2, b2, c2])[0] == a2.spec_hash());
        assert(child_hashes(seq![a, b, c])[1] == b.spec_hash());
        assert(child_hashes(seq![a2, b2, c2])[1] == b2.spec_hash());
        assert(child_hashes(seq![a, b, c])[2] == c.spec_hash());
        assert(child_hashes(seq![a2, b2, c2])[2] == c2.spec_hash());
    }
}

/// Hashing `StrContains`.
proof fn lemma_hash_strcontains(a: AstRef, b: AstRef, a2: AstRef, b2: AstRef)
    ensures
        (op_hash_words(AstOp::StrContains(a, b)) == op_hash_words(AstOp::StrContains(a2, b2))) ==> (a.spec_hash() == a2.spec_hash() && b.spec_hash() == b2.spec_hash()),
{
    if op_hash_words(AstOp::StrContains(a, b)) == op_hash_words(AstOp::StrContains(a2, b2)) {
        lemma_rest_of_words(AstOp::StrContains(a, b), AstOp::StrContains(a2, b2));
        assert(op_param_words(AstOp::StrContains(a, b)) + child_hashes(op_children(AstOp::StrContains(a, b))) =~= child_hashes(seq![a, b]));
        assert(op_param_words(AstOp::StrContains(a2, b2)) + child_hashes(op_children(AstOp::StrContains(a2, b2))) =~= child_hashes(seq![a2, b2]));
        assert(child_hashes(seq![a, b])[0] == a.spec_hash());
        assert(child_hashes(seq![a2, b2])[0] == a2.spec_hash());
        assert(child_hashes(seq![a, b])[1] == b.spec_hash());
        assert(child_hashes(seq![a2, b2])[1] == b2.spec_hash());
    }
}

/// Hashing `StrReplace`.
proof fn lemma_hash_strreplace(a: AstRef, b: AstRef, c: AstRef, a2: AstRef, b2: AstRef, c2: AstRef)
    ensures
        (op_hash_words(AstOp::StrReplace(a, b, c)) == op_hash_words(AstOp::StrReplace(a2, b2, c2))) ==> (a.spec_hash() == a2.spec_hash() && b.spec_hash() == b2.spec_hash() && c.spec_hash() == c2.spec_hash()),
{
    if op_hash_words(AstOp::StrReplace(a, b, c)) == op_hash_words(AstOp::StrReplace(a2, b2, c2)) {
        lemma_rest_of_words(AstOp::StrReplace(a, b, c), AstOp::StrReplace(a2, b2, c2));
        assert(op_param_words(AstOp::StrReplace(a, b, c)) + child_hashes(op_children(AstOp::StrReplace(a, b, c))) =~= child_hashes(seq![a, b, c]));
        assert(op_param_words(AstOp::StrReplace(a2, b2, c2)) + child_hashes(op_children(AstOp::StrReplace(a2, b2, c2))) =~= child_hashes(seq![a2, b2, c2]));
        assert(child_hashes(seq![a, b, c])[0] == a.spec_hash());
        assert(child_hashes(seq![a2, b2, c2])[0] == a2.spec_hash());
        assert(child_hashes(seq![a, b, c])[1] == b.spec_hash());
        assert(child_hashes(seq![a2, b2, c2])[1] == b2.spec_hash());
        assert(child_hashes(seq![a, b, c])[2] == c.spec_hash());
        assert(child_hashes(seq![a2, b2, c2])[2] == c2.spec_hash());
    }
}

/// Hashing `StrPrefixOf`.
proof fn lemma_hash_strprefixof(a: AstRef, b: AstRef, a2: AstRef, b2: AstRef)
    ensures
        (op_hash_words(AstOp::StrPrefixOf(a, b)) == op_hash_words(AstOp::StrPrefixOf(a2, b2))) ==> (a.spec_hash() == a2.spec_hash() && b.spec_hash() == b2.spec_hash()),
{
    if op_hash_words(AstOp::StrPrefixOf(a, b)) == op_hash_words(AstOp::StrPrefixOf(a2, b2)) {
        lemma_rest_of_words(AstOp::StrPrefixOf(a, b), AstOp::StrPrefixOf(a2, b2));
        assert(op_param_words(AstOp::StrPrefixOf(a, b)) + child_hashes(op_children(AstOp::StrPrefixOf(a, b))) =~= child_hashes(seq![a, b]));
        assert(op_param_words(AstOp::StrPrefixOf(a2, b2)) + child_hashes(op_children(AstOp::StrPrefixOf(a2, b2))) =~= child_hashes(seq![a2, b2]));
        assert(child_hashes(seq![a, b])[0] == a.spec_hash());
        assert(child_hashes(seq![a2, b2])[0] == a2.spec_hash());
        assert(child_hashes(seq![a, b])[1] == b.spec_hash());
        assert(child_hashes(seq![a2, b2])[1] == b2.spec_hash());
    }
}

/// Hashing `StrSuffixOf`.
proof fn lemma_hash_strsuffixof(a: AstRef, b: AstRef, a2: AstRef, b2: AstRef)
    ensures
        (op_hash_words(AstOp::StrSuffixOf(a, b)) == op_hash_words(AstOp::StrSuffixOf(a2, b2))) ==> (a.spec_hash() == a2.spec_hash() && b.spec_hash() == b2.spec_hash()),
{
    if op_hash_words(AstOp::StrSuffixOf(a, b)) == op_hash_words(AstOp::StrSuffixOf(a2, b2)) {
        lemma_rest_of_words(AstOp::StrSuffixOf(a, b), AstOp::StrSuffixOf(a2, b2));
        assert(op_param_words(AstOp::StrSuffixOf(a, b)) + child_hashes(op_children(AstOp::StrSuffixOf(a, b))) =~= child_hashes(seq![a, b]));
        assert(op_param_words(AstOp::StrSuffixOf(a2, b2)) + child_hashes(op_children(AstOp::StrSuffixOf(a2, b2))) =~= child_hashes(seq![a2, b2]));
        assert(child_hashes(seq![a, b])[0] == a.spec_hash());
        assert(child_hashes(seq![a2, b2])[0] == a2.spec_hash());
        assert(child_hashes(seq![a, b])[1] == b.spec_hash());
        assert(child_hashes(seq![a2, b2])[1] == b2.spec_hash());
    }
}

/// Hashing `StrToBV`.
proof fn lemma_hash_strtobv(a: AstRef, a2: AstRef)
    ensures
        (op_hash_words(AstOp::StrToBV(a)) == op_hash_words(AstOp::StrToBV(a2))) ==> (a.spec_hash() == a2.spec_hash()),
{
    if op_hash_words(AstOp::StrToBV(a)) == op_hash_words(AstOp::StrToBV(a2)) {
        lemma_rest_of_words(AstOp::StrToBV(a), AstOp::StrToBV(a2));
        assert(op_param_words(AstOp::StrToBV(a)) + child_hashes(op_children(AstOp::StrToBV(a))) =~= child_hashes(seq![a]));
        assert(op_param_words(AstOp::StrToBV(a2)) + child_hashes(op_children(AstOp::StrToBV(a2))) =~= child_hashes(seq![a2]));
        assert(child_hashes(seq![a])[0] == a.spec_hash());
        assert(child_hashes(seq![a2])[0] == a2.spec_hash());
    }
}

/// Hashing `BVToStr`.
proof fn lemma_hash_bvtostr(a: AstRef, a2: AstRef)
    ensures
        (op_hash_words(AstOp::BVToStr(a)) == op_hash_words(AstOp::BVToStr(a2))) ==> (a.spec_hash() == a2.spec_hash()),
{
    if op_hash_words(AstOp::BVToStr(a)) == op_hash_words(AstOp::BVToStr(a2)) {
        lemma_rest_of_words(AstOp::BVToStr(a), AstOp::BVToStr(a2));
        assert(op_param_words(AstOp::BVToStr(a)) + child_hashes(op_children(AstOp::BVToStr(a))) =~= child_hashes(seq![a]));
        assert(op_param_words(AstOp::BVToStr(a2)) + child_hashes(op_children(AstOp::BVToStr(a2))) =~= child_hashes(seq![a2]));
        assert(child_hashes(seq![a])[0] == a.spec_hash());
        assert(child_hashes(seq![a2])[0] == a2.spec_hash());
    }
}

/// Hashing `StrIsDigit`.
proof fn lemma_hash_strisdigit(a: AstRef, a2: AstRef)
    ensures
        (op_hash_words(AstOp::StrIsDigit(a)) == op_hash_words(AstOp::StrIsDigit(a2))) ==> (a.spec_hash() == a2.spec_hash()),
{
    if op_hash_words(AstOp::StrIsDigit(a)) == op_hash_words(AstOp::StrIsDigit(a2)) {
        lemma_rest_of_words(AstOp::StrIsDigit(a), AstOp::StrIsDigit(a2));
        assert(op_param_words(AstOp::StrIsDigit(a)) + child_hashes(op_children(AstOp::StrIsDigit(a))) =~= child_hashes(seq![a]));
        assert(op_param_words(AstOp::StrIsDigit(a2)) + child_hashes(op_children(AstOp::StrIsDigit(a2))) =~= child_hashes(seq![a2]));
        assert(child_hashes(seq![a])[0] == a.spec_hash());
        assert(child_hashes(seq![a2])[0] == a2.spec_hash());
    }
}

/// Hashing `StrEq`.
proof fn lemma_hash_streq(a: AstRef, b: AstRef, a2: AstRef, b2: AstRef)
    ensures
        (op_hash_words(AstOp::StrEq(a, b)) == op_hash_words(AstOp::StrEq(a2, b2))) ==> (a.spec_hash() == a2.spec_hash() && b.spec_hash() == b2.spec_hash()),
{
    if op_hash_words(AstOp::StrEq(a, b)) == op_hash_words(AstOp::StrEq(a2, b2)) {
        lemma_rest_of_words(AstOp::StrEq(a, b), AstOp::StrEq(a2, b2));
        assert(op_param_words(AstOp::StrEq(a, b)) + child_hashes(op_children(AstOp::StrEq(a, b))) =~= child_hashes(seq![a, b]));
        assert(op_param_words(AstOp::StrEq(a2, b2)) + child_hashes(op_children(AstOp::StrEq(a2, b2))) =~= child_hashes(seq![a2, b2]));
        assert(child_hashes(seq![a, b])[0] == a.spec_hash());
        assert(child_hashes(seq![a2, b2])[0] == a2.spec_hash());
        assert(child_hashes(seq![a, b])[1] == b.spec_hash());
        assert(child_hashes(seq![a2, b2])[1] == b2.spec_hash());
    }
}

/// Hashing `StrNeq`.
proof fn lemma_hash_strneq(a: AstRef, b: AstRef, a2: AstRef, b2: AstRef)
    ensures
        (op_hash_words(AstOp::StrNeq(a, b)) == op_hash_words(AstOp::StrNeq(a2, b2))) ==> (a.spec_hash() == a2.spec_hash() && b.spec_hash() == b2.spec_hash()),
{
    if op_hash_words(AstOp::StrNeq(a, b)) == op_hash_words(AstOp::StrNeq(a2, b2)) {
        lemma_rest_of_words(AstOp::StrNeq(a, b), AstOp::StrNeq(a2, b2));
        assert(op_param_words(AstOp::StrNeq(a, b)) + child_hashes(op_children(AstOp::StrNeq(a, b))) =~= child_hashes(seq![a, b]));
        assert(op_param_words(AstOp::StrNeq(a2, b2)) + child_hashes(op_children(AstOp::StrNeq(a2, b2))) =~= child_hashes(seq![a2, b2]));
        assert(child_hashes(seq![a, b])[0] == a.spec_hash());
        assert(child_hashes(seq![a2, b2])[0] == a2.spec_hash());
        assert(child_hashes(seq![a, b])[1] == b.spec_hash());
        assert(child_hashes(seq![a2, b2])[1] == b2.spec_hash());
    }
}

/// Hashing `If`.
proof fn lemma_hash_if(a: AstRef, b: AstRef, c: AstRef, a2: AstRef, b2: AstRef, c2: AstRef)
    ensures
        (op_hash_words(AstOp::If(a, b, c)) == op_hash_words(AstOp::If(a2, b2, c2))) ==> (a.spec_hash() == a2.spec_hash() && b.spec_hash() == b2.spec_hash() && c.spec_hash() == c2.spec_hash()),
{
    if op_hash_words(AstOp::If(a, b, c)) == op_hash_words(AstOp::If(a2, b2, c2)) {
        lemma_rest_of_words(AstOp::If(a, b, c), AstOp::If(a2, b2, c2));
        assert(op_param_words(AstOp::If(a, b, c)) + child_hashes(op_children(AstOp::If(a, b, c))) =~= child_hashes(seq![a, b, c]));
        assert(op_param_words(AstOp::If(a2, b2, c2)) + child_hashes(op_children(AstOp::If(a2, b2, c2))) =~= child_hashes(seq![a2, b2, c2]));
        assert(child_hashes(seq![a, b, c])[0] == a.spec_hash());
        assert(child_hashes(seq![a2, b2, c2])[0] == a2.spec_hash());
        assert(child_hashes(seq![a, b, c])[1] == b.spec_hash());
        assert(child_hashes(seq![a2, b2, c2])[1] == b2.spec_hash());
        assert(child_hashes(seq![a, b, c])[2] == c.spec_hash());
        assert(child_hashes(seq![a2, b2, c2])[2] == c2.spec_hash());
    }
}

/// A UTF-8 encoding takes at most four bytes a character.
proof fn lemma_utf8_len(s: Seq<char>)
    ensures
        encode_utf8(s).len() <= 4 * s.len(),
    decreases s.len(),
{
    if s.len() > 0 {
        lemma_utf8_len(s.drop_first());
    }
}

/// Every operation's name is short.
proof fn lemma_name_short(x: AstOp)
    ensures
        op_name(x).len() <= 20,
{
    lemma_name_letters();
}

/// Operations whose hashed words are equal are of the same kind: the words
/// begin with the operation's name, and no two kinds share a name.
pub proof fn lemma_hash_words_tell_kinds(x: AstOp, y: AstOp)
    requires
        op_hash_words(x) == op_hash_words(y),
    ensures
        kind_position(x) == kind_position(y),
{
    lemma_name_short(x);
    lemma_name_short(y);
    lemma_utf8_len(op_name(x));
    lemma_utf8_len(op_name(y));
    let rx = op_param_words(x) + child_hashes(op_children(x));
    let ry = op_param_words(y) + child_hashes(op_children(y));
    assert(op_hash_words(x) =~= str_words(op_name(x)) + rx);
    assert(op_hash_words(y) =~= str_words(op_name(y)) + ry);
    lemma_str_prefix(op_name(x), rx, op_name(y), ry);
    lemma_names_tell_kinds(x, y);
}

} // verus!
