//! The operations of the expression language, their result kinds, their
//! argument checks and their operands.

use vstd::prelude::*;
use crate::ast::node::AstRef;
use crate::bitvec::BitVec;
use crate::values::{Annotation, AnnotationView, FSort, Float, FPRM};

verus! {

/// The sort of value that an expression denotes.
#[derive(Debug, Clone, Copy, PartialEq, Eq, Hash, Structural)]
pub enum AstKind {
    Bool,
    BitVec,
    Float,
    String,
}

impl AstKind {
    pub fn is_bool(&self) -> (r: bool)
        ensures
            r == (*self == AstKind::Bool),
    {
        match self {
            AstKind::Bool => true,
            _ => false,
        }
    }

    pub fn is_bitvec(&self) -> (r: bool)
        ensures
            r == (*self == AstKind::BitVec),
    {
        match self {
            AstKind::BitVec => true,
            _ => false,
        }
    }

    pub fn is_float(&self) -> (r: bool)
        ensures
            r == (*self == AstKind::Float),
    {
        match self {
            AstKind::Float => true,
            _ => false,
        }
    }

    pub fn is_string(&self) -> (r: bool)
        ensures
            r == (*self == AstKind::String),
    {
        match self {
            AstKind::String => true,
            _ => false,
        }
    }
}

/// An operation together with its operands.
#[derive(Debug, Clone, PartialEq, Eq, Hash)]
pub enum AstOp {
    // Primitive ops
    BoolS(String),
    BoolV(bool),
    BVS(String, u32),
    BVV(BitVec),
    FPS(String, FSort),
    FPV(Float),
    StringS(String, u32),
    StringV(String),

    // Bit ops
    Not(AstRef),
    And(AstRef, AstRef),
    Or(AstRef, AstRef),
    Xor(AstRef, AstRef),

    // Arithmetic ops
    Add(AstRef, AstRef),
    Sub(AstRef, AstRef),
    Mul(AstRef, AstRef),
    UDiv(AstRef, AstRef),
    SDiv(AstRef, AstRef),
    URem(AstRef, AstRef),
    SRem(AstRef, AstRef),
    Pow(AstRef, AstRef),

    // Bitvector ops
    LShL(AstRef, AstRef),
    LShR(AstRef, AstRef),
    AShL(AstRef, AstRef),
    AShR(AstRef, AstRef),
    RotateLeft(AstRef, AstRef),
    RotateRight(AstRef, AstRef),
    ZeroExt(AstRef, u32),
    SignExt(AstRef, u32),
    Extract(AstRef, u32, u32),
    Concat(AstRef, AstRef),
    Reverse(AstRef),

    // Bitvector comparison ops
    Eq(AstRef, AstRef),
    Neq(AstRef, AstRef),
    ULT(AstRef, AstRef),
    ULE(AstRef, AstRef),
    UGT(AstRef, AstRef),
    UGE(AstRef, AstRef),
    SLT(AstRef, AstRef),
    SLE(AstRef, AstRef),
    SGT(AstRef, AstRef),
    SGE(AstRef, AstRef),

    // Floating point ops
    FpToFp(AstRef, FSort, FPRM),
    BvToFpUnsigned(AstRef, FSort, FPRM),
    FpToIEEEBV(AstRef),
    FpToUBV(AstRef, u32, FPRM),
    FpToSBV(AstRef, u32, FPRM),

    // Floating point arithmetic ops
    FpNeg(AstRef, FPRM),
    FpAbs(AstRef, FPRM),
    FpAdd(AstRef, AstRef, FPRM),
    FpSub(AstRef, AstRef, FPRM),
    FpMul(AstRef, AstRef, FPRM),
    FpDiv(AstRef, AstRef, FPRM),
    FpSqrt(AstRef, FPRM),

    // Floating point comparison ops
    FpEq(AstRef, AstRef),
    FpNeq(AstRef, AstRef),
    FpLt(AstRef, AstRef),
    FpLeq(AstRef, AstRef),
    FpGt(AstRef, AstRef),
    FpGeq(AstRef, AstRef),
    FpIsNan(AstRef),
    FpIsInf(AstRef),

    // String ops
    StrLen(AstRef),
    StrConcat(AstRef, AstRef),
    StrSubstr(AstRef, AstRef, AstRef),
    StrContains(AstRef, AstRef),
    StrIndexOf(AstRef, AstRef, AstRef),
    StrReplace(AstRef, AstRef, AstRef),
    StrPrefixOf(AstRef, AstRef),
    StrSuffixOf(AstRef, AstRef),
    StrToBV(AstRef),
    BVToStr(AstRef),
    StrIsDigit(AstRef),

    // String comparison ops
    StrEq(AstRef, AstRef),
    StrNeq(AstRef, AstRef),

    // Function ops
    If(AstRef, AstRef, AstRef),

    // Annotation ops
    Annotated(AstRef, Annotation),
}

/// The operands that `child_iter` lists, in its order. (`StrIndexOf` lists
/// its string and its substring, not its offset.)
pub open spec fn op_children(op: AstOp) -> Seq<AstRef> {
    match op {
        AstOp::BoolS(..)
        | AstOp::BoolV(..)
        | AstOp::BVS(..)
        | AstOp::BVV(..)
        | AstOp::FPS(..)
        | AstOp::FPV(..)
        | AstOp::StringS(..)
        | AstOp::StringV(..) => Seq::empty(),
        AstOp::Not(a)
        | AstOp::Reverse(a)
        | AstOp::ZeroExt(a, ..)
        | AstOp::SignExt(a, ..)
        | AstOp::Extract(a, ..)
        | AstOp::FpToFp(a, ..)
        | AstOp::BvToFpUnsigned(a, ..)
        | AstOp::FpToIEEEBV(a)
        | AstOp::FpToUBV(a, ..)
        | AstOp::FpToSBV(a, ..)
        | AstOp::FpNeg(a, ..)
        | AstOp::FpAbs(a, ..)
        | AstOp::FpSqrt(a, ..)
        | AstOp::FpIsNan(a)
        | AstOp::FpIsInf(a)
        | AstOp::StrLen(a)
        | AstOp::StrToBV(a)
        | AstOp::BVToStr(a)
        | AstOp::StrIsDigit(a)
        | AstOp::Annotated(a, ..) => seq![a],
        AstOp::And(a, b)
        | AstOp::Or(a, b)
        | AstOp::Xor(a, b)
        | AstOp::Add(a, b)
        | AstOp::Sub(a, b)
        | AstOp::Mul(a, b)
        | AstOp::UDiv(a, b)
        | AstOp::SDiv(a, b)
        | AstOp::URem(a, b)
        | AstOp::SRem(a, b)
        | AstOp::Pow(a, b)
        | AstOp::LShL(a, b)
        | AstOp::LShR(a, b)
        | AstOp::AShL(a, b)
        | AstOp::AShR(a, b)
        | AstOp::RotateLeft(a, b)
        | AstOp::RotateRight(a, b)
        | AstOp::Concat(a, b)
        | AstOp::Eq(a, b)
        | AstOp::Neq(a, b)
        | AstOp::ULT(a, b)
        | AstOp::ULE(a, b)
        | AstOp::UGT(a, b)
        | AstOp::UGE(a, b)
        | AstOp::SLT(a, b)
        | AstOp::SLE(a, b)
        | AstOp::SGT(a, b)
        | AstOp::SGE(a, b)
        | AstOp::FpAdd(a, b, ..)
        | AstOp::FpSub(a, b, ..)
        | AstOp::FpMul(a, b, ..)
        | AstOp::FpDiv(a, b, ..)
        | AstOp::FpEq(a, b)
        | AstOp::FpNeq(a, b)
        | AstOp::FpLt(a, b)
        | AstOp::FpLeq(a, b)
        | AstOp::FpGt(a, b)
        | AstOp::FpGeq(a, b)
        | AstOp::StrConcat(a, b)
        | AstOp::StrContains(a, b)
        | AstOp::StrIndexOf(a, b, _)
        | AstOp::StrPrefixOf(a, b)
        | AstOp::StrSuffixOf(a, b)
        | AstOp::StrEq(a, b)
        | AstOp::StrNeq(a, b) => seq![a, b],
        AstOp::StrSubstr(a, b, c) | AstOp::StrReplace(a, b, c) | AstOp::If(a, b, c) => seq![
            a,
            b,
            c,
        ],
    }
}

/// The sort of value that an operation yields, given the sorts of its operands.
pub open spec fn kind_of_op(op: AstOp) -> AstKind
    decreases op, 0nat,
{
    match op {
        AstOp::BoolS(..) | AstOp::BoolV(..) => AstKind::Bool,
        AstOp::BVS(..) | AstOp::BVV(..) => AstKind::BitVec,
        AstOp::FPS(..) | AstOp::FPV(..) => AstKind::Float,
        AstOp::StringS(..) | AstOp::StringV(..) => AstKind::String,
        AstOp::Not(a) => a.spec_kind(),
        AstOp::And(a, ..) => a.spec_kind(),
        AstOp::Or(a, ..) => a.spec_kind(),
        AstOp::Xor(a, ..) => a.spec_kind(),
        AstOp::If(_, _, a) => a.spec_kind(),
        AstOp::Add(..)
        | AstOp::Sub(..)
        | AstOp::Mul(..)
        | AstOp::UDiv(..)
        | AstOp::SDiv(..)
        | AstOp::URem(..)
        | AstOp::SRem(..)
        | AstOp::Pow(..)
        | AstOp::LShL(..)
        | AstOp::LShR(..)
        | AstOp::AShL(..)
        | AstOp::AShR(..)
        | AstOp::RotateLeft(..)
        | AstOp::RotateRight(..)
        | AstOp::ZeroExt(..)
        | AstOp::SignExt(..)
        | AstOp::Extract(..)
        | AstOp::Concat(..)
        | AstOp::Reverse(..) => AstKind::BitVec,
        AstOp::Eq(..)
        | AstOp::Neq(..)
        | AstOp::ULT(..)
        | AstOp::ULE(..)
        | AstOp::UGT(..)
        | AstOp::UGE(..)
        | AstOp::SLT(..)
        | AstOp::SLE(..)
        | AstOp::SGT(..)
        | AstOp::SGE(..) => AstKind::Bool,
        AstOp::FpToFp(..) | AstOp::BvToFpUnsigned(..) => AstKind::Float,
        AstOp::FpToIEEEBV(..) | AstOp::FpToUBV(..) | AstOp::FpToSBV(..) => AstKind::BitVec,
        AstOp::FpNeg(..)
        | AstOp::FpAbs(..)
        | AstOp::FpAdd(..)
        | AstOp::FpSub(..)
        | AstOp::FpMul(..)
        | AstOp::FpDiv(..)
        | AstOp::FpSqrt(..) => AstKind::Float,
        AstOp::FpEq(..)
        | AstOp::FpNeq(..)
        | AstOp::FpLt(..)
        | AstOp::FpLeq(..)
        | AstOp::FpGt(..)
        | AstOp::FpGeq(..)
        | AstOp::FpIsNan(..)
        | AstOp::FpIsInf(..) => AstKind::Bool,
        AstOp::StrLen(..) => AstKind::BitVec,
        AstOp::StrConcat(..) | AstOp::StrSubstr(..) => AstKind::String,
        AstOp::StrContains(..) => AstKind::Bool,
        AstOp::StrIndexOf(..) => AstKind::BitVec,
        AstOp::StrReplace(..) => AstKind::String,
        AstOp::StrPrefixOf(..) | AstOp::StrSuffixOf(..) => AstKind::Bool,
        AstOp::StrToBV(..) => AstKind::BitVec,
        AstOp::BVToStr(..) => AstKind::String,
        AstOp::StrIsDigit(..) | AstOp::StrEq(..) | AstOp::StrNeq(..) => AstKind::Bool,
        AstOp::Annotated(a, ..) => a.spec_kind(),
    }
}

/// The width in bits of the bit-vector that an operation yields, from its
/// parameters and the widths of its operands: a symbol or constant has its
/// own width; the bitwise, arithmetic, shift and rotate operations, `Reverse`
/// and `Annotated` keep the width of their first operand; an extension adds
/// its amount; `Extract(a, upper, lower)` is `upper - lower + 1` bits wide;
/// `Concat` adds its operands' widths; a conversion from a float names its
/// width; `If` has the width of its `else` branch. It is 0 for operations that
/// do not yield a bit-vector, and for the bit-vector results whose width
/// no parameter gives (`FpToIEEEBV`, `StrLen`, `StrIndexOf`, `StrToBV`).
pub open spec fn width_of_op(op: AstOp) -> int
    decreases op, 0nat,
{
    match op {
        AstOp::BVS(_, size) => size as int,
        AstOp::BVV(bv) => bv.spec_len() as int,
        AstOp::Not(a) => a.spec_width(),
        AstOp::Reverse(a) => a.spec_width(),
        AstOp::And(a, _) => a.spec_width(),
        AstOp::Or(a, _) => a.spec_width(),
        AstOp::Xor(a, _) => a.spec_width(),
        AstOp::Add(a, _) => a.spec_width(),
        AstOp::Sub(a, _) => a.spec_width(),
        AstOp::Mul(a, _) => a.spec_width(),
        AstOp::UDiv(a, _) => a.spec_width(),
        AstOp::SDiv(a, _) => a.spec_width(),
        AstOp::URem(a, _) => a.spec_width(),
        AstOp::SRem(a, _) => a.spec_width(),
        AstOp::Pow(a, _) => a.spec_width(),
        AstOp::LShL(a, _) => a.spec_width(),
        AstOp::LShR(a, _) => a.spec_width(),
        AstOp::AShL(a, _) => a.spec_width(),
        AstOp::AShR(a, _) => a.spec_width(),
        AstOp::RotateLeft(a, _) => a.spec_width(),
        AstOp::RotateRight(a, _) => a.spec_width(),
        AstOp::ZeroExt(a, n) => a.spec_width() + n,
        AstOp::SignExt(a, n) => a.spec_width() + n,
        AstOp::Extract(_, upper, lower) => upper - lower + 1,
        AstOp::Concat(a, b) => a.spec_width() + b.spec_width(),
        AstOp::FpToUBV(_, n, _) => n as int,
        AstOp::FpToSBV(_, n, _) => n as int,
        AstOp::If(_, _, e) => e.spec_width(),
        AstOp::Annotated(a, _) => a.spec_width(),
        _ => 0,
    }
}

/// `valid_args` gives an answer for every operation but `If` and `Annotated`.
pub open spec fn valid_args_defined(op: AstOp) -> bool {
    !(op is If || op is Annotated)
}

/// Whether the operands have the sorts that the operation takes (and a
/// symbol has a nonempty name, and a float-to-unsigned conversion a
/// nonzero width).
pub open spec fn op_valid_args(op: AstOp) -> bool {
    match op {
        AstOp::BoolS(name) | AstOp::BVS(name, ..) | AstOp::FPS(name, ..) | AstOp::StringS(
            name,
            ..,
        ) => name@.len() != 0,
        AstOp::BoolV(..) | AstOp::BVV(..) | AstOp::FPV(..) | AstOp::StringV(..) => true,
        AstOp::Not(a) => a.spec_kind() == AstKind::Bool || a.spec_kind() == AstKind::BitVec,
        AstOp::And(l, r) | AstOp::Or(l, r) | AstOp::Xor(l, r) => (l.spec_kind() == AstKind::Bool
            || l.spec_kind() == AstKind::BitVec) && l.spec_kind() == r.spec_kind(),
        AstOp::Add(l, r)
        | AstOp::Sub(l, r)
        | AstOp::Mul(l, r)
        | AstOp::UDiv(l, r)
        | AstOp::SDiv(l, r)
        | AstOp::URem(l, r)
        | AstOp::SRem(l, r)
        | AstOp::Pow(l, r)
        | AstOp::LShL(l, r)
        | AstOp::LShR(l, r)
        | AstOp::AShL(l, r)
        | AstOp::AShR(l, r)
        | AstOp::RotateLeft(l, r)
        | AstOp::RotateRight(l, r)
        | AstOp::Concat(l, r)
        | AstOp::Eq(l, r)
        | AstOp::Neq(l, r)
        | AstOp::ULT(l, r)
        | AstOp::ULE(l, r)
        | AstOp::UGT(l, r)
        | AstOp::UGE(l, r)
        | AstOp::SLT(l, r)
        | AstOp::SLE(l, r)
        | AstOp::SGT(l, r)
        | AstOp::SGE(l, r) => l.spec_kind() == AstKind::BitVec && r.spec_kind() == AstKind::BitVec,
        AstOp::ZeroExt(a, _) | AstOp::SignExt(a, _) | AstOp::Extract(a, _, _) | AstOp::Reverse(a) => a.spec_kind() == AstKind::BitVec,
        AstOp::FpToFp(a, _, _)
        | AstOp::BvToFpUnsigned(a, _, _)
        | AstOp::FpToIEEEBV(a)
        | AstOp::FpToSBV(a, _, _) => a.spec_kind() == AstKind::Float,
        AstOp::FpToUBV(a, size, _) => a.spec_kind() == AstKind::Float && size > 0,
        AstOp::FpNeg(a, _) | AstOp::FpAbs(a, _) | AstOp::FpSqrt(a, _) => a.spec_kind()
            == AstKind::Float,
        AstOp::FpAdd(l, r, _)
        | AstOp::FpSub(l, r, _)
        | AstOp::FpMul(l, r, _)
        | AstOp::FpDiv(l, r, _) => l.spec_kind() == AstKind::Float && r.spec_kind() == AstKind::Float,
        AstOp::FpEq(l, r)
        | AstOp::FpNeq(l, r)
        | AstOp::FpLt(l, r)
        | AstOp::FpLeq(l, r)
        | AstOp::FpGt(l, r)
        | AstOp::FpGeq(l, r) => l.spec_kind() == AstKind::Float && r.spec_kind() == AstKind::Float,
        AstOp::FpIsNan(a) | AstOp::FpIsInf(a) => a.spec_kind() == AstKind::Float,
        AstOp::StrLen(a) => a.spec_kind() == AstKind::String,
        AstOp::StrConcat(l, r) => l.spec_kind() == AstKind::String && r.spec_kind() == AstKind::String,
        AstOp::StrSubstr(l, r, s) => l.spec_kind() == AstKind::BitVec && r.spec_kind() == AstKind::BitVec
            && s.spec_kind() == AstKind::String,
        AstOp::StrReplace(l, r, s) => l.spec_kind() == AstKind::String && r.spec_kind() == AstKind::String
            && s.spec_kind() == AstKind::String,
        AstOp::StrContains(l, r) | AstOp::StrPrefixOf(l, r) | AstOp::StrSuffixOf(l, r) => l.spec_kind()
            == AstKind::String && r.spec_kind() == AstKind::String,
        AstOp::StrIndexOf(base, sub, offset) => base.spec_kind() == AstKind::String
            && sub.spec_kind() == AstKind::String && offset.spec_kind() == AstKind::BitVec,
        AstOp::StrToBV(a) => a.spec_kind() == AstKind::String,
        AstOp::BVToStr(a) => a.spec_kind() == AstKind::BitVec,
        AstOp::StrIsDigit(a) => a.spec_kind() == AstKind::String,
        AstOp::StrEq(l, r) | AstOp::StrNeq(l, r) => l.spec_kind() == AstKind::String && r.spec_kind()
            == AstKind::String,
        AstOp::If(..) | AstOp::Annotated(..) => false,
    }
}

/// The annotations attached directly to an expression: those of an
/// `Annotated` wrapper, outermost first, then those of what it wraps.
pub open spec fn annotations_of_op(op: AstOp) -> Seq<AnnotationView>
    decreases op, 0nat,
{
    match op {
        AstOp::Annotated(a, ann) => seq![ann@] + a.spec_annotations(),
        _ => Seq::empty(),
    }
}

/// Whether the operation is `BoolV(true)`.
pub open spec fn op_is_true(op: AstOp) -> bool {
    op matches AstOp::BoolV(b) && b
}

/// Whether the operation is `BoolV(false)`.
pub open spec fn op_is_false(op: AstOp) -> bool {
    op matches AstOp::BoolV(b) && !b
}

/// Whether the operand has the given sort.
fn of_kind(a: &AstRef, k: AstKind) -> (r: bool)
    ensures
        r == (a.spec_kind() == k),
{
    a.kind() == k
}

/// Whether both operands have the given sort.
fn both_of_kind(a: &AstRef, b: &AstRef, k: AstKind) -> (r: bool)
    ensures
        r == (a.spec_kind() == k && b.spec_kind() == k),
{
    a.kind() == k && b.kind() == k
}

impl AstOp {
    /// Whether the operands have the sorts that the operation takes.
    pub fn valid_args(&self) -> (r: bool)
        requires
            valid_args_defined(*self),
        ensures
            r == op_valid_args(*self),
    {
        match self {
            AstOp::BoolS(name) | AstOp::BVS(name, ..) | AstOp::FPS(name, ..) | AstOp::StringS(
                name,
                ..,
            ) => !name.as_str().is_empty(),
            AstOp::BoolV(..) | AstOp::BVV(..) | AstOp::FPV(..) | AstOp::StringV(..) => true,
            AstOp::Not(ast) => ast.kind().is_bool() || of_kind(ast, AstKind::BitVec),
            AstOp::And(lhs, rhs) | AstOp::Or(lhs, rhs) | AstOp::Xor(lhs, rhs) => {
                (lhs.kind().is_bool() || lhs.kind().is_bitvec()) && lhs.kind() == rhs.kind()
            },
            // Bitvector ops and Bitvector comparison ops
            AstOp::Add(lhs, rhs)
            | AstOp::Sub(lhs, rhs)
            | AstOp::Mul(lhs, rhs)
            | AstOp::UDiv(lhs, rhs)
            | AstOp::SDiv(lhs, rhs)
            | AstOp::URem(lhs, rhs)
            | AstOp::SRem(lhs, rhs)
            | AstOp::Pow(lhs, rhs)
            | AstOp::LShL(lhs, rhs)
            | AstOp::LShR(lhs, rhs)
            | AstOp::AShL(lhs, rhs)
            | AstOp::AShR(lhs, rhs)
            | AstOp::RotateLeft(lhs, rhs)
            | AstOp::RotateRight(lhs, rhs)
            | AstOp::Concat(lhs, rhs)
            | AstOp::Eq(lhs, rhs)
            | AstOp::Neq(lhs, rhs)
            | AstOp::ULT(lhs, rhs)
            | AstOp::ULE(lhs, rhs)
            | AstOp::UGT(lhs, rhs)
            | AstOp::UGE(lhs, rhs)
            | AstOp::SLT(lhs, rhs)
            | AstOp::SLE(lhs, rhs)
            | AstOp::SGT(lhs, rhs)
            | AstOp::SGE(lhs, rhs) => both_of_kind(lhs, rhs, AstKind::BitVec),
            AstOp::ZeroExt(ast, _)
            | AstOp::SignExt(ast, _)
            | AstOp::Extract(ast, _, _)
            | AstOp::Reverse(ast) => of_kind(ast, AstKind::BitVec),
            // Floating point ops
            AstOp::FpToFp(ast, _, _)
            | AstOp::BvToFpUnsigned(ast, _, _)
            | AstOp::FpToIEEEBV(ast)
            | AstOp::FpToSBV(ast, _, _) => of_kind(ast, AstKind::Float),
            AstOp::FpToUBV(ast, size, _) => of_kind(ast, AstKind::Float) && *size > 0,
            // Floating point arithmetic ops
            AstOp::FpNeg(ast, _) | AstOp::FpAbs(ast, _) | AstOp::FpSqrt(ast, _) => {
                of_kind(ast, AstKind::Float)
            },
            AstOp::FpAdd(lhs, rhs, _)
            | AstOp::FpSub(lhs, rhs, _)
            | AstOp::FpMul(lhs, rhs, _)
            | AstOp::FpDiv(lhs, rhs, _) => both_of_kind(lhs, rhs, AstKind::Float),
            // Floating point comparison ops
            AstOp::FpEq(lhs, rhs)
            | AstOp::FpNeq(lhs, rhs)
            | AstOp::FpLt(lhs, rhs)
            | AstOp::FpLeq(lhs, rhs)
            | AstOp::FpGt(lhs, rhs)
            | AstOp::FpGeq(lhs, rhs) => both_of_kind(lhs, rhs, AstKind::Float),
            AstOp::FpIsNan(ast) | AstOp::FpIsInf(ast) => of_kind(ast, AstKind::Float),
            // String ops
            AstOp::StrLen(ast) => of_kind(ast, AstKind::String),
            AstOp::StrConcat(lhs, rhs) => both_of_kind(lhs, rhs, AstKind::String),
            AstOp::StrSubstr(lhs, rhs, str) => {
                both_of_kind(lhs, rhs, AstKind::BitVec) && of_kind(str, AstKind::String)
            },
            AstOp::StrReplace(lhs, rhs, str) => {
                both_of_kind(lhs, rhs, AstKind::String) && of_kind(str, AstKind::String)
            },
            AstOp::StrContains(lhs, rhs)
            | AstOp::StrPrefixOf(lhs, rhs)
            | AstOp::StrSuffixOf(lhs, rhs) => both_of_kind(lhs, rhs, AstKind::String),
            AstOp::StrIndexOf(base, substr, offset) => {
                both_of_kind(base, substr, AstKind::String) && of_kind(offset, AstKind::BitVec)
            },
            AstOp::StrToBV(ast) => of_kind(ast, AstKind::String),
            AstOp::BVToStr(ast) => of_kind(ast, AstKind::BitVec),
            AstOp::StrIsDigit(ast) => of_kind(ast, AstKind::String),
            // String comparison ops
            AstOp::StrEq(lhs, rhs) | AstOp::StrNeq(lhs, rhs) => {
                both_of_kind(lhs, rhs, AstKind::String)
            },
            AstOp::If(_, _, _) | AstOp::Annotated(_, _) => false,
        }
    }

    /// The sort of value that this operation yields.
    pub fn kind(&self) -> (r: AstKind)
        ensures
            r == kind_of_op(*self),
        decreases self, 0nat,
    {
        match self {
            AstOp::BoolS(..) | AstOp::BoolV(..) => AstKind::Bool,
            AstOp::BVS(..) | AstOp::BVV(..) => AstKind::BitVec,
            AstOp::FPS(..) | AstOp::FPV(..) => AstKind::Float,
            AstOp::StringS(..) | AstOp::StringV(..) => AstKind::String,
            AstOp::Not(ast) => ast.kind(),
            AstOp::And(ast, ..) => ast.kind(),
            AstOp::Or(ast, ..) => ast.kind(),
            AstOp::Xor(ast, ..) => ast.kind(),
            AstOp::If(.., ast) => ast.kind(),
            AstOp::Add(..)
            | AstOp::Sub(..)
            | AstOp::Mul(..)
            | AstOp::UDiv(..)
            | AstOp::SDiv(..)
            | AstOp::URem(..)
            | AstOp::SRem(..)
            | AstOp::Pow(..)
            | AstOp::LShL(..)
            | AstOp::LShR(..)
            | AstOp::AShL(..)
            | AstOp::AShR(..)
            | AstOp::RotateLeft(..)
            | AstOp::RotateRight(..)
            | AstOp::ZeroExt(..)
            | AstOp::SignExt(..)
            | AstOp::Extract(..)
            | AstOp::Concat(..)
            | AstOp::Reverse(..) => AstKind::BitVec,
            AstOp::Eq(..)
            | AstOp::Neq(..)
            | AstOp::ULT(..)
            | AstOp::ULE(..)
            | AstOp::UGT(..)
            | AstOp::UGE(..)
            | AstOp::SLT(..)
            | AstOp::SLE(..)
            | AstOp::SGT(..)
            | AstOp::SGE(..) => AstKind::Bool,
            AstOp::FpToFp(..) | AstOp::BvToFpUnsigned(..) => AstKind::Float,
            AstOp::FpToIEEEBV(..) | AstOp::FpToUBV(..) | AstOp::FpToSBV(..) => AstKind::BitVec,
            AstOp::FpNeg(..)
            | AstOp::FpAbs(..)
            | AstOp::FpAdd(..)
            | AstOp::FpSub(..)
            | AstOp::FpMul(..)
            | AstOp::FpDiv(..)
            | AstOp::FpSqrt(..) => AstKind::Float,
            AstOp::FpEq(..)
            | AstOp::FpNeq(..)
            | AstOp::FpLt(..)
            | AstOp::FpLeq(..)
            | AstOp::FpGt(..)
            | AstOp::FpGeq(..)
            | AstOp::FpIsNan(..)
            | AstOp::FpIsInf(..) => AstKind::Bool,
            AstOp::StrLen(..) => AstKind::BitVec,
            AstOp::StrConcat(..) | AstOp::StrSubstr(..) => AstKind::String,
            AstOp::StrContains(..) => AstKind::Bool,
            AstOp::StrIndexOf(..) => AstKind::BitVec,
            AstOp::StrReplace(..) => AstKind::String,
            AstOp::StrPrefixOf(..) | AstOp::StrSuffixOf(..) => AstKind::Bool,
            AstOp::StrToBV(..) => AstKind::BitVec,
            AstOp::BVToStr(..) => AstKind::String,
            AstOp::StrIsDigit(..) | AstOp::StrEq(..) | AstOp::StrNeq(..) => AstKind::Bool,
            AstOp::Annotated(ast, ..) => ast.kind(),
        }
    }

    /// The operands, in order (as `op_children` lists them).
    pub fn child_iter(&self) -> (r: Vec<&AstRef>)
        ensures
            r@.len() == op_children(*self).len(),
            forall|i: int| 0 <= i < r@.len() ==> *r@[i] == op_children(*self)[i],
    {
        let mut v: Vec<&AstRef> = Vec::new();
        match self {
            AstOp::BoolS(..)
            | AstOp::BoolV(..)
            | AstOp::BVS(..)
            | AstOp::BVV(..)
            | AstOp::FPS(..)
            | AstOp::FPV(..)
            | AstOp::StringS(..)
            | AstOp::StringV(..) => {},
            AstOp::Not(a)
            | AstOp::Reverse(a)
            | AstOp::ZeroExt(a, ..)
            | AstOp::SignExt(a, ..)
            | AstOp::Extract(a, ..)
            | AstOp::FpToFp(a, ..)
            | AstOp::BvToFpUnsigned(a, ..)
            | AstOp::FpToIEEEBV(a)
            | AstOp::FpToUBV(a, ..)
            | AstOp::FpToSBV(a, ..)
            | AstOp::FpNeg(a, ..)
            | AstOp::FpAbs(a, ..)
            | AstOp::FpSqrt(a, ..)
            | AstOp::FpIsNan(a)
            | AstOp::FpIsInf(a)
            | AstOp::StrLen(a, ..)
            | AstOp::StrToBV(a, ..)
            | AstOp::BVToStr(a)
            | AstOp::StrIsDigit(a)
            | AstOp::Annotated(a, ..) => {
                v.push(a);
            },
            AstOp::And(a, b)
            | AstOp::Or(a, b)
            | AstOp::Xor(a, b)
            | AstOp::Add(a, b)
            | AstOp::Sub(a, b)
            | AstOp::Mul(a, b)
            | AstOp::UDiv(a, b)
            | AstOp::SDiv(a, b)
            | AstOp::URem(a, b)
            | AstOp::SRem(a, b)
            | AstOp::Pow(a, b)
            | AstOp::LShL(a, b)
            | AstOp::LShR(a, b)
            | AstOp::AShL(a, b)
            | AstOp::AShR(a, b)
            | AstOp::RotateLeft(a, b)
            | AstOp::RotateRight(a, b)
            | AstOp::Concat(a, b)
            | AstOp::Eq(a, b)
            | AstOp::Neq(a, b)
            | AstOp::ULT(a, b)
            | AstOp::ULE(a, b)
            | AstOp::UGT(a, b)
            | AstOp::UGE(a, b)
            | AstOp::SLT(a, b)
            | AstOp::SLE(a, b)
            | AstOp::SGT(a, b)
            | AstOp::SGE(a, b)
            | AstOp::FpAdd(a, b, ..)
            | AstOp::FpSub(a, b, ..)
            | AstOp::FpMul(a, b, ..)
            | AstOp::FpDiv(a, b, ..)
            | AstOp::FpEq(a, b)
            | AstOp::FpNeq(a, b)
            | AstOp::FpLt(a, b)
            | AstOp::FpLeq(a, b)
            | AstOp::FpGt(a, b)
            | AstOp::FpGeq(a, b)
            | AstOp::StrConcat(a, b)
            | AstOp::StrContains(a, b)
            | AstOp::StrIndexOf(a, b, _)
            | AstOp::StrPrefixOf(a, b)
            | AstOp::StrSuffixOf(a, b)
            | AstOp::StrEq(a, b)
            | AstOp::StrNeq(a, b) => {
                v.push(a);
                v.push(b);
            },
            AstOp::StrSubstr(a, b, c) | AstOp::StrReplace(a, b, c) | AstOp::If(a, b, c) => {
                v.push(a);
                v.push(b);
                v.push(c);
            },
        }
        v
    }

    /// The operands, collected.
    pub fn children(&self) -> (r: Vec<&AstRef>)
        ensures
            r@.len() == op_children(*self).len(),
            forall|i: int| 0 <= i < r@.len() ==> *r@[i] == op_children(*self)[i],
    {
        self.child_iter()
    }

    /// The annotations attached to this expression, outermost first.
    pub fn get_annotations(&self) -> (r: Vec<Annotation>)
        ensures
            r@.map_values(|a: Annotation| a@) == annotations_of_op(*self),
        decreases self, 0nat,
    {
        match self {
            AstOp::Annotated(ast, ann) => {
                let inner = ast.get_annotations();
                let mut out: Vec<Annotation> = Vec::new();
                out.push(ann.duplicate());
                let n = inner.len();
                let mut i: usize = 0;
                while i < n
                    invariant
                        i <= n,
                        n == inner@.len(),
                        out@.map_values(|a: Annotation| a@) =~= seq![ann@] + inner@.take(i as int).map_values(|a: Annotation| a@),
                    decreases n - i,
                {
                    let ghost prev = out@;
                    out.push(inner[i].duplicate());
                    proof {
                        assert(out@.map_values(|a: Annotation| a@) =~= prev.map_values(|a: Annotation| a@).push(inner@[i as int]@));
                        assert(inner@.take(i + 1).map_values(|a: Annotation| a@) =~= inner@.take(i as int).map_values(|a: Annotation| a@).push(inner@[i as int]@));
                    }
                    i += 1;
                }
                proof {
                    assert(inner@.take(n as int) =~= inner@);
                }
                out
            },
            _ => Vec::new(),
        }
    }

    /// Whether this is the constant `true`.
    pub fn is_true(&self) -> (r: bool)
        ensures
            r == op_is_true(*self),
    {
        match self {
            AstOp::BoolV(b) => *b,
            _ => false,
        }
    }

    /// Whether this is the constant `false`.
    pub fn is_false(&self) -> (r: bool)
        ensures
            r == op_is_false(*self),
    {
        match self {
            AstOp::BoolV(b) => !*b,
            _ => false,
        }
    }
}

} // verus!

verus! {

/// The strings of a sequence, as a set of character sequences.
pub open spec fn strings_as_set(v: Seq<String>) -> Set<Seq<char>> {
    Set::new(|x: Seq<char>| exists|i: int| 0 <= i < v.len() && v[i]@ == x)
}

/// No two strings of the sequence are equal.
pub open spec fn strings_distinct(v: Seq<String>) -> bool {
    forall|i: int, j: int| 0 <= i < v.len() && 0 <= j < v.len() && i != j ==> v[i]@ != v[j]@
}

/// The name of a symbol (`BoolS`, `BVS`, `FPS`, `StringS`); `None` for every other operation.
pub open spec fn op_symbol(op: AstOp) -> Option<Seq<char>> {
    match op {
        AstOp::BoolS(name) | AstOp::BVS(name, ..) | AstOp::FPS(name, ..) | AstOp::StringS(name, ..) => Some(name@),
        _ => None,
    }
}

/// The union of the variables of the given operands.
pub open spec fn children_variables(cs: Seq<AstRef>) -> Set<Seq<char>>
    decreases cs.len(),
{
    if cs.len() == 0 {
        Set::empty()
    } else {
        children_variables(cs.drop_last()).union(cs.last().spec_variables())
    }
}

/// The variables of an operation: a symbol's own name, else those of its operands.
pub open spec fn op_variables(op: AstOp) -> Set<Seq<char>> {
    match op_symbol(op) {
        Some(name) => set![name],
        None => children_variables(op_children(op)),
    }
}

/// The greatest depth among the given operands; 0 for none.
pub open spec fn children_max_depth(cs: Seq<AstRef>) -> nat
    decreases cs.len(),
{
    if cs.len() == 0 {
        0
    } else {
        let m = children_max_depth(cs.drop_last());
        let d = cs.last().spec_depth();
        if m >= d {
            m
        } else {
            d
        }
    }
}

/// Every operand has depth at least 1.
pub open spec fn operands_have_depth(op: AstOp) -> bool {
    forall|i: int| 0 <= i < op_children(op).len() ==> #[trigger] op_children(op)[i].spec_depth() >= 1
}

/// The depth of an operation: one more than the deepest operand (1 for a leaf).
pub open spec fn op_depth(op: AstOp) -> nat {
    1 + children_max_depth(op_children(op))
}

proof fn lemma_strings_push(v: Seq<String>, s: String)
    ensures
        strings_as_set(v.push(s)) == strings_as_set(v).insert(s@),
{
    let w = v.push(s);
    assert forall|x: Seq<char>| strings_as_set(w).contains(x) implies strings_as_set(v).insert(s@).contains(x) by {
        let k = choose|k: int| 0 <= k < w.len() && w[k]@ == x;
        if k < v.len() {
            assert(v[k] == w[k]);
        }
    }
    assert forall|x: Seq<char>| strings_as_set(v).insert(s@).contains(x) implies strings_as_set(w).contains(x) by {
        if x == s@ {
            assert(w[v.len() as int] == s);
        } else {
            let k = choose|k: int| 0 <= k < v.len() && v[k]@ == x;
            assert(w[k] == v[k]);
        }
    }
    assert(strings_as_set(w) =~= strings_as_set(v).insert(s@));
}

proof fn lemma_strings_take_push(v: Seq<String>, j: int)
    requires
        0 <= j < v.len(),
    ensures
        strings_as_set(v.take(j + 1)) == strings_as_set(v.take(j)).insert(v[j]@),
{
    assert(v.take(j + 1) =~= v.take(j).push(v[j]));
    lemma_strings_push(v.take(j), v[j]);
}

/// If every operand is shallower than `u32::MAX`, so is the deepest.
pub proof fn lemma_children_max_depth_bound(cs: Seq<AstRef>)
    requires
        forall|i: int| 0 <= i < cs.len() ==> cs[i].spec_depth() < u32::MAX,
    ensures
        children_max_depth(cs) < u32::MAX,
    decreases cs.len(),
{
    if cs.len() > 0 {
        lemma_children_max_depth_bound(cs.drop_last());
    }
}

/// The deepest operand is at least as deep as each operand, and is one of them.
pub proof fn lemma_children_max_depth_is_max(cs: Seq<AstRef>)
    ensures
        forall|i: int| 0 <= i < cs.len() ==> cs[i].spec_depth() <= children_max_depth(cs),
        cs.len() > 0 ==> exists|i: int| 0 <= i < cs.len() && cs[i].spec_depth() == children_max_depth(cs),
    decreases cs.len(),
{
    if cs.len() > 0 {
        let t = cs.drop_last();
        lemma_children_max_depth_is_max(t);
        assert forall|i: int| 0 <= i < cs.len() implies cs[i].spec_depth() <= children_max_depth(cs) by {
            if i < t.len() {
                assert(t[i] == cs[i]);
            }
        }
        if t.len() > 0 && children_max_depth(t) >= cs.last().spec_depth() {
            let i = choose|i: int| 0 <= i < t.len() && t[i].spec_depth() == children_max_depth(t);
            assert(cs[i] == t[i]);
        } else {
            assert(cs[cs.len() - 1] == cs.last());
        }
    }
}

/// Whether some string of `v` equals `s`.
fn contains_string(v: &Vec<String>, s: &String) -> (r: bool)
    ensures
        r == (exists|i: int| 0 <= i < v@.len() && v@[i]@ == s@),
{
    let n = v.len();
    let mut i: usize = 0;
    while i < n
        invariant
            i <= n,
            n == v@.len(),
            forall|j: int| 0 <= j < i ==> v@[j]@ != s@,
        decreases n - i,
    {
        if v[i] == *s {
            return true;
        }
        i += 1;
    }
    false
}

impl AstOp {
    /// The variables of this operation, each once.
    pub fn variables(&self) -> (r: Vec<String>)
        ensures
            strings_as_set(r@) == op_variables(*self),
            strings_distinct(r@),
    {
        match self {
            AstOp::BoolS(name) | AstOp::BVS(name, ..) | AstOp::FPS(name, ..) | AstOp::StringS(name, ..) => {
                let mut out: Vec<String> = Vec::new();
                out.push(name.clone());
                proof {
                    assert(strings_as_set(out@) =~= set![name@]) by {
                        assert(out@[0]@ == name@);
                    }
                }
                out
            },
            _ => {
                let cs = self.child_iter();
                let ghost spec_cs = op_children(*self);
                let mut out: Vec<String> = Vec::new();
                let n = cs.len();
                let mut i: usize = 0;
                proof {
                    assert(strings_as_set(out@) =~= Set::<Seq<char>>::empty());
                    assert(spec_cs.take(0) =~= Seq::<AstRef>::empty());
                }
                while i < n
                    invariant
                        i <= n,
                        n == cs@.len(),
                        n == spec_cs.len(),
                        forall|k: int| 0 <= k < cs@.len() ==> *cs@[k] == spec_cs[k],
                        strings_as_set(out@) == children_variables(spec_cs.take(i as int)),
                        strings_distinct(out@),
                    decreases n - i,
                {
                    let vs = cs[i].variables();
                    let m = vs.len();
                    let mut j: usize = 0;
                    let ghost before = strings_as_set(out@);
                    while j < m
                        invariant
                            j <= m,
                            m == vs@.len(),
                            strings_as_set(out@) == before.union(strings_as_set(vs@.take(j as int))),
                            strings_distinct(out@),
                        decreases m - j,
                    {
                        let ghost old_out = out@;
                        if !contains_string(&out, &vs[j]) {
                            out.push(vs[j].clone());
                        }
                        proof {
                            lemma_strings_take_push(vs@, j as int);
                            if out@.len() > old_out.len() {
                                assert(out@ == old_out.push(vs@[j as int]));
                                lemma_strings_push(old_out, vs@[j as int]);
                            } else {
                                assert(strings_as_set(old_out).contains(vs@[j as int]@));
                                assert(strings_as_set(old_out).insert(vs@[j as int]@) =~= strings_as_set(old_out));
                            }
                        }
                        j += 1;
                    }
                    proof {
                        assert(vs@.take(m as int) =~= vs@);
                        assert(spec_cs.take(i + 1).drop_last() =~= spec_cs.take(i as int));
                        assert(spec_cs.take(i + 1).last() == spec_cs[i as int]);
                    }
                    i += 1;
                }
                proof {
                    assert(spec_cs.take(n as int) =~= spec_cs);
                }
                out
            },
        }
    }

    /// The depth of this operation: one more than its deepest operand.
    pub fn depth(&self) -> (r: u32)
        requires
            children_max_depth(op_children(*self)) < u32::MAX,
        ensures
            r as nat == op_depth(*self),
            operands_have_depth(*self),
    {
        let cs = self.child_iter();
        let ghost spec_cs = op_children(*self);
        let n = cs.len();
        let mut m: u32 = 0;
        let mut i: usize = 0;
        proof {
            assert(spec_cs.take(0) =~= Seq::<AstRef>::empty());
        }
        while i < n
            invariant
                i <= n,
                n == cs@.len(),
                n == spec_cs.len(),
                forall|k: int| 0 <= k < cs@.len() ==> *cs@[k] == spec_cs[k],
                m as nat == children_max_depth(spec_cs.take(i as int)),
                forall|k: int| 0 <= k < i ==> #[trigger] spec_cs[k].spec_depth() >= 1,
            decreases n - i,
        {
            let d = cs[i].depth();
            if d > m {
                m = d;
            }
            proof {
                assert(spec_cs.take(i + 1).drop_last() =~= spec_cs.take(i as int));
                assert(spec_cs.take(i + 1).last() == spec_cs[i as int]);
            }
            i += 1;
        }
        proof {
            assert(spec_cs.take(n as int) =~= spec_cs);
        }
        m + 1
    }
}

} // verus!
