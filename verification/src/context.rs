//! Building expressions: each builder checks its operands and makes the node.

use vstd::prelude::*;
use std::sync::Arc;
use crate::ast::node::{share, AstNode, AstRef};
use crate::ast::hash::hash_of_op;
use crate::ast::op::{
    AstKind, AstOp, kind_of_op, op_children, op_valid_args, valid_args_defined, children_max_depth,
    lemma_children_max_depth_bound, width_of_op,
};
use crate::ast::typed::{BitVecAst, BoolAst};
use crate::bitvec::{digits_value, BitVec, BitVecError};
use crate::values::Annotation;
use vstd::arithmetic::power2::pow2;

verus! {

/// Why an expression could not be built.
#[derive(Debug, Clone, Copy, PartialEq, Eq)]
pub enum ClaripyError {
    /// The operands do not have the sorts that the operation takes, or a
    /// symbol's name is empty.
    InvalidArguments,
    /// A bit-vector constant does not fit its width.
    BitVec(BitVecError),
}

impl From<BitVecError> for ClaripyError {
    fn from(e: BitVecError) -> (r: ClaripyError) {
        ClaripyError::BitVec(e)
    }
}

impl vstd::std_specs::convert::FromSpecImpl<BitVecError> for ClaripyError {
    open spec fn obeys_from_spec() -> bool {
        true
    }

    open spec fn from_spec(e: BitVecError) -> ClaripyError {
        ClaripyError::BitVec(e)
    }
}

/// An operand can be built upon: one more level of depth still fits a `u32`.
pub open spec fn shallow(a: AstRef) -> bool {
    a.spec_depth() < u32::MAX
}

/// The node records the hash of its operation, as every node that a
/// context makes does.
pub open spec fn hashed(n: AstRef) -> bool {
    n.spec_hash() == hash_of_op(n.spec_op())
}

/// Every operand of `op` can be built upon.
pub open spec fn operands_shallow(op: AstOp) -> bool {
    forall|i: int| 0 <= i < op_children(op).len() ==> shallow(#[trigger] op_children(op)[i])
}

/// The builder of expressions; each node it makes keeps a reference to it.
#[derive(Debug)]
pub struct Context;

/// The builder that the bindings use.
pub const GLOBAL_CONTEXT: Context = Context;

impl Context {
    /// The node for `op`, without checking its operands.
    fn make_node(&'static self, op: AstOp) -> (r: AstRef)
        requires
            operands_shallow(op),
        ensures
            r.spec_op() == op,
            r.spec_kind() == kind_of_op(op),
            r.spec_width() == width_of_op(op),
            r.spec_context() == self,
            hashed(r),
    {
        proof {
            lemma_children_max_depth_bound(op_children(op));
        }
        let hash = op.hash_value();
        Arc::new(AstNode::new(self, op, hash))
    }

    /// The node for `op` if its operands are valid for it.
    pub fn make(&'static self, op: AstOp) -> (r: Result<AstRef, ClaripyError>)
        requires
            valid_args_defined(op),
            operands_shallow(op),
        ensures
            r is Ok <==> op_valid_args(op),
            r matches Ok(n) ==> n.spec_op() == op && n.spec_kind() == kind_of_op(op)
                && n.spec_width() == width_of_op(op) && n.spec_context() == self && hashed(n),
            r matches Err(e) ==> e == ClaripyError::InvalidArguments,
    {
        if !op.valid_args() {
            return Err(ClaripyError::InvalidArguments);
        }
        Ok(self.make_node(op))
    }

    fn make_bitvec(&'static self, op: AstOp) -> (r: Result<BitVecAst, ClaripyError>)
        requires
            valid_args_defined(op),
            operands_shallow(op),
            kind_of_op(op) == AstKind::BitVec,
        ensures
            r is Ok <==> op_valid_args(op),
            r matches Ok(a) ==> a.spec_node().spec_op() == op && a.spec_node().spec_width() == width_of_op(op)
                && a.spec_node().spec_context() == self && hashed(a.spec_node()),
            r matches Err(x) ==> x == ClaripyError::InvalidArguments,
    {
        match self.make(op) {
            Ok(n) => Ok(BitVecAst::wrap(n)),
            Err(e) => Err(e),
        }
    }

    fn make_bool(&'static self, op: AstOp) -> (r: Result<BoolAst, ClaripyError>)
        requires
            valid_args_defined(op),
            operands_shallow(op),
            kind_of_op(op) == AstKind::Bool,
        ensures
            r is Ok <==> op_valid_args(op),
            r matches Ok(a) ==> a.spec_node().spec_op() == op && a.spec_node().spec_width() == width_of_op(op)
                && a.spec_node().spec_context() == self && hashed(a.spec_node()),
            r matches Err(x) ==> x == ClaripyError::InvalidArguments,
    {
        match self.make(op) {
            Ok(n) => Ok(BoolAst::wrap(n)),
            Err(e) => Err(e),
        }
    }

    /// The bit-vector symbol `name` of width `size`; refused when `name` is empty.
    pub fn bvs(&'static self, name: &str, size: u32) -> (r: Result<BitVecAst, ClaripyError>)
        ensures
            r is Ok <==> name@.len() != 0,
            r matches Ok(a) ==> (a.spec_node().spec_op() matches AstOp::BVS(n, s) && n@ == name@ && s == size)
                && a.spec_node().spec_width() == size && hashed(a.spec_node()),
            r matches Err(e) ==> e == ClaripyError::InvalidArguments,
    {
        self.make_bitvec(AstOp::BVS(name.to_owned(), size))
    }

    /// The bit-vector constant `bv`.
    pub fn bvv(&'static self, bv: BitVec) -> (r: Result<BitVecAst, ClaripyError>)
        ensures
            r matches Ok(a) && a.spec_node().spec_op() == AstOp::BVV(bv) && hashed(a.spec_node())
                && a.spec_node().spec_width() == bv.spec_len(),
    {
        self.make_bitvec(AstOp::BVV(bv))
    }

    /// The bit-vector constant of width `size` holding the number that the
    /// little-endian 64-bit `digits` denote; refused when it does not fit.
    pub fn bvv_from_biguint_with_size(&'static self, digits: &[u64], size: u32) -> (r: Result<BitVecAst, ClaripyError>)
        ensures
            r is Ok <==> digits_value(digits@) < pow2(size as nat),
            r matches Ok(a) ==> (a.spec_node().spec_op() matches AstOp::BVV(bv) && bv.spec_value()
                == digits_value(digits@) && bv.spec_len() == size) && a.spec_node().spec_width() == size
                && hashed(a.spec_node()),
            r matches Err(e) ==> e == ClaripyError::BitVec(BitVecError::BitVectorTooShort { length: size }),
    {
        match BitVec::from_digits(digits, size) {
            Ok(bv) => self.bvv(bv),
            Err(e) => Err(ClaripyError::from(e)),
        }
    }

    /// The bit-vector expression `Not(a)`, the bitwise complement.
    pub fn not(&'static self, a: &BitVecAst) -> (r: Result<BitVecAst, ClaripyError>)
        requires
            shallow(a.spec_node()),
        ensures
            r matches Ok(x) && x.spec_node().spec_op() == AstOp::Not(a.spec_node()) && hashed(x.spec_node())
                && x.spec_node().spec_width() == a.spec_node().spec_width(),
    {
        self.make_bitvec(AstOp::Not(share(a.node())))
    }

    /// The bit-vector expression `Reverse(a)`.
    pub fn reverse(&'static self, a: &BitVecAst) -> (r: Result<BitVecAst, ClaripyError>)
        requires
            shallow(a.spec_node()),
        ensures
            r matches Ok(x) && x.spec_node().spec_op() == AstOp::Reverse(a.spec_node()) && hashed(x.spec_node())
                && x.spec_node().spec_width() == a.spec_node().spec_width(),
    {
        self.make_bitvec(AstOp::Reverse(share(a.node())))
    }

    /// The bit-vector expression `ZeroExt(a, amount)`.
    pub fn zero_ext(&'static self, a: &BitVecAst, amount: u32) -> (r: Result<BitVecAst, ClaripyError>)
        requires
            shallow(a.spec_node()),
        ensures
            r matches Ok(x) && x.spec_node().spec_op() == AstOp::ZeroExt(a.spec_node(), amount) && hashed(x.spec_node())
                && x.spec_node().spec_width() == a.spec_node().spec_width() + amount,
    {
        self.make_bitvec(AstOp::ZeroExt(share(a.node()), amount))
    }

    /// The bit-vector expression `SignExt(a, amount)`.
    pub fn sign_ext(&'static self, a: &BitVecAst, amount: u32) -> (r: Result<BitVecAst, ClaripyError>)
        requires
            shallow(a.spec_node()),
        ensures
            r matches Ok(x) && x.spec_node().spec_op() == AstOp::SignExt(a.spec_node(), amount) && hashed(x.spec_node())
                && x.spec_node().spec_width() == a.spec_node().spec_width() + amount,
    {
        self.make_bitvec(AstOp::SignExt(share(a.node()), amount))
    }

    /// The bit-vector expression `Extract(a, upper, lower)`.
    pub fn extract(&'static self, a: &BitVecAst, upper: u32, lower: u32) -> (r: Result<BitVecAst, ClaripyError>)
        requires
            shallow(a.spec_node()),
        ensures
            r matches Ok(x) && x.spec_node().spec_op() == AstOp::Extract(a.spec_node(), upper, lower) && hashed(x.spec_node())
                && x.spec_node().spec_width() == upper - lower + 1,
    {
        self.make_bitvec(AstOp::Extract(share(a.node()), upper, lower))
    }

    /// The expression `a` with `annotation` attached: `Annotated(a, annotation)`,
    /// of the same sort as `a`.
    pub fn annotate(&'static self, a: &AstRef, annotation: Annotation) -> (r: AstRef)
        requires
            shallow(*a),
        ensures
            r.spec_op() == AstOp::Annotated(*a, annotation),
            r.spec_kind() == a.spec_kind(),
            r.spec_width() == a.spec_width(),
            hashed(r),
    {
        self.make_node(AstOp::Annotated(share(a), annotation))
    }

    /// The bit-vector expression `If(cond, then_, else_)`.
    pub fn if_(&'static self, cond: &BoolAst, then_: &BitVecAst, else_: &BitVecAst) -> (r: Result<BitVecAst, ClaripyError>)
        requires
            shallow(cond.spec_node()),
            shallow(then_.spec_node()),
            shallow(else_.spec_node()),
        ensures
            r matches Ok(x) && x.spec_node().spec_op() == AstOp::If(cond.spec_node(), then_.spec_node(), else_.spec_node()) && hashed(x.spec_node())
                && x.spec_node().spec_width() == else_.spec_node().spec_width(),
    {
        let n = self.make_node(AstOp::If(share(cond.node()), share(then_.node()), share(else_.node())));
        Ok(BitVecAst::wrap(n))
    }

    /// The bit-vector expression `Add(lhs, rhs)`.
    pub fn add(&'static self, lhs: &BitVecAst, rhs: &BitVecAst) -> (r: Result<BitVecAst, ClaripyError>)
        requires
            shallow(lhs.spec_node()),
            shallow(rhs.spec_node()),
        ensures
            r matches Ok(a) && a.spec_node().spec_op() == AstOp::Add(lhs.spec_node(), rhs.spec_node()) && hashed(a.spec_node()),
    {
        self.make_bitvec(AstOp::Add(share(lhs.node()), share(rhs.node())))
    }

    /// The bit-vector expression `Sub(lhs, rhs)`.
    pub fn sub(&'static self, lhs: &BitVecAst, rhs: &BitVecAst) -> (r: Result<BitVecAst, ClaripyError>)
        requires
            shallow(lhs.spec_node()),
            shallow(rhs.spec_node()),
        ensures
            r matches Ok(a) && a.spec_node().spec_op() == AstOp::Sub(lhs.spec_node(), rhs.spec_node()) && hashed(a.spec_node()),
    {
        self.make_bitvec(AstOp::Sub(share(lhs.node()), share(rhs.node())))
    }

    /// The bit-vector expression `Mul(lhs, rhs)`.
    pub fn mul(&'static self, lhs: &BitVecAst, rhs: &BitVecAst) -> (r: Result<BitVecAst, ClaripyError>)
        requires
            shallow(lhs.spec_node()),
            shallow(rhs.spec_node()),
        ensures
            r matches Ok(a) && a.spec_node().spec_op() == AstOp::Mul(lhs.spec_node(), rhs.spec_node()) && hashed(a.spec_node()),
    {
        self.make_bitvec(AstOp::Mul(share(lhs.node()), share(rhs.node())))
    }

    /// The bit-vector expression `UDiv(lhs, rhs)`.
    pub fn udiv(&'static self, lhs: &BitVecAst, rhs: &BitVecAst) -> (r: Result<BitVecAst, ClaripyError>)
        requires
            shallow(lhs.spec_node()),
            shallow(rhs.spec_node()),
        ensures
            r matches Ok(a) && a.spec_node().spec_op() == AstOp::UDiv(lhs.spec_node(), rhs.spec_node()) && hashed(a.spec_node()),
    {
        self.make_bitvec(AstOp::UDiv(share(lhs.node()), share(rhs.node())))
    }

    /// The bit-vector expression `SDiv(lhs, rhs)`.
    pub fn sdiv(&'static self, lhs: &BitVecAst, rhs: &BitVecAst) -> (r: Result<BitVecAst, ClaripyError>)
        requires
            shallow(lhs.spec_node()),
            shallow(rhs.spec_node()),
        ensures
            r matches Ok(a) && a.spec_node().spec_op() == AstOp::SDiv(lhs.spec_node(), rhs.spec_node()) && hashed(a.spec_node()),
    {
        self.make_bitvec(AstOp::SDiv(share(lhs.node()), share(rhs.node())))
    }

    /// The bit-vector expression `URem(lhs, rhs)`.
    pub fn urem(&'static self, lhs: &BitVecAst, rhs: &BitVecAst) -> (r: Result<BitVecAst, ClaripyError>)
        requires
            shallow(lhs.spec_node()),
            shallow(rhs.spec_node()),
        ensures
            r matches Ok(a) && a.spec_node().spec_op() == AstOp::URem(lhs.spec_node(), rhs.spec_node()) && hashed(a.spec_node()),
    {
        self.make_bitvec(AstOp::URem(share(lhs.node()), share(rhs.node())))
    }

    /// The bit-vector expression `SRem(lhs, rhs)`.
    pub fn srem(&'static self, lhs: &BitVecAst, rhs: &BitVecAst) -> (r: Result<BitVecAst, ClaripyError>)
        requires
            shallow(lhs.spec_node()),
            shallow(rhs.spec_node()),
        ensures
            r matches Ok(a) && a.spec_node().spec_op() == AstOp::SRem(lhs.spec_node(), rhs.spec_node()) && hashed(a.spec_node()),
    {
        self.make_bitvec(AstOp::SRem(share(lhs.node()), share(rhs.node())))
    }

    /// The bit-vector expression `Pow(lhs, rhs)`.
    pub fn pow(&'static self, lhs: &BitVecAst, rhs: &BitVecAst) -> (r: Result<BitVecAst, ClaripyError>)
        requires
            shallow(lhs.spec_node()),
            shallow(rhs.spec_node()),
        ensures
            r matches Ok(a) && a.spec_node().spec_op() == AstOp::Pow(lhs.spec_node(), rhs.spec_node()) && hashed(a.spec_node()),
    {
        self.make_bitvec(AstOp::Pow(share(lhs.node()), share(rhs.node())))
    }

    /// The bit-vector expression `LShL(lhs, rhs)`.
    pub fn shl(&'static self, lhs: &BitVecAst, rhs: &BitVecAst) -> (r: Result<BitVecAst, ClaripyError>)
        requires
            shallow(lhs.spec_node()),
            shallow(rhs.spec_node()),
        ensures
            r matches Ok(a) && a.spec_node().spec_op() == AstOp::LShL(lhs.spec_node(), rhs.spec_node()) && hashed(a.spec_node()),
    {
        self.make_bitvec(AstOp::LShL(share(lhs.node()), share(rhs.node())))
    }

    /// The bit-vector expression `LShR(lhs, rhs)`.
    pub fn lshr(&'static self, lhs: &BitVecAst, rhs: &BitVecAst) -> (r: Result<BitVecAst, ClaripyError>)
        requires
            shallow(lhs.spec_node()),
            shallow(rhs.spec_node()),
        ensures
            r matches Ok(a) && a.spec_node().spec_op() == AstOp::LShR(lhs.spec_node(), rhs.spec_node()) && hashed(a.spec_node()),
    {
        self.make_bitvec(AstOp::LShR(share(lhs.node()), share(rhs.node())))
    }

    /// The bit-vector expression `AShR(lhs, rhs)`.
    pub fn ashr(&'static self, lhs: &BitVecAst, rhs: &BitVecAst) -> (r: Result<BitVecAst, ClaripyError>)
        requires
            shallow(lhs.spec_node()),
            shallow(rhs.spec_node()),
        ensures
            r matches Ok(a) && a.spec_node().spec_op() == AstOp::AShR(lhs.spec_node(), rhs.spec_node()) && hashed(a.spec_node()),
    {
        self.make_bitvec(AstOp::AShR(share(lhs.node()), share(rhs.node())))
    }

    /// The bit-vector expression `RotateLeft(lhs, rhs)`.
    pub fn rotate_left(&'static self, lhs: &BitVecAst, rhs: &BitVecAst) -> (r: Result<BitVecAst, ClaripyError>)
        requires
            shallow(lhs.spec_node()),
            shallow(rhs.spec_node()),
        ensures
            r matches Ok(a) && a.spec_node().spec_op() == AstOp::RotateLeft(lhs.spec_node(), rhs.spec_node()) && hashed(a.spec_node()),
    {
        self.make_bitvec(AstOp::RotateLeft(share(lhs.node()), share(rhs.node())))
    }

    /// The bit-vector expression `RotateRight(lhs, rhs)`.
    pub fn rotate_right(&'static self, lhs: &BitVecAst, rhs: &BitVecAst) -> (r: Result<BitVecAst, ClaripyError>)
        requires
            shallow(lhs.spec_node()),
            shallow(rhs.spec_node()),
        ensures
            r matches Ok(a) && a.spec_node().spec_op() == AstOp::RotateRight(lhs.spec_node(), rhs.spec_node()) && hashed(a.spec_node()),
    {
        self.make_bitvec(AstOp::RotateRight(share(lhs.node()), share(rhs.node())))
    }

    /// The bit-vector expression `Concat(lhs, rhs)`.
    pub fn concat(&'static self, lhs: &BitVecAst, rhs: &BitVecAst) -> (r: Result<BitVecAst, ClaripyError>)
        requires
            shallow(lhs.spec_node()),
            shallow(rhs.spec_node()),
        ensures
            r matches Ok(a) && a.spec_node().spec_op() == AstOp::Concat(lhs.spec_node(), rhs.spec_node()) && hashed(a.spec_node())
                && a.spec_node().spec_width() == lhs.spec_node().spec_width() + rhs.spec_node().spec_width(),
    {
        self.make_bitvec(AstOp::Concat(share(lhs.node()), share(rhs.node())))
    }

    /// The bit-vector expression `And(lhs, rhs)`.
    pub fn and(&'static self, lhs: &BitVecAst, rhs: &BitVecAst) -> (r: Result<BitVecAst, ClaripyError>)
        requires
            shallow(lhs.spec_node()),
            shallow(rhs.spec_node()),
        ensures
            r matches Ok(a) && a.spec_node().spec_op() == AstOp::And(lhs.spec_node(), rhs.spec_node()) && hashed(a.spec_node()),
    {
        self.make_bitvec(AstOp::And(share(lhs.node()), share(rhs.node())))
    }

    /// The bit-vector expression `Or(lhs, rhs)`.
    pub fn or(&'static self, lhs: &BitVecAst, rhs: &BitVecAst) -> (r: Result<BitVecAst, ClaripyError>)
        requires
            shallow(lhs.spec_node()),
            shallow(rhs.spec_node()),
        ensures
            r matches Ok(a) && a.spec_node().spec_op() == AstOp::Or(lhs.spec_node(), rhs.spec_node()) && hashed(a.spec_node()),
    {
        self.make_bitvec(AstOp::Or(share(lhs.node()), share(rhs.node())))
    }

    /// The bit-vector expression `Xor(lhs, rhs)`.
    pub fn xor(&'static self, lhs: &BitVecAst, rhs: &BitVecAst) -> (r: Result<BitVecAst, ClaripyError>)
        requires
            shallow(lhs.spec_node()),
            shallow(rhs.spec_node()),
        ensures
            r matches Ok(a) && a.spec_node().spec_op() == AstOp::Xor(lhs.spec_node(), rhs.spec_node()) && hashed(a.spec_node()),
    {
        self.make_bitvec(AstOp::Xor(share(lhs.node()), share(rhs.node())))
    }

    /// The boolean expression `Eq(lhs, rhs)`.
    pub fn eq_(&'static self, lhs: &BitVecAst, rhs: &BitVecAst) -> (r: Result<BoolAst, ClaripyError>)
        requires
            shallow(lhs.spec_node()),
            shallow(rhs.spec_node()),
        ensures
            r matches Ok(a) && a.spec_node().spec_op() == AstOp::Eq(lhs.spec_node(), rhs.spec_node()) && hashed(a.spec_node()),
    {
        self.make_bool(AstOp::Eq(share(lhs.node()), share(rhs.node())))
    }

    /// The boolean expression `Neq(lhs, rhs)`.
    pub fn neq(&'static self, lhs: &BitVecAst, rhs: &BitVecAst) -> (r: Result<BoolAst, ClaripyError>)
        requires
            shallow(lhs.spec_node()),
            shallow(rhs.spec_node()),
        ensures
            r matches Ok(a) && a.spec_node().spec_op() == AstOp::Neq(lhs.spec_node(), rhs.spec_node()) && hashed(a.spec_node()),
    {
        self.make_bool(AstOp::Neq(share(lhs.node()), share(rhs.node())))
    }

    /// The boolean expression `ULT(lhs, rhs)`.
    pub fn ult(&'static self, lhs: &BitVecAst, rhs: &BitVecAst) -> (r: Result<BoolAst, ClaripyError>)
        requires
            shallow(lhs.spec_node()),
            shallow(rhs.spec_node()),
        ensures
            r matches Ok(a) && a.spec_node().spec_op() == AstOp::ULT(lhs.spec_node(), rhs.spec_node()) && hashed(a.spec_node()),
    {
        self.make_bool(AstOp::ULT(share(lhs.node()), share(rhs.node())))
    }

    /// The boolean expression `ULE(lhs, rhs)`.
    pub fn ule(&'static self, lhs: &BitVecAst, rhs: &BitVecAst) -> (r: Result<BoolAst, ClaripyError>)
        requires
            shallow(lhs.spec_node()),
            shallow(rhs.spec_node()),
        ensures
            r matches Ok(a) && a.spec_node().spec_op() == AstOp::ULE(lhs.spec_node(), rhs.spec_node()) && hashed(a.spec_node()),
    {
        self.make_bool(AstOp::ULE(share(lhs.node()), share(rhs.node())))
    }

    /// The boolean expression `UGT(lhs, rhs)`.
    pub fn ugt(&'static self, lhs: &BitVecAst, rhs: &BitVecAst) -> (r: Result<BoolAst, ClaripyError>)
        requires
            shallow(lhs.spec_node()),
            shallow(rhs.spec_node()),
        ensures
            r matches Ok(a) && a.spec_node().spec_op() == AstOp::UGT(lhs.spec_node(), rhs.spec_node()) && hashed(a.spec_node()),
    {
        self.make_bool(AstOp::UGT(share(lhs.node()), share(rhs.node())))
    }

    /// The boolean expression `UGE(lhs, rhs)`.
    pub fn uge(&'static self, lhs: &BitVecAst, rhs: &BitVecAst) -> (r: Result<BoolAst, ClaripyError>)
        requires
            shallow(lhs.spec_node()),
            shallow(rhs.spec_node()),
        ensures
            r matches Ok(a) && a.spec_node().spec_op() == AstOp::UGE(lhs.spec_node(), rhs.spec_node()) && hashed(a.spec_node()),
    {
        self.make_bool(AstOp::UGE(share(lhs.node()), share(rhs.node())))
    }

    /// The boolean expression `SLT(lhs, rhs)`.
    pub fn slt(&'static self, lhs: &BitVecAst, rhs: &BitVecAst) -> (r: Result<BoolAst, ClaripyError>)
        requires
            shallow(lhs.spec_node()),
            shallow(rhs.spec_node()),
        ensures
            r matches Ok(a) && a.spec_node().spec_op() == AstOp::SLT(lhs.spec_node(), rhs.spec_node()) && hashed(a.spec_node()),
    {
        self.make_bool(AstOp::SLT(share(lhs.node()), share(rhs.node())))
    }

    /// The boolean expression `SLE(lhs, rhs)`.
    pub fn sle(&'static self, lhs: &BitVecAst, rhs: &BitVecAst) -> (r: Result<BoolAst, ClaripyError>)
        requires
            shallow(lhs.spec_node()),
            shallow(rhs.spec_node()),
        ensures
            r matches Ok(a) && a.spec_node().spec_op() == AstOp::SLE(lhs.spec_node(), rhs.spec_node()) && hashed(a.spec_node()),
    {
        self.make_bool(AstOp::SLE(share(lhs.node()), share(rhs.node())))
    }

    /// The boolean expression `SGT(lhs, rhs)`.
    pub fn sgt(&'static self, lhs: &BitVecAst, rhs: &BitVecAst) -> (r: Result<BoolAst, ClaripyError>)
        requires
            shallow(lhs.spec_node()),
            shallow(rhs.spec_node()),
        ensures
            r matches Ok(a) && a.spec_node().spec_op() == AstOp::SGT(lhs.spec_node(), rhs.spec_node()) && hashed(a.spec_node()),
    {
        self.make_bool(AstOp::SGT(share(lhs.node()), share(rhs.node())))
    }

    /// The boolean expression `SGE(lhs, rhs)`.
    pub fn sge(&'static self, lhs: &BitVecAst, rhs: &BitVecAst) -> (r: Result<BoolAst, ClaripyError>)
        requires
            shallow(lhs.spec_node()),
            shallow(rhs.spec_node()),
        ensures
            r matches Ok(a) && a.spec_node().spec_op() == AstOp::SGE(lhs.spec_node(), rhs.spec_node()) && hashed(a.spec_node()),
    {
        self.make_bool(AstOp::SGE(share(lhs.node()), share(rhs.node())))
    }
}

} // verus!
