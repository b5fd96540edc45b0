//! Bit-vector expressions as the bindings see them: a `BV` wraps a
//! bit-vector expression, and each operator builds a new one.
#![allow(non_snake_case)]

use vstd::prelude::*;
use vstd::arithmetic::power2::pow2;
use vstd::utf8::encode_utf8;
use crate::ast::name::op_name;
use crate::ast::node::AstRef;
use crate::ast::op::{AstOp, op_children, op_variables, strings_as_set, strings_distinct};
use crate::ast::typed::{BitVecAst, BoolAst};
use crate::bigint::biguint_digits_from_bytes_le;
use crate::bitvec::{bytes_le_value, digits_value, lemma_bytes_le_bound, BitVecError};
use crate::context::{hashed, shallow, ClaripyError, GLOBAL_CONTEXT};

verus! {

/// A bit-vector expression.
#[derive(Debug)]
pub struct BV {
    inner: BitVecAst,
}

/// A boolean expression.
#[derive(Debug)]
pub struct Bool {
    inner: BoolAst,
}

impl Bool {
    /// The node.
    pub closed spec fn spec_node(self) -> AstRef {
        self.inner.spec_node()
    }

    /// Wraps a boolean expression.
    pub fn wrap(inner: BoolAst) -> (r: Bool)
        ensures
            r.spec_node() == inner.spec_node(),
    {
        Bool { inner }
    }

    /// The boolean expression.
    pub fn inner(&self) -> (r: &BoolAst)
        ensures
            r.spec_node() == self.spec_node(),
    {
        &self.inner
    }
}

impl Clone for BV {
    fn clone(&self) -> (r: Self)
        ensures
            r.spec_node() == self.spec_node(),
    {
        BV { inner: self.inner.clone() }
    }
}

/// A value that `BVV` is given.
pub enum BvvValue {
    /// A non-negative integer, as little-endian 64-bit digits.
    Int(Vec<u64>),
    /// Bytes, read as a little-endian number.
    Bytes(Vec<u8>),
    /// A string, read as the little-endian number of its UTF-8 bytes.
    Str(String),
    /// Anything else.
    Other,
}

/// Why `BVV` refused its value.
#[derive(Debug, Clone, Copy, PartialEq, Eq)]
pub enum BvvError {
    /// An integer was given without a width.
    SizeRequired,
    /// The value is neither an integer, bytes nor a string.
    UnsupportedValue,
    /// The constant could not be built.
    Claripy(ClaripyError),
}

impl BV {
    /// The node.
    pub closed spec fn spec_node(self) -> AstRef {
        self.inner.spec_node()
    }

    /// Wraps a bit-vector expression.
    pub fn wrap(inner: BitVecAst) -> (r: BV)
        ensures
            r.spec_node() == inner.spec_node(),
    {
        BV { inner }
    }

    /// Wraps a copy of the handle on a bit-vector expression.
    pub fn new(inner: &BitVecAst) -> (r: BV)
        ensures
            r.spec_node() == inner.spec_node(),
    {
        BV { inner: inner.clone() }
    }

    /// The bit-vector expression.
    pub fn inner(&self) -> (r: &BitVecAst)
        ensures
            r.spec_node() == self.spec_node(),
    {
        &self.inner
    }

    /// The name of the operation at the root.
    pub fn op(&self) -> (r: String)
        ensures
            r@ == op_name(self.spec_node().spec_op()),
    {
        self.inner.node().op().to_opstring().to_owned()
    }

    /// The names of the symbols that occur in the expression, each once.
    pub fn variables(&self) -> (r: Vec<String>)
        ensures
            strings_as_set(r@) == op_variables(self.spec_node().spec_op()),
            strings_distinct(r@),
    {
        let vs = self.inner.node().variables();
        let n = vs.len();
        let mut out: Vec<String> = Vec::new();
        let mut i: usize = 0;
        while i < n
            invariant
                i <= n,
                n == vs@.len(),
                out@.len() == i,
                forall|k: int| 0 <= k < i ==> out@[k]@ == vs@[k]@,
            decreases n - i,
        {
            out.push(vs[i].clone());
            i += 1;
        }
        proof {
            assert(strings_as_set(out@) =~= strings_as_set(vs@)) by {
                assert forall|x: Seq<char>| strings_as_set(out@).contains(x) implies strings_as_set(vs@).contains(x) by {
                    let k = choose|k: int| 0 <= k < out@.len() && out@[k]@ == x;
                    assert(vs@[k]@ == x);
                }
                assert forall|x: Seq<char>| strings_as_set(vs@).contains(x) implies strings_as_set(out@).contains(x) by {
                    let k = choose|k: int| 0 <= k < vs@.len() && vs@[k]@ == x;
                    assert(out@[k]@ == x);
                }
            }
        }
        out
    }

    /// Whether some symbol occurs in the expression.
    pub fn symbolic(&self) -> (r: bool)
        ensures
            r == !op_variables(self.spec_node().spec_op()).is_empty(),
    {
        self.inner.node().symbolic()
    }

    /// The hash of the expression.
    pub fn hash(&self) -> (r: u64)
        ensures
            r == self.spec_node().spec_hash(),
    {
        self.inner.node().hash()
    }

    /// The depth of the expression.
    pub fn depth(&self) -> (r: u32)
        ensures
            r as nat == self.spec_node().spec_depth(),
    {
        self.inner.node().depth()
    }

    /// Whether the expression has no operands.
    pub fn is_leaf(&self) -> (r: bool)
        ensures
            r == (self.spec_node().spec_depth() == 1),
            r == (op_children(self.spec_node().spec_op()).len() == 0),
    {
        let d = self.inner.node().depth();
        proof {
            crate::laws::lemma_leaf_iff_no_children(&*self.spec_node());
        }
        d == 1
    }

    /// The expression `Add(self, other)`.
    pub fn __add__(&self, other: &BV) -> (r: Result<BV, ClaripyError>)
        requires
            shallow(self.spec_node()),
            shallow(other.spec_node()),
        ensures
            r matches Ok(x) && x.spec_node().spec_op() == AstOp::Add(self.spec_node(), other.spec_node()) && hashed(x.spec_node()),
    {
        match GLOBAL_CONTEXT.add(&self.inner, &other.inner) {
            Ok(a) => Ok(BV::wrap(a)),
            Err(e) => Err(e),
        }
    }

    /// The same as `__add__`: the expression `Add(self, other)`.
    pub fn __radd__(&self, other: &BV) -> (r: Result<BV, ClaripyError>)
        requires
            shallow(self.spec_node()),
            shallow(other.spec_node()),
        ensures
            r matches Ok(x) && x.spec_node().spec_op() == AstOp::Add(self.spec_node(), other.spec_node()) && hashed(x.spec_node()),
    {
        self.__add__(other)
    }

    /// The expression `Sub(self, other)`.
    pub fn __sub__(&self, other: &BV) -> (r: Result<BV, ClaripyError>)
        requires
            shallow(self.spec_node()),
            shallow(other.spec_node()),
        ensures
            r matches Ok(x) && x.spec_node().spec_op() == AstOp::Sub(self.spec_node(), other.spec_node()) && hashed(x.spec_node()),
    {
        match GLOBAL_CONTEXT.sub(&self.inner, &other.inner) {
            Ok(a) => Ok(BV::wrap(a)),
            Err(e) => Err(e),
        }
    }

    /// The same as `__sub__`: the expression `Sub(self, other)`.
    pub fn __rsub__(&self, other: &BV) -> (r: Result<BV, ClaripyError>)
        requires
            shallow(self.spec_node()),
            shallow(other.spec_node()),
        ensures
            r matches Ok(x) && x.spec_node().spec_op() == AstOp::Sub(self.spec_node(), other.spec_node()) && hashed(x.spec_node()),
    {
        self.__sub__(other)
    }

    /// The expression `Mul(self, other)`.
    pub fn __mul__(&self, other: &BV) -> (r: Result<BV, ClaripyError>)
        requires
            shallow(self.spec_node()),
            shallow(other.spec_node()),
        ensures
            r matches Ok(x) && x.spec_node().spec_op() == AstOp::Mul(self.spec_node(), other.spec_node()) && hashed(x.spec_node()),
    {
        match GLOBAL_CONTEXT.mul(&self.inner, &other.inner) {
            Ok(a) => Ok(BV::wrap(a)),
            Err(e) => Err(e),
        }
    }

    /// The same as `__mul__`: the expression `Mul(self, other)`.
    pub fn __rmul__(&self, other: &BV) -> (r: Result<BV, ClaripyError>)
        requires
            shallow(self.spec_node()),
            shallow(other.spec_node()),
        ensures
            r matches Ok(x) && x.spec_node().spec_op() == AstOp::Mul(self.spec_node(), other.spec_node()) && hashed(x.spec_node()),
    {
        self.__mul__(other)
    }

    /// The expression `UDiv(self, other)`.
    pub fn __truediv__(&self, other: &BV) -> (r: Result<BV, ClaripyError>)
        requires
            shallow(self.spec_node()),
            shallow(other.spec_node()),
        ensures
            r matches Ok(x) && x.spec_node().spec_op() == AstOp::UDiv(self.spec_node(), other.spec_node()) && hashed(x.spec_node()),
    {
        match GLOBAL_CONTEXT.udiv(&self.inner, &other.inner) {
            Ok(a) => Ok(BV::wrap(a)),
            Err(e) => Err(e),
        }
    }

    /// The same as `__truediv__`: the expression `UDiv(self, other)`.
    pub fn __rtruediv__(&self, other: &BV) -> (r: Result<BV, ClaripyError>)
        requires
            shallow(self.spec_node()),
            shallow(other.spec_node()),
        ensures
            r matches Ok(x) && x.spec_node().spec_op() == AstOp::UDiv(self.spec_node(), other.spec_node()) && hashed(x.spec_node()),
    {
        self.__truediv__(other)
    }

    /// The expression `UDiv(self, other)`.
    pub fn __floordiv__(&self, other: &BV) -> (r: Result<BV, ClaripyError>)
        requires
            shallow(self.spec_node()),
            shallow(other.spec_node()),
        ensures
            r matches Ok(x) && x.spec_node().spec_op() == AstOp::UDiv(self.spec_node(), other.spec_node()) && hashed(x.spec_node()),
    {
        match GLOBAL_CONTEXT.udiv(&self.inner, &other.inner) {
            Ok(a) => Ok(BV::wrap(a)),
            Err(e) => Err(e),
        }
    }

    /// The same as `__floordiv__`: the expression `UDiv(self, other)`.
    pub fn __rfloordiv__(&self, other: &BV) -> (r: Result<BV, ClaripyError>)
        requires
            shallow(self.spec_node()),
            shallow(other.spec_node()),
        ensures
            r matches Ok(x) && x.spec_node().spec_op() == AstOp::UDiv(self.spec_node(), other.spec_node()) && hashed(x.spec_node()),
    {
        self.__floordiv__(other)
    }

    /// The expression `Pow(self, other)`.
    pub fn __pow__(&self, other: &BV) -> (r: Result<BV, ClaripyError>)
        requires
            shallow(self.spec_node()),
            shallow(other.spec_node()),
        ensures
            r matches Ok(x) && x.spec_node().spec_op() == AstOp::Pow(self.spec_node(), other.spec_node()) && hashed(x.spec_node()),
    {
        match GLOBAL_CONTEXT.pow(&self.inner, &other.inner) {
            Ok(a) => Ok(BV::wrap(a)),
            Err(e) => Err(e),
        }
    }

    /// The same as `__pow__`: the expression `Pow(self, other)`.
    pub fn __rpow__(&self, other: &BV) -> (r: Result<BV, ClaripyError>)
        requires
            shallow(self.spec_node()),
            shallow(other.spec_node()),
        ensures
            r matches Ok(x) && x.spec_node().spec_op() == AstOp::Pow(self.spec_node(), other.spec_node()) && hashed(x.spec_node()),
    {
        self.__pow__(other)
    }

    /// The expression `URem(self, other)`.
    pub fn __mod__(&self, other: &BV) -> (r: Result<BV, ClaripyError>)
        requires
            shallow(self.spec_node()),
            shallow(other.spec_node()),
        ensures
            r matches Ok(x) && x.spec_node().spec_op() == AstOp::URem(self.spec_node(), other.spec_node()) && hashed(x.spec_node()),
    {
        match GLOBAL_CONTEXT.urem(&self.inner, &other.inner) {
            Ok(a) => Ok(BV::wrap(a)),
            Err(e) => Err(e),
        }
    }

    /// The same as `__mod__`: the expression `URem(self, other)`.
    pub fn __rmod__(&self, other: &BV) -> (r: Result<BV, ClaripyError>)
        requires
            shallow(self.spec_node()),
            shallow(other.spec_node()),
        ensures
            r matches Ok(x) && x.spec_node().spec_op() == AstOp::URem(self.spec_node(), other.spec_node()) && hashed(x.spec_node()),
    {
        self.__mod__(other)
    }

    /// The expression `SDiv(self, other)`.
    pub fn SDiv(&self, other: &BV) -> (r: Result<BV, ClaripyError>)
        requires
            shallow(self.spec_node()),
            shallow(other.spec_node()),
        ensures
            r matches Ok(x) && x.spec_node().spec_op() == AstOp::SDiv(self.spec_node(), other.spec_node()) && hashed(x.spec_node()),
    {
        match GLOBAL_CONTEXT.sdiv(&self.inner, &other.inner) {
            Ok(a) => Ok(BV::wrap(a)),
            Err(e) => Err(e),
        }
    }

    /// The expression `SRem(self, other)`.
    pub fn SMod(&self, other: &BV) -> (r: Result<BV, ClaripyError>)
        requires
            shallow(self.spec_node()),
            shallow(other.spec_node()),
        ensures
            r matches Ok(x) && x.spec_node().spec_op() == AstOp::SRem(self.spec_node(), other.spec_node()) && hashed(x.spec_node()),
    {
        match GLOBAL_CONTEXT.srem(&self.inner, &other.inner) {
            Ok(a) => Ok(BV::wrap(a)),
            Err(e) => Err(e),
        }
    }

    /// The expression `And(self, other)`.
    pub fn __and__(&self, other: &BV) -> (r: Result<BV, ClaripyError>)
        requires
            shallow(self.spec_node()),
            shallow(other.spec_node()),
        ensures
            r matches Ok(x) && x.spec_node().spec_op() == AstOp::And(self.spec_node(), other.spec_node()) && hashed(x.spec_node()),
    {
        match GLOBAL_CONTEXT.and(&self.inner, &other.inner) {
            Ok(a) => Ok(BV::wrap(a)),
            Err(e) => Err(e),
        }
    }

    /// The same as `__and__`: the expression `And(self, other)`.
    pub fn __rand__(&self, other: &BV) -> (r: Result<BV, ClaripyError>)
        requires
            shallow(self.spec_node()),
            shallow(other.spec_node()),
        ensures
            r matches Ok(x) && x.spec_node().spec_op() == AstOp::And(self.spec_node(), other.spec_node()) && hashed(x.spec_node()),
    {
        self.__and__(other)
    }

    /// The expression `Or(self, other)`.
    pub fn __or__(&self, other: &BV) -> (r: Result<BV, ClaripyError>)
        requires
            shallow(self.spec_node()),
            shallow(other.spec_node()),
        ensures
            r matches Ok(x) && x.spec_node().spec_op() == AstOp::Or(self.spec_node(), other.spec_node()) && hashed(x.spec_node()),
    {
        match GLOBAL_CONTEXT.or(&self.inner, &other.inner) {
            Ok(a) => Ok(BV::wrap(a)),
            Err(e) => Err(e),
        }
    }

    /// The same as `__or__`: the expression `Or(self, other)`.
    pub fn __ror__(&self, other: &BV) -> (r: Result<BV, ClaripyError>)
        requires
            shallow(self.spec_node()),
            shallow(other.spec_node()),
        ensures
            r matches Ok(x) && x.spec_node().spec_op() == AstOp::Or(self.spec_node(), other.spec_node()) && hashed(x.spec_node()),
    {
        self.__or__(other)
    }

    /// The expression `Xor(self, other)`.
    pub fn __xor__(&self, other: &BV) -> (r: Result<BV, ClaripyError>)
        requires
            shallow(self.spec_node()),
            shallow(other.spec_node()),
        ensures
            r matches Ok(x) && x.spec_node().spec_op() == AstOp::Xor(self.spec_node(), other.spec_node()) && hashed(x.spec_node()),
    {
        match GLOBAL_CONTEXT.xor(&self.inner, &other.inner) {
            Ok(a) => Ok(BV::wrap(a)),
            Err(e) => Err(e),
        }
    }

    /// The same as `__xor__`: the expression `Xor(self, other)`.
    pub fn __rxor__(&self, other: &BV) -> (r: Result<BV, ClaripyError>)
        requires
            shallow(self.spec_node()),
            shallow(other.spec_node()),
        ensures
            r matches Ok(x) && x.spec_node().spec_op() == AstOp::Xor(self.spec_node(), other.spec_node()) && hashed(x.spec_node()),
    {
        self.__xor__(other)
    }

    /// The expression `LShL(self, other)`.
    pub fn __lshift__(&self, other: &BV) -> (r: Result<BV, ClaripyError>)
        requires
            shallow(self.spec_node()),
            shallow(other.spec_node()),
        ensures
            r matches Ok(x) && x.spec_node().spec_op() == AstOp::LShL(self.spec_node(), other.spec_node()) && hashed(x.spec_node()),
    {
        match GLOBAL_CONTEXT.shl(&self.inner, &other.inner) {
            Ok(a) => Ok(BV::wrap(a)),
            Err(e) => Err(e),
        }
    }

    /// The same as `__lshift__`: the expression `LShL(self, other)`.
    pub fn __rlshift__(&self, other: &BV) -> (r: Result<BV, ClaripyError>)
        requires
            shallow(self.spec_node()),
            shallow(other.spec_node()),
        ensures
            r matches Ok(x) && x.spec_node().spec_op() == AstOp::LShL(self.spec_node(), other.spec_node()) && hashed(x.spec_node()),
    {
        self.__lshift__(other)
    }

    /// The expression `AShR(self, other)`.
    pub fn __rshift__(&self, other: &BV) -> (r: Result<BV, ClaripyError>)
        requires
            shallow(self.spec_node()),
            shallow(other.spec_node()),
        ensures
            r matches Ok(x) && x.spec_node().spec_op() == AstOp::AShR(self.spec_node(), other.spec_node()) && hashed(x.spec_node()),
    {
        match GLOBAL_CONTEXT.ashr(&self.inner, &other.inner) {
            Ok(a) => Ok(BV::wrap(a)),
            Err(e) => Err(e),
        }
    }

    /// The same as `__rshift__`: the expression `AShR(self, other)`.
    pub fn __rrshift__(&self, other: &BV) -> (r: Result<BV, ClaripyError>)
        requires
            shallow(self.spec_node()),
            shallow(other.spec_node()),
        ensures
            r matches Ok(x) && x.spec_node().spec_op() == AstOp::AShR(self.spec_node(), other.spec_node()) && hashed(x.spec_node()),
    {
        self.__rshift__(other)
    }

    /// The expression `LShR(self, other)`.
    pub fn LShR(&self, other: &BV) -> (r: Result<BV, ClaripyError>)
        requires
            shallow(self.spec_node()),
            shallow(other.spec_node()),
        ensures
            r matches Ok(x) && x.spec_node().spec_op() == AstOp::LShR(self.spec_node(), other.spec_node()) && hashed(x.spec_node()),
    {
        match GLOBAL_CONTEXT.lshr(&self.inner, &other.inner) {
            Ok(a) => Ok(BV::wrap(a)),
            Err(e) => Err(e),
        }
    }

    /// The expression `Eq(self, other)`.
    pub fn __eq__(&self, other: &BV) -> (r: Result<Bool, ClaripyError>)
        requires
            shallow(self.spec_node()),
            shallow(other.spec_node()),
        ensures
            r matches Ok(x) && x.spec_node().spec_op() == AstOp::Eq(self.spec_node(), other.spec_node()) && hashed(x.spec_node()),
    {
        match GLOBAL_CONTEXT.eq_(&self.inner, &other.inner) {
            Ok(a) => Ok(Bool::wrap(a)),
            Err(e) => Err(e),
        }
    }

    /// The expression `Neq(self, other)`.
    pub fn __ne__(&self, other: &BV) -> (r: Result<Bool, ClaripyError>)
        requires
            shallow(self.spec_node()),
            shallow(other.spec_node()),
        ensures
            r matches Ok(x) && x.spec_node().spec_op() == AstOp::Neq(self.spec_node(), other.spec_node()) && hashed(x.spec_node()),
    {
        match GLOBAL_CONTEXT.neq(&self.inner, &other.inner) {
            Ok(a) => Ok(Bool::wrap(a)),
            Err(e) => Err(e),
        }
    }

    /// The expression `ULT(self, other)`.
    pub fn __lt__(&self, other: &BV) -> (r: Result<Bool, ClaripyError>)
        requires
            shallow(self.spec_node()),
            shallow(other.spec_node()),
        ensures
            r matches Ok(x) && x.spec_node().spec_op() == AstOp::ULT(self.spec_node(), other.spec_node()) && hashed(x.spec_node()),
    {
        match GLOBAL_CONTEXT.ult(&self.inner, &other.inner) {
            Ok(a) => Ok(Bool::wrap(a)),
            Err(e) => Err(e),
        }
    }

    /// The expression `ULE(self, other)`.
    pub fn __le__(&self, other: &BV) -> (r: Result<Bool, ClaripyError>)
        requires
            shallow(self.spec_node()),
            shallow(other.spec_node()),
        ensures
            r matches Ok(x) && x.spec_node().spec_op() == AstOp::ULE(self.spec_node(), other.spec_node()) && hashed(x.spec_node()),
    {
        match GLOBAL_CONTEXT.ule(&self.inner, &other.inner) {
            Ok(a) => Ok(Bool::wrap(a)),
            Err(e) => Err(e),
        }
    }

    /// The expression `UGT(self, other)`.
    pub fn __gt__(&self, other: &BV) -> (r: Result<Bool, ClaripyError>)
        requires
            shallow(self.spec_node()),
            shallow(other.spec_node()),
        ensures
            r matches Ok(x) && x.spec_node().spec_op() == AstOp::UGT(self.spec_node(), other.spec_node()) && hashed(x.spec_node()),
    {
        match GLOBAL_CONTEXT.ugt(&self.inner, &other.inner) {
            Ok(a) => Ok(Bool::wrap(a)),
            Err(e) => Err(e),
        }
    }

    /// The expression `UGE(self, other)`.
    pub fn __ge__(&self, other: &BV) -> (r: Result<Bool, ClaripyError>)
        requires
            shallow(self.spec_node()),
            shallow(other.spec_node()),
        ensures
            r matches Ok(x) && x.spec_node().spec_op() == AstOp::UGE(self.spec_node(), other.spec_node()) && hashed(x.spec_node()),
    {
        match GLOBAL_CONTEXT.uge(&self.inner, &other.inner) {
            Ok(a) => Ok(Bool::wrap(a)),
            Err(e) => Err(e),
        }
    }

    /// The expression `ULT(self, other)`.
    pub fn ULT(&self, other: &BV) -> (r: Result<Bool, ClaripyError>)
        requires
            shallow(self.spec_node()),
            shallow(other.spec_node()),
        ensures
            r matches Ok(x) && x.spec_node().spec_op() == AstOp::ULT(self.spec_node(), other.spec_node()) && hashed(x.spec_node()),
    {
        match GLOBAL_CONTEXT.ult(&self.inner, &other.inner) {
            Ok(a) => Ok(Bool::wrap(a)),
            Err(e) => Err(e),
        }
    }

    /// The expression `ULE(self, other)`.
    pub fn ULE(&self, other: &BV) -> (r: Result<Bool, ClaripyError>)
        requires
            shallow(self.spec_node()),
            shallow(other.spec_node()),
        ensures
            r matches Ok(x) && x.spec_node().spec_op() == AstOp::ULE(self.spec_node(), other.spec_node()) && hashed(x.spec_node()),
    {
        match GLOBAL_CONTEXT.ule(&self.inner, &other.inner) {
            Ok(a) => Ok(Bool::wrap(a)),
            Err(e) => Err(e),
        }
    }

    /// The expression `UGT(self, other)`.
    pub fn UGT(&self, other: &BV) -> (r: Result<Bool, ClaripyError>)
        requires
            shallow(self.spec_node()),
            shallow(other.spec_node()),
        ensures
            r matches Ok(x) && x.spec_node().spec_op() == AstOp::UGT(self.spec_node(), other.spec_node()) && hashed(x.spec_node()),
    {
        match GLOBAL_CONTEXT.ugt(&self.inner, &other.inner) {
            Ok(a) => Ok(Bool::wrap(a)),
            Err(e) => Err(e),
        }
    }

    /// The expression `UGE(self, other)`.
    pub fn UGE(&self, other: &BV) -> (r: Result<Bool, ClaripyError>)
        requires
            shallow(self.spec_node()),
            shallow(other.spec_node()),
        ensures
            r matches Ok(x) && x.spec_node().spec_op() == AstOp::UGE(self.spec_node(), other.spec_node()) && hashed(x.spec_node()),
    {
        match GLOBAL_CONTEXT.uge(&self.inner, &other.inner) {
            Ok(a) => Ok(Bool::wrap(a)),
            Err(e) => Err(e),
        }
    }

    /// The expression `SLT(self, other)`.
    pub fn SLT(&self, other: &BV) -> (r: Result<Bool, ClaripyError>)
        requires
            shallow(self.spec_node()),
            shallow(other.spec_node()),
        ensures
            r matches Ok(x) && x.spec_node().spec_op() == AstOp::SLT(self.spec_node(), other.spec_node()) && hashed(x.spec_node()),
    {
        match GLOBAL_CONTEXT.slt(&self.inner, &other.inner) {
            Ok(a) => Ok(Bool::wrap(a)),
            Err(e) => Err(e),
        }
    }

    /// The expression `SLE(self, other)`.
    pub fn SLE(&self, other: &BV) -> (r: Result<Bool, ClaripyError>)
        requires
            shallow(self.spec_node()),
            shallow(other.spec_node()),
        ensures
            r matches Ok(x) && x.spec_node().spec_op() == AstOp::SLE(self.spec_node(), other.spec_node()) && hashed(x.spec_node()),
    {
        match GLOBAL_CONTEXT.sle(&self.inner, &other.inner) {
            Ok(a) => Ok(Bool::wrap(a)),
            Err(e) => Err(e),
        }
    }

    /// The expression `SGT(self, other)`.
    pub fn SGT(&self, other: &BV) -> (r: Result<Bool, ClaripyError>)
        requires
            shallow(self.spec_node()),
            shallow(other.spec_node()),
        ensures
            r matches Ok(x) && x.spec_node().spec_op() == AstOp::SGT(self.spec_node(), other.spec_node()) && hashed(x.spec_node()),
    {
        match GLOBAL_CONTEXT.sgt(&self.inner, &other.inner) {
            Ok(a) => Ok(Bool::wrap(a)),
            Err(e) => Err(e),
        }
    }

    /// The expression `SGE(self, other)`.
    pub fn SGE(&self, other: &BV) -> (r: Result<Bool, ClaripyError>)
        requires
            shallow(self.spec_node()),
            shallow(other.spec_node()),
        ensures
            r matches Ok(x) && x.spec_node().spec_op() == AstOp::SGE(self.spec_node(), other.spec_node()) && hashed(x.spec_node()),
    {
        match GLOBAL_CONTEXT.sge(&self.inner, &other.inner) {
            Ok(a) => Ok(Bool::wrap(a)),
            Err(e) => Err(e),
        }
    }

    /// The expression `Concat(self, other)`.
    pub fn concat(&self, other: &BV) -> (r: Result<BV, ClaripyError>)
        requires
            shallow(self.spec_node()),
            shallow(other.spec_node()),
        ensures
            r matches Ok(x) && x.spec_node().spec_op() == AstOp::Concat(self.spec_node(), other.spec_node()) && hashed(x.spec_node())
            && x.spec_node().spec_width() == self.spec_node().spec_width() + other.spec_node().spec_width(),
    {
        match GLOBAL_CONTEXT.concat(&self.inner, &other.inner) {
            Ok(a) => Ok(BV::wrap(a)),
            Err(e) => Err(e),
        }
    }

    /// The expression `Not(self)` (the bitwise complement, as `__invert__`).
    pub fn __neg__(&self) -> (r: Result<BV, ClaripyError>)
        requires
            shallow(self.spec_node()),
        ensures
            r matches Ok(x) && x.spec_node().spec_op() == AstOp::Not(self.spec_node()) && hashed(x.spec_node())
            && x.spec_node().spec_width() == self.spec_node().spec_width(),
    {
        match GLOBAL_CONTEXT.not(&self.inner) {
            Ok(a) => Ok(BV::wrap(a)),
            Err(e) => Err(e),
        }
    }

    /// The expression `Not(self)`, the bitwise complement.
    pub fn __invert__(&self) -> (r: Result<BV, ClaripyError>)
        requires
            shallow(self.spec_node()),
        ensures
            r matches Ok(x) && x.spec_node().spec_op() == AstOp::Not(self.spec_node()) && hashed(x.spec_node())
            && x.spec_node().spec_width() == self.spec_node().spec_width(),
    {
        match GLOBAL_CONTEXT.not(&self.inner) {
            Ok(a) => Ok(BV::wrap(a)),
            Err(e) => Err(e),
        }
    }

    /// The expression `Reverse(self)`.
    pub fn reversed(&self) -> (r: Result<BV, ClaripyError>)
        requires
            shallow(self.spec_node()),
        ensures
            r matches Ok(x) && x.spec_node().spec_op() == AstOp::Reverse(self.spec_node()) && hashed(x.spec_node())
            && x.spec_node().spec_width() == self.spec_node().spec_width(),
    {
        match GLOBAL_CONTEXT.reverse(&self.inner) {
            Ok(a) => Ok(BV::wrap(a)),
            Err(e) => Err(e),
        }
    }

    /// This expression itself.
    pub fn __pos__(&self) -> (r: Result<BV, ClaripyError>)
        ensures
            r matches Ok(x) && x.spec_node() == self.spec_node(),
    {
        Ok(self.clone())
    }

    /// The expression `Extract(self, upper_bound, lower_bound)`.
    pub fn Extract(&self, upper_bound: u32, lower_bound: u32) -> (r: Result<BV, ClaripyError>)
        requires
            shallow(self.spec_node()),
        ensures
            r matches Ok(x) && x.spec_node().spec_op() == AstOp::Extract(self.spec_node(), upper_bound, lower_bound) && hashed(x.spec_node())
            && x.spec_node().spec_width() == upper_bound - lower_bound + 1,
    {
        match GLOBAL_CONTEXT.extract(&self.inner, upper_bound, lower_bound) {
            Ok(a) => Ok(BV::wrap(a)),
            Err(e) => Err(e),
        }
    }

    /// The expression `ZeroExt(self, amount)`.
    pub fn zero_ext(&self, amount: u32) -> (r: Result<BV, ClaripyError>)
        requires
            shallow(self.spec_node()),
        ensures
            r matches Ok(x) && x.spec_node().spec_op() == AstOp::ZeroExt(self.spec_node(), amount) && hashed(x.spec_node())
            && x.spec_node().spec_width() == self.spec_node().spec_width() + amount,
    {
        match GLOBAL_CONTEXT.zero_ext(&self.inner, amount) {
            Ok(a) => Ok(BV::wrap(a)),
            Err(e) => Err(e),
        }
    }

    /// The expression `SignExt(self, amount)`.
    pub fn sign_ext(&self, amount: u32) -> (r: Result<BV, ClaripyError>)
        requires
            shallow(self.spec_node()),
        ensures
            r matches Ok(x) && x.spec_node().spec_op() == AstOp::SignExt(self.spec_node(), amount) && hashed(x.spec_node())
            && x.spec_node().spec_width() == self.spec_node().spec_width() + amount,
    {
        match GLOBAL_CONTEXT.sign_ext(&self.inner, amount) {
            Ok(a) => Ok(BV::wrap(a)),
            Err(e) => Err(e),
        }
    }
}

/// The bit-vector symbol `name` of width `size`; refused when `name` is empty.
pub fn BVS(name: String, size: u32) -> (r: Result<BV, ClaripyError>)
    ensures
        r is Ok <==> name@.len() != 0,
        r matches Ok(x) ==> (x.spec_node().spec_op() matches AstOp::BVS(n, s) && n@ == name@ && s == size)
            && x.spec_node().spec_width() == size && hashed(x.spec_node()),
        r matches Err(e) ==> e == ClaripyError::InvalidArguments,
{
    match GLOBAL_CONTEXT.bvs(name.as_str(), size) {
        Ok(a) => Ok(BV::wrap(a)),
        Err(e) => Err(e),
    }
}

/// The bit-vector constant that `value` denotes: an integer needs a width
/// and must fit it; bytes and strings (as their UTF-8 bytes) are read as
/// little-endian numbers of eight bits per byte, and a given width is not used.
pub fn BVV(value: &BvvValue, size: Option<u32>) -> (r: Result<BV, BvvError>)
    requires
        value matches BvvValue::Bytes(b) ==> b@.len() * 8 <= u32::MAX,
        value matches BvvValue::Str(s) ==> encode_utf8(s@).len() * 8 <= u32::MAX,
    ensures
        match value {
            BvvValue::Int(d) => match size {
                None => r == Err::<BV, BvvError>(BvvError::SizeRequired),
                Some(s) => {
                    &&& (r is Ok <==> digits_value(d@) < pow2(s as nat))
                    &&& (r matches Ok(x) ==> (x.spec_node().spec_op() matches AstOp::BVV(bv)
                        && bv.spec_value() == digits_value(d@) && bv.spec_len() == s)
                        && x.spec_node().spec_width() == s && hashed(x.spec_node()))
                    &&& (r matches Err(e) ==> e == BvvError::Claripy(
                        ClaripyError::BitVec(BitVecError::BitVectorTooShort { length: s }),
                    ))
                },
            },
            BvvValue::Bytes(b) => r matches Ok(x) && (x.spec_node().spec_op() matches AstOp::BVV(bv)
                && bv.spec_value() == bytes_le_value(b@) && bv.spec_len() == 8 * b@.len())
                && x.spec_node().spec_width() == 8 * b@.len() && hashed(x.spec_node()),
            BvvValue::Str(s) => r matches Ok(x) && (x.spec_node().spec_op() matches AstOp::BVV(bv)
                && bv.spec_value() == bytes_le_value(encode_utf8(s@)) && bv.spec_len() == 8
                * encode_utf8(s@).len()) && x.spec_node().spec_width() == 8 * encode_utf8(s@).len()
                && hashed(x.spec_node()),
            BvvValue::Other => r == Err::<BV, BvvError>(BvvError::UnsupportedValue),
        },
{
    match value {
        BvvValue::Int(digits) => {
            match size {
                Some(size) => match GLOBAL_CONTEXT.bvv_from_biguint_with_size(digits.as_slice(), size) {
                    Ok(a) => Ok(BV::wrap(a)),
                    Err(e) => Err(BvvError::Claripy(e)),
                },
                None => Err(BvvError::SizeRequired),
            }
        },
        BvvValue::Bytes(bytes) => bvv_from_bytes(bytes.as_slice()),
        BvvValue::Str(s) => bvv_from_bytes(s.as_str().as_bytes()),
        BvvValue::Other => Err(BvvError::UnsupportedValue),
    }
}

/// The constant of eight bits per byte that little-endian `bytes` denote.
fn bvv_from_bytes(bytes: &[u8]) -> (r: Result<BV, BvvError>)
    requires
        bytes@.len() * 8 <= u32::MAX,
    ensures
        r matches Ok(x) && (x.spec_node().spec_op() matches AstOp::BVV(bv) && bv.spec_value()
            == bytes_le_value(bytes@) && bv.spec_len() == 8 * bytes@.len())
            && x.spec_node().spec_width() == 8 * bytes@.len() && hashed(x.spec_node()),
{
    let digits = biguint_digits_from_bytes_le(bytes);
    let size: u32 = bytes.len() as u32 * 8;
    proof {
        lemma_bytes_le_bound(bytes@);
    }
    match GLOBAL_CONTEXT.bvv_from_biguint_with_size(digits.as_slice(), size) {
        Ok(a) => Ok(BV::wrap(a)),
        Err(e) => Err(BvvError::Claripy(e)),
    }
}

/// The expression `Add(lhs, rhs)`.
pub fn Add(lhs: &BV, rhs: &BV) -> (r: Result<BV, ClaripyError>)
    requires
        shallow(lhs.spec_node()),
        shallow(rhs.spec_node()),
    ensures
        r matches Ok(x) && x.spec_node().spec_op() == AstOp::Add(lhs.spec_node(), rhs.spec_node()) && hashed(x.spec_node()),
{
    match GLOBAL_CONTEXT.add(&lhs.inner, &rhs.inner) {
        Ok(a) => Ok(BV::wrap(a)),
        Err(e) => Err(e),
    }
}

/// The expression `Sub(lhs, rhs)`.
pub fn Sub(lhs: &BV, rhs: &BV) -> (r: Result<BV, ClaripyError>)
    requires
        shallow(lhs.spec_node()),
        shallow(rhs.spec_node()),
    ensures
        r matches Ok(x) && x.spec_node().spec_op() == AstOp::Sub(lhs.spec_node(), rhs.spec_node()) && hashed(x.spec_node()),
{
    match GLOBAL_CONTEXT.sub(&lhs.inner, &rhs.inner) {
        Ok(a) => Ok(BV::wrap(a)),
        Err(e) => Err(e),
    }
}

/// The expression `Mul(lhs, rhs)`.
pub fn Mul(lhs: &BV, rhs: &BV) -> (r: Result<BV, ClaripyError>)
    requires
        shallow(lhs.spec_node()),
        shallow(rhs.spec_node()),
    ensures
        r matches Ok(x) && x.spec_node().spec_op() == AstOp::Mul(lhs.spec_node(), rhs.spec_node()) && hashed(x.spec_node()),
{
    match GLOBAL_CONTEXT.mul(&lhs.inner, &rhs.inner) {
        Ok(a) => Ok(BV::wrap(a)),
        Err(e) => Err(e),
    }
}

/// The expression `UDiv(lhs, rhs)`.
pub fn UDiv(lhs: &BV, rhs: &BV) -> (r: Result<BV, ClaripyError>)
    requires
        shallow(lhs.spec_node()),
        shallow(rhs.spec_node()),
    ensures
        r matches Ok(x) && x.spec_node().spec_op() == AstOp::UDiv(lhs.spec_node(), rhs.spec_node()) && hashed(x.spec_node()),
{
    match GLOBAL_CONTEXT.udiv(&lhs.inner, &rhs.inner) {
        Ok(a) => Ok(BV::wrap(a)),
        Err(e) => Err(e),
    }
}

/// The expression `SDiv(lhs, rhs)`.
pub fn SDiv(lhs: &BV, rhs: &BV) -> (r: Result<BV, ClaripyError>)
    requires
        shallow(lhs.spec_node()),
        shallow(rhs.spec_node()),
    ensures
        r matches Ok(x) && x.spec_node().spec_op() == AstOp::SDiv(lhs.spec_node(), rhs.spec_node()) && hashed(x.spec_node()),
{
    match GLOBAL_CONTEXT.sdiv(&lhs.inner, &rhs.inner) {
        Ok(a) => Ok(BV::wrap(a)),
        Err(e) => Err(e),
    }
}

/// The expression `URem(lhs, rhs)`.
pub fn UMod(lhs: &BV, rhs: &BV) -> (r: Result<BV, ClaripyError>)
    requires
        shallow(lhs.spec_node()),
        shallow(rhs.spec_node()),
    ensures
        r matches Ok(x) && x.spec_node().spec_op() == AstOp::URem(lhs.spec_node(), rhs.spec_node()) && hashed(x.spec_node()),
{
    match GLOBAL_CONTEXT.urem(&lhs.inner, &rhs.inner) {
        Ok(a) => Ok(BV::wrap(a)),
        Err(e) => Err(e),
    }
}

/// The expression `SRem(lhs, rhs)`.
pub fn SMod(lhs: &BV, rhs: &BV) -> (r: Result<BV, ClaripyError>)
    requires
        shallow(lhs.spec_node()),
        shallow(rhs.spec_node()),
    ensures
        r matches Ok(x) && x.spec_node().spec_op() == AstOp::SRem(lhs.spec_node(), rhs.spec_node()) && hashed(x.spec_node()),
{
    match GLOBAL_CONTEXT.srem(&lhs.inner, &rhs.inner) {
        Ok(a) => Ok(BV::wrap(a)),
        Err(e) => Err(e),
    }
}

/// The expression `Pow(lhs, rhs)`.
pub fn Pow(lhs: &BV, rhs: &BV) -> (r: Result<BV, ClaripyError>)
    requires
        shallow(lhs.spec_node()),
        shallow(rhs.spec_node()),
    ensures
        r matches Ok(x) && x.spec_node().spec_op() == AstOp::Pow(lhs.spec_node(), rhs.spec_node()) && hashed(x.spec_node()),
{
    match GLOBAL_CONTEXT.pow(&lhs.inner, &rhs.inner) {
        Ok(a) => Ok(BV::wrap(a)),
        Err(e) => Err(e),
    }
}

/// The expression `LShL(lhs, rhs)`.
pub fn ShL(lhs: &BV, rhs: &BV) -> (r: Result<BV, ClaripyError>)
    requires
        shallow(lhs.spec_node()),
        shallow(rhs.spec_node()),
    ensures
        r matches Ok(x) && x.spec_node().spec_op() == AstOp::LShL(lhs.spec_node(), rhs.spec_node()) && hashed(x.spec_node()),
{
    match GLOBAL_CONTEXT.shl(&lhs.inner, &rhs.inner) {
        Ok(a) => Ok(BV::wrap(a)),
        Err(e) => Err(e),
    }
}

/// The expression `LShR(lhs, rhs)`.
pub fn LShR(lhs: &BV, rhs: &BV) -> (r: Result<BV, ClaripyError>)
    requires
        shallow(lhs.spec_node()),
        shallow(rhs.spec_node()),
    ensures
        r matches Ok(x) && x.spec_node().spec_op() == AstOp::LShR(lhs.spec_node(), rhs.spec_node()) && hashed(x.spec_node()),
{
    match GLOBAL_CONTEXT.lshr(&lhs.inner, &rhs.inner) {
        Ok(a) => Ok(BV::wrap(a)),
        Err(e) => Err(e),
    }
}

/// The expression `AShR(lhs, rhs)`.
pub fn AShR(lhs: &BV, rhs: &BV) -> (r: Result<BV, ClaripyError>)
    requires
        shallow(lhs.spec_node()),
        shallow(rhs.spec_node()),
    ensures
        r matches Ok(x) && x.spec_node().spec_op() == AstOp::AShR(lhs.spec_node(), rhs.spec_node()) && hashed(x.spec_node()),
{
    match GLOBAL_CONTEXT.ashr(&lhs.inner, &rhs.inner) {
        Ok(a) => Ok(BV::wrap(a)),
        Err(e) => Err(e),
    }
}

/// The expression `RotateLeft(lhs, rhs)`.
pub fn RotateLeft(lhs: &BV, rhs: &BV) -> (r: Result<BV, ClaripyError>)
    requires
        shallow(lhs.spec_node()),
        shallow(rhs.spec_node()),
    ensures
        r matches Ok(x) && x.spec_node().spec_op() == AstOp::RotateLeft(lhs.spec_node(), rhs.spec_node()) && hashed(x.spec_node()),
{
    match GLOBAL_CONTEXT.rotate_left(&lhs.inner, &rhs.inner) {
        Ok(a) => Ok(BV::wrap(a)),
        Err(e) => Err(e),
    }
}

/// The expression `RotateRight(lhs, rhs)`.
pub fn RotateRight(lhs: &BV, rhs: &BV) -> (r: Result<BV, ClaripyError>)
    requires
        shallow(lhs.spec_node()),
        shallow(rhs.spec_node()),
    ensures
        r matches Ok(x) && x.spec_node().spec_op() == AstOp::RotateRight(lhs.spec_node(), rhs.spec_node()) && hashed(x.spec_node()),
{
    match GLOBAL_CONTEXT.rotate_right(&lhs.inner, &rhs.inner) {
        Ok(a) => Ok(BV::wrap(a)),
        Err(e) => Err(e),
    }
}

/// The expression `Concat(lhs, rhs)`.
pub fn Concat(lhs: &BV, rhs: &BV) -> (r: Result<BV, ClaripyError>)
    requires
        shallow(lhs.spec_node()),
        shallow(rhs.spec_node()),
    ensures
        r matches Ok(x) && x.spec_node().spec_op() == AstOp::Concat(lhs.spec_node(), rhs.spec_node()) && hashed(x.spec_node())
        && x.spec_node().spec_width() == lhs.spec_node().spec_width() + rhs.spec_node().spec_width(),
{
    match GLOBAL_CONTEXT.concat(&lhs.inner, &rhs.inner) {
        Ok(a) => Ok(BV::wrap(a)),
        Err(e) => Err(e),
    }
}

/// The expression `ULT(lhs, rhs)`.
pub fn ULT(lhs: &BV, rhs: &BV) -> (r: Result<Bool, ClaripyError>)
    requires
        shallow(lhs.spec_node()),
        shallow(rhs.spec_node()),
    ensures
        r matches Ok(x) && x.spec_node().spec_op() == AstOp::ULT(lhs.spec_node(), rhs.spec_node()) && hashed(x.spec_node()),
{
    match GLOBAL_CONTEXT.ult(&lhs.inner, &rhs.inner) {
        Ok(a) => Ok(Bool::wrap(a)),
        Err(e) => Err(e),
    }
}

/// The expression `ULE(lhs, rhs)`.
pub fn ULE(lhs: &BV, rhs: &BV) -> (r: Result<Bool, ClaripyError>)
    requires
        shallow(lhs.spec_node()),
        shallow(rhs.spec_node()),
    ensures
        r matches Ok(x) && x.spec_node().spec_op() == AstOp::ULE(lhs.spec_node(), rhs.spec_node()) && hashed(x.spec_node()),
{
    match GLOBAL_CONTEXT.ule(&lhs.inner, &rhs.inner) {
        Ok(a) => Ok(Bool::wrap(a)),
        Err(e) => Err(e),
    }
}

/// The expression `UGT(lhs, rhs)`.
pub fn UGT(lhs: &BV, rhs: &BV) -> (r: Result<Bool, ClaripyError>)
    requires
        shallow(lhs.spec_node()),
        shallow(rhs.spec_node()),
    ensures
        r matches Ok(x) && x.spec_node().spec_op() == AstOp::UGT(lhs.spec_node(), rhs.spec_node()) && hashed(x.spec_node()),
{
    match GLOBAL_CONTEXT.ugt(&lhs.inner, &rhs.inner) {
        Ok(a) => Ok(Bool::wrap(a)),
        Err(e) => Err(e),
    }
}

/// The expression `UGE(lhs, rhs)`.
pub fn UGE(lhs: &BV, rhs: &BV) -> (r: Result<Bool, ClaripyError>)
    requires
        shallow(lhs.spec_node()),
        shallow(rhs.spec_node()),
    ensures
        r matches Ok(x) && x.spec_node().spec_op() == AstOp::UGE(lhs.spec_node(), rhs.spec_node()) && hashed(x.spec_node()),
{
    match GLOBAL_CONTEXT.uge(&lhs.inner, &rhs.inner) {
        Ok(a) => Ok(Bool::wrap(a)),
        Err(e) => Err(e),
    }
}

/// The expression `SLT(lhs, rhs)`.
pub fn SLT(lhs: &BV, rhs: &BV) -> (r: Result<Bool, ClaripyError>)
    requires
        shallow(lhs.spec_node()),
        shallow(rhs.spec_node()),
    ensures
        r matches Ok(x) && x.spec_node().spec_op() == AstOp::SLT(lhs.spec_node(), rhs.spec_node()) && hashed(x.spec_node()),
{
    match GLOBAL_CONTEXT.slt(&lhs.inner, &rhs.inner) {
        Ok(a) => Ok(Bool::wrap(a)),
        Err(e) => Err(e),
    }
}

/// The expression `SLE(lhs, rhs)`.
pub fn SLE(lhs: &BV, rhs: &BV) -> (r: Result<Bool, ClaripyError>)
    requires
        shallow(lhs.spec_node()),
        shallow(rhs.spec_node()),
    ensures
        r matches Ok(x) && x.spec_node().spec_op() == AstOp::SLE(lhs.spec_node(), rhs.spec_node()) && hashed(x.spec_node()),
{
    match GLOBAL_CONTEXT.sle(&lhs.inner, &rhs.inner) {
        Ok(a) => Ok(Bool::wrap(a)),
        Err(e) => Err(e),
    }
}

/// The expression `SGT(lhs, rhs)`.
pub fn SGT(lhs: &BV, rhs: &BV) -> (r: Result<Bool, ClaripyError>)
    requires
        shallow(lhs.spec_node()),
        shallow(rhs.spec_node()),
    ensures
        r matches Ok(x) && x.spec_node().spec_op() == AstOp::SGT(lhs.spec_node(), rhs.spec_node()) && hashed(x.spec_node()),
{
    match GLOBAL_CONTEXT.sgt(&lhs.inner, &rhs.inner) {
        Ok(a) => Ok(Bool::wrap(a)),
        Err(e) => Err(e),
    }
}

/// The expression `SGE(lhs, rhs)`.
pub fn SGE(lhs: &BV, rhs: &BV) -> (r: Result<Bool, ClaripyError>)
    requires
        shallow(lhs.spec_node()),
        shallow(rhs.spec_node()),
    ensures
        r matches Ok(x) && x.spec_node().spec_op() == AstOp::SGE(lhs.spec_node(), rhs.spec_node()) && hashed(x.spec_node()),
{
    match GLOBAL_CONTEXT.sge(&lhs.inner, &rhs.inner) {
        Ok(a) => Ok(Bool::wrap(a)),
        Err(e) => Err(e),
    }
}

/// The expression `Eq(lhs, rhs)`.
pub fn Eq_(lhs: &BV, rhs: &BV) -> (r: Result<Bool, ClaripyError>)
    requires
        shallow(lhs.spec_node()),
        shallow(rhs.spec_node()),
    ensures
        r matches Ok(x) && x.spec_node().spec_op() == AstOp::Eq(lhs.spec_node(), rhs.spec_node()) && hashed(x.spec_node()),
{
    match GLOBAL_CONTEXT.eq_(&lhs.inner, &rhs.inner) {
        Ok(a) => Ok(Bool::wrap(a)),
        Err(e) => Err(e),
    }
}

/// The expression `Neq(lhs, rhs)`.
pub fn Neq(lhs: &BV, rhs: &BV) -> (r: Result<Bool, ClaripyError>)
    requires
        shallow(lhs.spec_node()),
        shallow(rhs.spec_node()),
    ensures
        r matches Ok(x) && x.spec_node().spec_op() == AstOp::Neq(lhs.spec_node(), rhs.spec_node()) && hashed(x.spec_node()),
{
    match GLOBAL_CONTEXT.neq(&lhs.inner, &rhs.inner) {
        Ok(a) => Ok(Bool::wrap(a)),
        Err(e) => Err(e),
    }
}

/// The expression `Extract(base, start, end)`.
pub fn Extract(base: &BV, start: u32, end: u32) -> (r: Result<BV, ClaripyError>)
    requires
        shallow(base.spec_node()),
    ensures
        r matches Ok(x) && x.spec_node().spec_op() == AstOp::Extract(base.spec_node(), start, end) && hashed(x.spec_node())
        && x.spec_node().spec_width() == start - end + 1,
{
    base.Extract(start, end)
}

/// The expression `ZeroExt(base, amount)`.
pub fn ZeroExt(base: &BV, amount: u32) -> (r: Result<BV, ClaripyError>)
    requires
        shallow(base.spec_node()),
    ensures
        r matches Ok(x) && x.spec_node().spec_op() == AstOp::ZeroExt(base.spec_node(), amount) && hashed(x.spec_node())
        && x.spec_node().spec_width() == base.spec_node().spec_width() + amount,
{
    base.zero_ext(amount)
}

/// The expression `SignExt(base, amount)`.
pub fn SignExt(base: &BV, amount: u32) -> (r: Result<BV, ClaripyError>)
    requires
        shallow(base.spec_node()),
    ensures
        r matches Ok(x) && x.spec_node().spec_op() == AstOp::SignExt(base.spec_node(), amount) && hashed(x.spec_node())
        && x.spec_node().spec_width() == base.spec_node().spec_width() + amount,
{
    base.sign_ext(amount)
}

/// The expression `Reverse(base)`.
pub fn Reverse(base: &BV) -> (r: Result<BV, ClaripyError>)
    requires
        shallow(base.spec_node()),
    ensures
        r matches Ok(x) && x.spec_node().spec_op() == AstOp::Reverse(base.spec_node()) && hashed(x.spec_node())
        && x.spec_node().spec_width() == base.spec_node().spec_width(),
{
    base.reversed()
}

/// The expression `If(cond, then_, else_)`.
pub fn If(cond: &Bool, then_: &BV, else_: &BV) -> (r: Result<BV, ClaripyError>)
    requires
        shallow(cond.spec_node()),
        shallow(then_.spec_node()),
        shallow(else_.spec_node()),
    ensures
        r matches Ok(x) && x.spec_node().spec_op() == AstOp::If(cond.spec_node(), then_.spec_node(), else_.spec_node()) && hashed(x.spec_node())
        && x.spec_node().spec_width() == else_.spec_node().spec_width(),
{
    match GLOBAL_CONTEXT.if_(&cond.inner, &then_.inner, &else_.inner) {
        Ok(a) => Ok(BV::wrap(a)),
        Err(e) => Err(e),
    }
}

} // verus!
