//! The hash of an operation: 64-bit FNV-1a over a sequence of words that
//! encodes the operation's name, its plain parameters and the hashes of its
//! operands.

use vstd::prelude::*;
use vstd::utf8::encode_utf8;
use crate::ast::name::op_name;
use crate::ast::node::AstRef;
use crate::ast::op::{AstOp, op_children};
use crate::bitvec::BitVec;
use crate::values::{rounding_mode_code, FSort, FPRM};

verus! {

/// The starting state of the hash.
pub const FNV_OFFSET: u64 = 0xcbf29ce484222325u64;

/// The multiplier of each step.
pub const FNV_PRIME: u64 = 0x100000001b3u64;

/// One step: mix the word in, then multiply (modulo 2^64).
pub open spec fn mix(h: u64, w: u64) -> u64 {
    (h ^ w).wrapping_mul(FNV_PRIME)
}

/// The hash of a sequence of words.
pub open spec fn fold_words(ws: Seq<u64>) -> u64
    decreases ws.len(),
{
    if ws.len() == 0 {
        FNV_OFFSET
    } else {
        mix(fold_words(ws.drop_last()), ws.last())
    }
}

/// A byte string as words: its length, then each byte.
pub open spec fn bytes_words(b: Seq<u8>) -> Seq<u64> {
    seq![b.len() as u64] + b.map_values(|x: u8| x as u64)
}

/// A character string as words: the words of its UTF-8 encoding.
pub open spec fn str_words(s: Seq<char>) -> Seq<u64> {
    bytes_words(encode_utf8(s))
}

/// A bit-vector as words: its width, then its little-endian words.
pub open spec fn bitvec_words(bv: BitVec) -> Seq<u64> {
    seq![bv.spec_len() as u64] + bv.spec_words()
}

/// A boolean as a word.
pub open spec fn bool_word(b: bool) -> u64 {
    if b {
        1
    } else {
        0
    }
}

/// A sort as words.
pub open spec fn sort_words(s: FSort) -> Seq<u64> {
    seq![s.exponent as u64, s.mantissa as u64]
}

/// The words of the parameters that are not among the operands that `child_iter` lists.
pub open spec fn op_param_words(op: AstOp) -> Seq<u64> {
    match op {
        AstOp::BoolS(name) => str_words(name@),
        AstOp::BoolV(b) => seq![bool_word(b)],
        AstOp::BVS(name, size) => str_words(name@) + seq![size as u64],
        AstOp::BVV(bv) => bitvec_words(bv),
        AstOp::FPS(name, sort) => str_words(name@) + sort_words(sort),
        AstOp::FPV(f) => seq![bool_word(f.sign)] + bitvec_words(f.exponent) + bitvec_words(f.mantissa),
        AstOp::StringS(name, size) => str_words(name@) + seq![size as u64],
        AstOp::StringV(s) => str_words(s@),
        AstOp::ZeroExt(_, n) | AstOp::SignExt(_, n) => seq![n as u64],
        AstOp::Extract(_, hi, lo) => seq![hi as u64, lo as u64],
        AstOp::FpToFp(_, sort, rm) | AstOp::BvToFpUnsigned(_, sort, rm) => sort_words(sort)
            + seq![rounding_mode_code(rm)],
        AstOp::FpToUBV(_, n, rm) | AstOp::FpToSBV(_, n, rm) => seq![n as u64, rounding_mode_code(rm)],
        AstOp::FpNeg(_, rm) | AstOp::FpAbs(_, rm) | AstOp::FpSqrt(_, rm) => seq![rounding_mode_code(rm)],
        AstOp::FpAdd(_, _, rm)
        | AstOp::FpSub(_, _, rm)
        | AstOp::FpMul(_, _, rm)
        | AstOp::FpDiv(_, _, rm) => seq![rounding_mode_code(rm)],
        AstOp::StrIndexOf(_, _, offset) => seq![offset.spec_hash()],
        AstOp::Annotated(_, ann) => str_words(ann.name@) + bytes_words(ann.value@) + seq![
            bool_word(ann.eliminatable),
            bool_word(ann.relocatable),
        ],
        _ => Seq::empty(),
    }
}

/// The hashes of the given operands.
pub open spec fn child_hashes(cs: Seq<AstRef>) -> Seq<u64> {
    cs.map_values(|c: AstRef| c.spec_hash())
}

/// The words that an operation hashes to: name, parameters, operand hashes.
pub open spec fn op_hash_words(op: AstOp) -> Seq<u64> {
    str_words(op_name(op)) + op_param_words(op) + child_hashes(op_children(op))
}

/// The hash of an operation.
pub open spec fn hash_of_op(op: AstOp) -> u64 {
    fold_words(op_hash_words(op))
}

/// The hash of a sequence of words.
pub fn hash_words(ws: &Vec<u64>) -> (r: u64)
    ensures
        r == fold_words(ws@),
{
    let n = ws.len();
    let mut h: u64 = FNV_OFFSET;
    let mut i: usize = 0;
    while i < n
        invariant
            i <= n,
            n == ws@.len(),
            h == fold_words(ws@.take(i as int)),
        decreases n - i,
    {
        proof {
            assert(ws@.take(i + 1).drop_last() =~= ws@.take(i as int));
        }
        h = (h ^ ws[i]).wrapping_mul(FNV_PRIME);
        i += 1;
    }
    proof {
        assert(ws@.take(n as int) =~= ws@);
    }
    h
}

fn push_bytes(out: &mut Vec<u64>, b: &[u8])
    ensures
        final(out)@ == old(out)@ + bytes_words(b@),
{
    let ghost start = out@;
    out.push(b.len() as u64);
    let n = b.len();
    let mut i: usize = 0;
    while i < n
        invariant
            i <= n,
            n == b@.len(),
            out@ =~= start + seq![n as u64] + b@.take(i as int).map_values(|x: u8| x as u64),
        decreases n - i,
    {
        out.push(b[i] as u64);
        proof {
            assert(b@.take(i + 1).map_values(|x: u8| x as u64) =~= b@.take(i as int).map_values(
                |x: u8| x as u64,
            ).push(b@[i as int] as u64));
        }
        i += 1;
    }
    proof {
        assert(b@.take(n as int) =~= b@);
    }
}

fn push_str(out: &mut Vec<u64>, s: &str)
    ensures
        final(out)@ == old(out)@ + str_words(s@),
{
    push_bytes(out, s.as_bytes());
}

fn push_bitvec(out: &mut Vec<u64>, bv: &BitVec)
    ensures
        final(out)@ == old(out)@ + bitvec_words(*bv),
{
    let ghost start = out@;
    out.push(bv.len() as u64);
    let words = bv.words();
    let n = words.len();
    let mut i: usize = 0;
    while i < n
        invariant
            i <= n,
            n == words@.len(),
            words@ == bv.spec_words(),
            out@ =~= start + seq![bv.spec_len() as u64] + words@.take(i as int),
        decreases n - i,
    {
        out.push(words[i]);
        proof {
            assert(words@.take(i + 1) =~= words@.take(i as int).push(words@[i as int]));
        }
        i += 1;
    }
    proof {
        assert(words@.take(n as int) =~= words@);
    }
}

fn push_sort(out: &mut Vec<u64>, s: &FSort)
    ensures
        final(out)@ == old(out)@ + sort_words(*s),
{
    out.push(s.exponent as u64);
    out.push(s.mantissa as u64);
}

fn push_rm(out: &mut Vec<u64>, rm: &FPRM)
    ensures
        final(out)@ == old(out)@.push(rounding_mode_code(*rm)),
{
    out.push(rm.code());
}

fn bool_to_word(b: bool) -> (r: u64)
    ensures
        r == bool_word(b),
{
    if b {
        1
    } else {
        0
    }
}

impl AstOp {
    /// The words that this operation hashes to.
    pub fn hash_words(&self) -> (r: Vec<u64>)
        ensures
            r@ == op_hash_words(*self),
    {
        let mut out: Vec<u64> = Vec::new();
        push_str(&mut out, self.to_opstring());
        let ghost after_name = out@;
        match self {
            AstOp::BoolS(name) => {
                push_str(&mut out, name.as_str());
            },
            AstOp::BoolV(b) => {
                out.push(bool_to_word(*b));
            },
            AstOp::BVS(name, size) | AstOp::StringS(name, size) => {
                push_str(&mut out, name.as_str());
                out.push(*size as u64);
            },
            AstOp::BVV(bv) => {
                push_bitvec(&mut out, bv);
            },
            AstOp::FPS(name, sort) => {
                push_str(&mut out, name.as_str());
                push_sort(&mut out, sort);
            },
            AstOp::FPV(f) => {
                out.push(bool_to_word(f.sign));
                push_bitvec(&mut out, &f.exponent);
                push_bitvec(&mut out, &f.mantissa);
            },
            AstOp::StringV(s) => {
                push_str(&mut out, s.as_str());
            },
            AstOp::ZeroExt(_, n) | AstOp::SignExt(_, n) => {
                out.push(*n as u64);
            },
            AstOp::Extract(_, hi, lo) => {
                out.push(*hi as u64);
                out.push(*lo as u64);
            },
            AstOp::FpToFp(_, sort, rm) | AstOp::BvToFpUnsigned(_, sort, rm) => {
                push_sort(&mut out, sort);
                push_rm(&mut out, rm);
            },
            AstOp::FpToUBV(_, n, rm) | AstOp::FpToSBV(_, n, rm) => {
                out.push(*n as u64);
                push_rm(&mut out, rm);
            },
            AstOp::FpNeg(_, rm)
            | AstOp::FpAbs(_, rm)
            | AstOp::FpSqrt(_, rm)
            | AstOp::FpAdd(_, _, rm)
            | AstOp::FpSub(_, _, rm)
            | AstOp::FpMul(_, _, rm)
            | AstOp::FpDiv(_, _, rm) => {
                push_rm(&mut out, rm);
            },
            AstOp::StrIndexOf(_, _, offset) => {
                out.push(offset.hash());
            },
            AstOp::Annotated(_, ann) => {
                push_str(&mut out, ann.name.as_str());
                push_bytes(&mut out, ann.value.as_slice());
                out.push(bool_to_word(ann.eliminatable));
                out.push(bool_to_word(ann.relocatable));
            },
            _ => {},
        }
        proof {
            assert(out@ =~= after_name + op_param_words(*self));
        }
        let ghost after_params = out@;
        let cs = self.child_iter();
        let ghost spec_cs = op_children(*self);
        let n = cs.len();
        let mut i: usize = 0;
        while i < n
            invariant
                i <= n,
                n == cs@.len(),
                n == spec_cs.len(),
                forall|k: int| 0 <= k < cs@.len() ==> *cs@[k] == spec_cs[k],
                out@ =~= after_params + child_hashes(spec_cs.take(i as int)),
            decreases n - i,
        {
            out.push(cs[i].hash());
            proof {
                assert(child_hashes(spec_cs.take(i + 1)) =~= child_hashes(spec_cs.take(i as int)).push(
                    spec_cs[i as int].spec_hash(),
                ));
            }
            i += 1;
        }
        proof {
            assert(spec_cs.take(n as int) =~= spec_cs);
        }
        out
    }

    /// The hash of this operation.
    pub fn hash_value(&self) -> (r: u64)
        ensures
            r == hash_of_op(*self),
    {
        let ws = self.hash_words();
        hash_words(&ws)
    }
}

} // verus!
