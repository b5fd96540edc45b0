use std::sync::Arc;

use clarirs::ast::hash::{hash_words, FNV_OFFSET, FNV_PRIME};
use clarirs::ast::node::{AstNode, AstRef, VarAst};
use clarirs::ast::op::{AstKind, AstOp};
use clarirs::ast::typed::{BitVecAst, BoolAst, StringAst};
use clarirs::bitvec::{BitVec, BitVecError};
use clarirs::context::{ClaripyError, GLOBAL_CONTEXT};
use clarirs::values::{Annotation, FSort, FPRM};

fn make(op: AstOp) -> AstRef {
    GLOBAL_CONTEXT.make(op).unwrap()
}

fn bv_sym(name: &str) -> AstRef {
    make(AstOp::BVS(name.to_string(), 8))
}

fn bool_sym(name: &str) -> AstRef {
    make(AstOp::BoolS(name.to_string()))
}

fn str_sym(name: &str) -> AstRef {
    make(AstOp::StringS(name.to_string(), 16))
}

fn float_sym(name: &str) -> AstRef {
    make(AstOp::FPS(name.to_string(), FSort { exponent: 8, mantissa: 24 }))
}

fn fold(words: &[u64]) -> u64 {
    let mut h = FNV_OFFSET;
    for w in words {
        h = (h ^ w).wrapping_mul(FNV_PRIME);
    }
    h
}

#[test]
fn kinds_of_primitives() {
    assert_eq!(bool_sym("b").kind(), AstKind::Bool);
    assert_eq!(bv_sym("x").kind(), AstKind::BitVec);
    assert_eq!(str_sym("s").kind(), AstKind::String);
    assert_eq!(float_sym("f").kind(), AstKind::Float);
    assert_eq!(make(AstOp::StringV("abc".to_string())).kind(), AstKind::String);
    assert_eq!(make(AstOp::BoolV(false)).kind(), AstKind::Bool);
}

#[test]
fn kind_follows_the_operand_for_bitwise_ops() {
    let b = bool_sym("b");
    let x = bv_sym("x");
    assert_eq!(make(AstOp::Not(b.clone())).kind(), AstKind::Bool);
    assert_eq!(make(AstOp::Not(x.clone())).kind(), AstKind::BitVec);
    assert_eq!(make(AstOp::And(b.clone(), b.clone())).kind(), AstKind::Bool);
    assert_eq!(make(AstOp::Xor(x.clone(), x.clone())).kind(), AstKind::BitVec);
    assert_eq!(make(AstOp::ULT(x.clone(), x.clone())).kind(), AstKind::Bool);
    assert_eq!(make(AstOp::StrLen(str_sym("s"))).kind(), AstKind::BitVec);
    assert_eq!(make(AstOp::FpIsNan(float_sym("f"))).kind(), AstKind::Bool);
    assert_eq!(make(AstOp::FpToIEEEBV(float_sym("f"))).kind(), AstKind::BitVec);
}

#[test]
fn valid_args_checks_operand_sorts() {
    let b = bool_sym("b");
    let x = bv_sym("x");
    let s = str_sym("s");
    let f = float_sym("f");
    assert!(AstOp::Add(x.clone(), x.clone()).valid_args());
    assert!(!AstOp::Add(x.clone(), b.clone()).valid_args());
    assert!(!AstOp::And(b.clone(), x.clone()).valid_args());
    assert!(!AstOp::Not(s.clone()).valid_args());
    assert!(AstOp::Not(b.clone()).valid_args());
    assert!(!AstOp::BVS(String::new(), 8).valid_args());
    assert!(AstOp::FpToUBV(f.clone(), 8, FPRM::TowardZero).valid_args());
    assert!(!AstOp::FpToUBV(f.clone(), 0, FPRM::TowardZero).valid_args());
    assert!(AstOp::StrSubstr(x.clone(), x.clone(), s.clone()).valid_args());
    assert!(!AstOp::StrSubstr(s.clone(), x.clone(), x.clone()).valid_args());
    assert!(AstOp::StrIndexOf(s.clone(), s.clone(), x.clone()).valid_args());
    assert!(!AstOp::StrIndexOf(s.clone(), s.clone(), s.clone()).valid_args());
    assert!(AstOp::FpAdd(f.clone(), f.clone(), FPRM::NearestTiesToEven).valid_args());
    assert!(!AstOp::FpAdd(f.clone(), x.clone(), FPRM::NearestTiesToEven).valid_args());
}

#[test]
fn context_refuses_invalid_arguments() {
    let b = bool_sym("b");
    let x = bv_sym("x");
    assert_eq!(GLOBAL_CONTEXT.make(AstOp::Add(x.clone(), b)).unwrap_err(), ClaripyError::InvalidArguments);
    assert_eq!(GLOBAL_CONTEXT.make(AstOp::StringS(String::new(), 8)).unwrap_err(), ClaripyError::InvalidArguments);
}

#[test]
fn children_in_order() {
    let x = bv_sym("x");
    let y = bv_sym("y");
    let s = str_sym("s");
    let t = str_sym("t");
    let add = AstOp::Sub(x.clone(), y.clone());
    let cs = add.children();
    assert_eq!(cs.len(), 2);
    assert_eq!(cs[0].hash(), x.hash());
    assert_eq!(cs[1].hash(), y.hash());
    assert_eq!(add.child_iter().len(), 2);
    let idx = AstOp::StrIndexOf(s.clone(), t.clone(), x.clone());
    let cs = idx.child_iter();
    assert_eq!(cs.len(), 2);
    assert_eq!(cs[0].hash(), s.hash());
    assert_eq!(cs[1].hash(), t.hash());
    assert_eq!(AstOp::StrReplace(s.clone(), t.clone(), s.clone()).children().len(), 3);
    assert!(AstOp::BoolV(true).children().is_empty());
    assert_eq!(AstOp::Extract(x.clone(), 3, 1).children().len(), 1);
}

#[test]
fn node_facts() {
    let x = bv_sym("x");
    let y = bv_sym("y");
    let sum = make(AstOp::Add(x.clone(), y.clone()));
    assert_eq!(sum.depth(), 2);
    assert!(sum.symbolic());
    let mut vars = sum.variables().clone();
    vars.sort();
    assert_eq!(vars, vec!["x".to_string(), "y".to_string()]);
    let twice = make(AstOp::Add(x.clone(), x.clone()));
    assert_eq!(twice.variables(), &vec!["x".to_string()]);
    let c = make(AstOp::BVV(BitVec::from_digits(&[3], 8).unwrap()));
    assert!(!c.symbolic());
    assert!(c.variables().is_empty());
    let deep = make(AstOp::Add(sum.clone(), c.clone()));
    assert_eq!(deep.depth(), 3);
}

#[test]
fn node_keeps_its_context() {
    let x = bv_sym("x");
    let y = x.context().make(AstOp::BVS("y".to_string(), 8)).unwrap();
    let sum = y.context().make(AstOp::Add(x.clone(), y.clone())).unwrap();
    assert_eq!(sum.hash(), AstOp::Add(x.clone(), y.clone()).hash_value());
    assert_eq!(sum.depth(), 2);
}

#[test]
fn equal_operations_give_equal_nodes() {
    let a = make(AstOp::Add(bv_sym("x"), bv_sym("y")));
    let b = make(AstOp::Add(bv_sym("x"), bv_sym("y")));
    assert_eq!(a.hash(), b.hash());
    assert!(*a == *b);
    let c = make(AstOp::Add(bv_sym("y"), bv_sym("x")));
    assert!(*a != *c);
}

#[test]
fn hash_of_a_constant_is_fnv_of_its_words() {
    let op = AstOp::BoolV(true);
    let words = op.hash_words();
    assert_eq!(words, vec![5, 'B' as u64, 'o' as u64, 'o' as u64, 'l' as u64, 'V' as u64, 1]);
    assert_eq!(op.hash_value(), fold(&words));
    assert_eq!(make(AstOp::BoolV(true)).hash(), fold(&words));
    assert_eq!(hash_words(&vec![]), 0xcbf29ce484222325);
    assert_eq!(hash_words(&vec![1]), (0xcbf29ce484222325u64 ^ 1).wrapping_mul(0x100000001b3));
}

#[test]
fn hash_words_include_operand_hashes() {
    let x = bv_sym("x");
    let op = AstOp::ZeroExt(x.clone(), 4);
    let words = op.hash_words();
    let mut expected: Vec<u64> = vec![7];
    expected.extend("ZeroExt".bytes().map(|b| b as u64));
    expected.push(4);
    expected.push(x.hash());
    assert_eq!(words, expected);
}

#[test]
fn booleans_true_and_false() {
    let t = make(AstOp::BoolV(true));
    let f = make(AstOp::BoolV(false));
    assert!(t.is_true() && !t.is_false());
    assert!(f.is_false() && !f.is_true());
    let b = bool_sym("b");
    assert!(!b.is_true() && !b.is_false());
    let vt = VarAst::from_node(&t);
    assert!(vt.is_true());
    let vx = VarAst::from_node(&bv_sym("x"));
    assert!(!vx.is_true() && !vx.is_false());
}

#[test]
fn var_ast_tags_by_sort() {
    assert!(matches!(VarAst::from_node(&bool_sym("b")), VarAst::Boolean(_)));
    assert!(matches!(VarAst::from_node(&bv_sym("x")), VarAst::BitVec(_)));
    assert!(matches!(VarAst::from_node(&float_sym("f")), VarAst::Float(_)));
    assert!(matches!(VarAst::from_node(&str_sym("s")), VarAst::String(_)));
    let b = BoolAst::from_node(&bool_sym("b")).unwrap();
    assert!(matches!(VarAst::from(&b), VarAst::Boolean(_)));
    assert!(BitVecAst::from_node(&bool_sym("b")).is_none());
    let s = StringAst::from_node(&str_sym("s")).unwrap();
    assert!(matches!(VarAst::from(&s), VarAst::String(_)));
}

#[test]
fn children_are_tagged_by_sort() {
    let b = bool_sym("b");
    let x = bv_sym("x");
    let y = bv_sym("y");
    let ite = GLOBAL_CONTEXT
        .if_(
            &BoolAst::from_node(&b).unwrap(),
            &BitVecAst::from_node(&x).unwrap(),
            &BitVecAst::from_node(&y).unwrap(),
        )
        .unwrap();
    let cs = ite.node().child_iter();
    assert_eq!(cs.len(), 3);
    assert!(matches!(cs[0], VarAst::Boolean(_)));
    assert!(matches!(cs[1], VarAst::BitVec(_)));
    assert!(matches!(cs[2], VarAst::BitVec(_)));
    let s = str_sym("s");
    let f = float_sym("f");
    let has = make(AstOp::StrContains(s.clone(), s.clone()));
    assert!(matches!(VarAst::from_node(&has).child_iter()[0], VarAst::String(_)));
    let nan = make(AstOp::FpIsNan(f.clone()));
    assert!(matches!(VarAst::from_node(&nan).child_iter()[0], VarAst::Float(_)));
}

#[test]
fn var_ast_reports_its_node() {
    let x = bv_sym("x");
    let y = bv_sym("y");
    let v = VarAst::from_node(&make(AstOp::Mul(x.clone(), y.clone())));
    assert_eq!(v.depth(), 2);
    let mut vars = v.variables();
    vars.sort();
    assert_eq!(vars, vec!["x".to_string(), "y".to_string()]);
    let cs = v.child_iter();
    assert_eq!(cs.len(), 2);
    assert!(matches!(cs[0], VarAst::BitVec(_)));
    assert_eq!(cs[1].depth(), 1);
    let top = make(AstOp::ULT(x.clone(), y.clone()));
    let kids = top.child_iter();
    assert_eq!(kids.len(), 2);
}

#[test]
fn annotations_outermost_first() {
    let x = bv_sym("x");
    let a1 = Annotation { name: "first".to_string(), value: vec![1], eliminatable: true, relocatable: false };
    let a2 = Annotation { name: "second".to_string(), value: vec![], eliminatable: false, relocatable: true };
    let one = GLOBAL_CONTEXT.annotate(&x, a1.clone());
    let two = GLOBAL_CONTEXT.annotate(&one, a2.clone());
    assert_eq!(two.kind(), AstKind::BitVec);
    assert_eq!(two.get_annotations(), vec![a2, a1.clone()]);
    assert_eq!(one.get_annotations(), vec![a1]);
    assert!(x.get_annotations().is_empty());
    assert_eq!(two.depth(), 3);
    assert_eq!(VarAst::from_node(&two).get_annotations().len(), 2);
}

#[test]
fn op_names() {
    let x = bv_sym("x");
    assert_eq!(AstOp::Add(x.clone(), x.clone()).to_opstring(), "__add__");
    assert_eq!(AstOp::URem(x.clone(), x.clone()).to_opstring(), "__mod__");
    assert_eq!(AstOp::SRem(x.clone(), x.clone()).to_opstring(), "SMod");
    assert_eq!(AstOp::Not(x.clone()).to_opstring(), "__invert__");
    assert_eq!(AstOp::BoolS("b".to_string()).to_opstring(), "BoolS");
}

#[test]
fn bitvec_from_digits_edges() {
    assert!(BitVec::from_digits(&[], 0).is_ok());
    assert!(BitVec::from_digits(&[0], 0).is_ok());
    assert_eq!(BitVec::from_digits(&[1], 0).unwrap_err(), BitVecError::BitVectorTooShort { length: 0 });
    let b = BitVec::from_digits(&[0, 1], 65).unwrap();
    assert_eq!(b.words(), &vec![0u64, 1]);
    assert!(BitVec::from_digits(&[0, 2], 65).is_err());
    assert!(BitVec::from_digits(&[u64::MAX], 64).is_ok());
    assert!(BitVec::from_digits(&[u64::MAX], 63).is_err());
    assert!(BitVec::from_digits(&[1 << 62], 63).is_ok());
    let t = BitVec::from_digits(&[5, 0, 0], 8).unwrap();
    assert_eq!(t.words(), &vec![5u64]);
    assert_eq!(t.len(), 8);
    let p = BitVec::from_digits(&[5], 130).unwrap();
    assert_eq!(p.words(), &vec![5u64, 0, 0]);
    assert_eq!(p.clone().words(), p.words());
}

#[test]
fn shared_handles() {
    let x: AstRef = bv_sym("x");
    let y: Arc<AstNode> = x.clone();
    assert!(Arc::ptr_eq(&x, &y));
    assert_eq!(x.op().kind(), AstKind::BitVec);
}

#[test]
fn symbolic_exactly_when_a_symbol_occurs() {
    let c1 = make(AstOp::BVV(BitVec::from_digits(&[1], 8).unwrap()));
    let c2 = make(AstOp::BVV(BitVec::from_digits(&[2], 8).unwrap()));
    let x = bv_sym("x");
    assert!(!make(AstOp::Add(c1.clone(), c2.clone())).symbolic());
    assert!(make(AstOp::Add(c1.clone(), x.clone())).symbolic());
    assert!(make(AstOp::Add(x.clone(), c2.clone())).symbolic());
    assert!(x.symbolic());
}

#[test]
fn leaf_exactly_when_no_operands() {
    let x = bv_sym("x");
    assert_eq!(x.depth(), 1);
    assert!(x.op().children().is_empty());
    let n = make(AstOp::Reverse(x.clone()));
    assert_eq!(n.depth(), 2);
    assert_eq!(n.op().children().len(), 1);
}

#[test]
fn depth_is_one_more_than_the_deepest_operand() {
    let x = bv_sym("x");
    let deep = make(AstOp::Not(make(AstOp::Not(make(AstOp::Not(x.clone()))))));
    assert_eq!(deep.depth(), 4);
    let n = make(AstOp::Concat(deep.clone(), x.clone()));
    assert_eq!(n.depth(), 5);
    let m = make(AstOp::Concat(x.clone(), deep.clone()));
    assert_eq!(m.depth(), 5);
}

#[test]
fn sorts_of_valid_bitwise_and_comparison_ops() {
    let b = bool_sym("b");
    let x = bv_sym("x");
    assert_eq!(make(AstOp::Or(b.clone(), b.clone())).kind(), AstKind::Bool);
    assert_eq!(make(AstOp::Or(x.clone(), x.clone())).kind(), AstKind::BitVec);
    assert_eq!(make(AstOp::SGE(x.clone(), x.clone())).kind(), AstKind::Bool);
    assert!(GLOBAL_CONTEXT.make(AstOp::Or(x.clone(), b.clone())).is_err());
    assert!(GLOBAL_CONTEXT.make(AstOp::SGE(b.clone(), b.clone())).is_err());
}
