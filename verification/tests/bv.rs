use clarirs::ast::op::{AstKind, AstOp};
use clarirs::bitvec::BitVecError;
use clarirs::bv::{BvvError, BvvValue, BVS, BVV, Add, Concat, Eq_, Extract, If, Reverse, SignExt, ZeroExt, ULT, BV};
use clarirs::context::ClaripyError;

fn sym(name: &str, size: u32) -> BV {
    BVS(name.to_string(), size).unwrap()
}

fn sorted_vars(bv: &BV) -> Vec<String> {
    let mut v = bv.variables();
    v.sort();
    v
}

#[test]
fn bvs_is_a_symbolic_leaf() {
    let x = sym("x", 8);
    assert_eq!(x.op(), "BVS");
    assert!(x.symbolic());
    assert_eq!(sorted_vars(&x), vec!["x".to_string()]);
    assert_eq!(x.depth(), 1);
    assert!(x.is_leaf());
    match x.inner().node().op() {
        AstOp::BVS(name, size) => {
            assert_eq!(name, "x");
            assert_eq!(*size, 8);
        }
        _ => panic!("expected BVS"),
    }
}

#[test]
fn bvs_with_empty_name_is_refused() {
    assert_eq!(BVS(String::new(), 8).unwrap_err(), ClaripyError::InvalidArguments);
}

#[test]
fn bvv_from_int() {
    let v = BVV(&BvvValue::Int(vec![5]), Some(8)).unwrap();
    assert_eq!(v.op(), "BVV");
    assert!(!v.symbolic());
    assert!(v.variables().is_empty());
    assert!(v.is_leaf());
    match v.inner().node().op() {
        AstOp::BVV(bv) => {
            assert_eq!(bv.len(), 8);
            assert_eq!(bv.words(), &vec![5u64]);
        }
        _ => panic!("expected BVV"),
    }
}

#[test]
fn bvv_int_too_wide_is_refused() {
    let e = BVV(&BvvValue::Int(vec![256]), Some(8)).unwrap_err();
    assert_eq!(e, BvvError::Claripy(ClaripyError::BitVec(BitVecError::BitVectorTooShort { length: 8 })));
    assert!(BVV(&BvvValue::Int(vec![255]), Some(8)).is_ok());
}

#[test]
fn bvv_int_needs_a_size() {
    assert_eq!(BVV(&BvvValue::Int(vec![1]), None).unwrap_err(), BvvError::SizeRequired);
}

#[test]
fn bvv_from_bytes_is_little_endian() {
    let v = BVV(&BvvValue::Bytes(vec![0x01, 0x02]), Some(3)).unwrap();
    match v.inner().node().op() {
        AstOp::BVV(bv) => {
            assert_eq!(bv.len(), 16);
            assert_eq!(bv.words(), &vec![0x0201u64]);
        }
        _ => panic!("expected BVV"),
    }
}

#[test]
fn bvv_from_nine_bytes_uses_two_words() {
    let v = BVV(&BvvValue::Bytes(vec![0, 0, 0, 0, 0, 0, 0, 0, 7]), None).unwrap();
    match v.inner().node().op() {
        AstOp::BVV(bv) => {
            assert_eq!(bv.len(), 72);
            assert_eq!(bv.words(), &vec![0u64, 7u64]);
        }
        _ => panic!("expected BVV"),
    }
}

#[test]
fn bvv_from_empty_bytes_has_width_zero() {
    let v = BVV(&BvvValue::Bytes(vec![]), None).unwrap();
    match v.inner().node().op() {
        AstOp::BVV(bv) => {
            assert_eq!(bv.len(), 0);
            assert!(bv.words().is_empty());
        }
        _ => panic!("expected BVV"),
    }
}

#[test]
fn bvv_from_str_uses_utf8_bytes() {
    let v = BVV(&BvvValue::Str("Aé".to_string()), None).unwrap();
    match v.inner().node().op() {
        AstOp::BVV(bv) => {
            assert_eq!(bv.len(), 24);
            assert_eq!(bv.words(), &vec![0xa9c341u64]);
        }
        _ => panic!("expected BVV"),
    }
}

#[test]
fn bvv_of_other_values_is_refused() {
    assert_eq!(BVV(&BvvValue::Other, Some(8)).unwrap_err(), BvvError::UnsupportedValue);
}

#[test]
fn add_collects_variables_and_depth() {
    let x = sym("x", 8);
    let y = sym("y", 8);
    let s = x.__add__(&y).unwrap();
    assert_eq!(s.op(), "__add__");
    assert_eq!(sorted_vars(&s), vec!["x".to_string(), "y".to_string()]);
    assert_eq!(s.depth(), 2);
    assert!(!s.is_leaf());
    let t = s.__mul__(&x).unwrap();
    assert_eq!(t.depth(), 3);
    assert_eq!(sorted_vars(&t), vec!["x".to_string(), "y".to_string()]);
}

#[test]
fn same_expression_has_same_hash() {
    let x = sym("x", 8);
    let y = sym("y", 8);
    let a = x.__add__(&y).unwrap();
    let b = Add(&sym("x", 8), &sym("y", 8)).unwrap();
    assert_eq!(a.hash(), b.hash());
    assert!(**a.inner().node() == **b.inner().node());
    let c = y.__add__(&x).unwrap();
    assert_ne!(a.hash(), c.hash());
    assert_ne!(a.hash(), x.__sub__(&y).unwrap().hash());
}

#[test]
fn reflected_operators_build_the_forward_expression() {
    let x = sym("x", 8);
    let y = sym("y", 8);
    assert_eq!(x.__radd__(&y).unwrap().hash(), x.__add__(&y).unwrap().hash());
    assert_eq!(x.__rsub__(&y).unwrap().hash(), x.__sub__(&y).unwrap().hash());
    assert_eq!(x.__rshift__(&y).unwrap().op(), "__rshift__");
    assert_eq!(x.__rrshift__(&y).unwrap().hash(), x.__rshift__(&y).unwrap().hash());
    assert_eq!(x.__truediv__(&y).unwrap().hash(), x.__floordiv__(&y).unwrap().hash());
}

#[test]
fn negation_is_the_bitwise_complement() {
    let x = sym("x", 8);
    let n = x.__neg__().unwrap();
    assert_eq!(n.op(), "__invert__");
    assert_eq!(n.hash(), x.__invert__().unwrap().hash());
    assert_eq!(x.__pos__().unwrap().hash(), x.hash());
}

#[test]
fn comparisons_are_boolean() {
    let x = sym("x", 8);
    let y = sym("y", 8);
    let c = x.__lt__(&y).unwrap();
    assert_eq!(c.inner().node().kind(), AstKind::Bool);
    assert_eq!(c.inner().node().op().to_opstring(), "ULT");
    assert_eq!(ULT(&x, &y).unwrap().inner().node().hash(), c.inner().node().hash());
    let e = Eq_(&x, &y).unwrap();
    assert_eq!(e.inner().node().op().to_opstring(), "__eq__");
}

#[test]
fn if_takes_the_sort_of_its_branches() {
    let x = sym("x", 8);
    let y = sym("y", 8);
    let c = x.SLT(&y).unwrap();
    let i = If(&c, &x, &y).unwrap();
    assert_eq!(i.op(), "If");
    assert_eq!(i.inner().node().kind(), AstKind::BitVec);
    assert_eq!(i.depth(), 3);
    assert_eq!(sorted_vars(&i), vec!["x".to_string(), "y".to_string()]);
}

#[test]
fn width_operations() {
    let x = sym("x", 8);
    let e = Extract(&x, 3, 0).unwrap();
    assert_eq!(e.op(), "Extract");
    assert_eq!(e.hash(), x.Extract(3, 0).unwrap().hash());
    assert_ne!(e.hash(), x.Extract(4, 0).unwrap().hash());
    assert_eq!(ZeroExt(&x, 8).unwrap().op(), "ZeroExt");
    assert_eq!(SignExt(&x, 8).unwrap().op(), "SignExt");
    assert_eq!(Reverse(&x).unwrap().op(), "Reverse");
    assert_eq!(x.reversed().unwrap().hash(), Reverse(&x).unwrap().hash());
    assert_eq!(Concat(&x, &x).unwrap().op(), "Concat");
    assert_eq!(x.concat(&x).unwrap().hash(), Concat(&x, &x).unwrap().hash());
}
