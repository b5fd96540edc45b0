//! Plain values that operations carry besides their operands: floating-point
//! sorts, rounding modes, floating-point constants and annotations.

use vstd::prelude::*;
use crate::bitvec::BitVec;

verus! {

/// A floating-point sort: the widths of the exponent and of the mantissa.
#[derive(Debug, Clone, Copy, PartialEq, Eq, Hash, Structural)]
pub struct FSort {
    pub exponent: u32,
    pub mantissa: u32,
}

/// A floating-point rounding mode.
#[derive(Debug, Clone, Copy, PartialEq, Eq, Hash, Structural)]
pub enum FPRM {
    NearestTiesToEven,
    TowardPositive,
    TowardNegative,
    TowardZero,
    NearestTiesToAway,
}

/// A floating-point constant given by its sign, exponent bits and mantissa bits.
#[derive(Debug, Clone, PartialEq, Eq, Hash)]
pub struct Float {
    pub sign: bool,
    pub exponent: BitVec,
    pub mantissa: BitVec,
}

/// A piece of metadata attached to an expression.
#[derive(Debug, Clone, PartialEq, Eq, Hash)]
pub struct Annotation {
    pub name: String,
    pub value: Vec<u8>,
    pub eliminatable: bool,
    pub relocatable: bool,
}

/// What an annotation holds, as plain values.
pub struct AnnotationView {
    pub name: Seq<char>,
    pub value: Seq<u8>,
    pub eliminatable: bool,
    pub relocatable: bool,
}

impl View for Annotation {
    type V = AnnotationView;

    open spec fn view(&self) -> AnnotationView {
        AnnotationView {
            name: self.name@,
            value: self.value@,
            eliminatable: self.eliminatable,
            relocatable: self.relocatable,
        }
    }
}

impl Annotation {
    /// A copy of this annotation.
    pub fn duplicate(&self) -> (r: Annotation)
        ensures
            r@ == self@,
    {
        let mut value: Vec<u8> = Vec::new();
        let n = self.value.len();
        let mut i: usize = 0;
        while i < n
            invariant
                i <= n,
                n == self.value@.len(),
                value@ =~= self.value@.take(i as int),
            decreases n - i,
        {
            value.push(self.value[i]);
            i += 1;
        }
        proof {
            assert(value@ =~= self.value@);
        }
        Annotation {
            name: self.name.clone(),
            value,
            eliminatable: self.eliminatable,
            relocatable: self.relocatable,
        }
    }
}

/// The number that names a rounding mode.
pub open spec fn rounding_mode_code(rm: FPRM) -> u64 {
    match rm {
        FPRM::NearestTiesToEven => 0,
        FPRM::TowardPositive => 1,
        FPRM::TowardNegative => 2,
        FPRM::TowardZero => 3,
        FPRM::NearestTiesToAway => 4,
    }
}

impl FPRM {
    /// The number that names this rounding mode.
    pub fn code(&self) -> (r: u64)
        ensures
            r == rounding_mode_code(*self),
    {
        match self {
            FPRM::NearestTiesToEven => 0,
            FPRM::TowardPositive => 1,
            FPRM::TowardNegative => 2,
            FPRM::TowardZero => 3,
            FPRM::NearestTiesToAway => 4,
        }
    }
}

} // verus!
