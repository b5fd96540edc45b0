//! The name of each operation.

use vstd::prelude::*;
use crate::ast::op::AstOp;

verus! {

/// The name of the operation.
pub open spec fn op_name(op: AstOp) -> Seq<char> {
    match op {
        AstOp::BoolS(..) => "BoolS"@,
        AstOp::BoolV(..) => "BoolV"@,
        AstOp::BVS(..) => "BVS"@,
        AstOp::BVV(..) => "BVV"@,
        AstOp::FPS(..) => "FPS"@,
        AstOp::FPV(..) => "FPV"@,
        AstOp::StringS(..) => "StringS"@,
        AstOp::StringV(..) => "StringV"@,
        AstOp::Not(..) => "__invert__"@,
        AstOp::And(..) => "__and__"@,
        AstOp::Or(..) => "__or__"@,
        AstOp::Xor(..) => "__xor__"@,
        AstOp::Add(..) => "__add__"@,
        AstOp::Sub(..) => "__sub__"@,
        AstOp::Mul(..) => "__mul__"@,
        AstOp::UDiv(..) => "__floordiv__"@,
        AstOp::SDiv(..) => "SDiv"@,
        AstOp::URem(..) => "__mod__"@,
        AstOp::SRem(..) => "SMod"@,
        AstOp::Pow(..) => "__pow__"@,
        AstOp::LShL(..) => "__lshift__"@,
        AstOp::LShR(..) => "LShR"@,
        AstOp::AShL(..) => "AShL"@,
        AstOp::AShR(..) => "__rshift__"@,
        AstOp::RotateLeft(..) => "RotateLeft"@,
        AstOp::RotateRight(..) => "RotateRight"@,
        AstOp::ZeroExt(..) => "ZeroExt"@,
        AstOp::SignExt(..) => "SignExt"@,
        AstOp::Extract(..) => "Extract"@,
        AstOp::Concat(..) => "Concat"@,
        AstOp::Reverse(..) => "Reverse"@,
        AstOp::Eq(..) => "__eq__"@,
        AstOp::Neq(..) => "__ne__"@,
        AstOp::ULT(..) => "ULT"@,
        AstOp::ULE(..) => "ULE"@,
        AstOp::UGT(..) => "UGT"@,
        AstOp::UGE(..) => "UGE"@,
        AstOp::SLT(..) => "SLT"@,
        AstOp::SLE(..) => "SLE"@,
        AstOp::SGT(..) => "SGT"@,
        AstOp::SGE(..) => "SGE"@,
        AstOp::FpToFp(..) => "fpToFP"@,
        AstOp::BvToFpUnsigned(..) => "fpToFPUnsigned"@,
        AstOp::FpToIEEEBV(..) => "fpToIEEEBV"@,
        AstOp::FpToUBV(..) => "fpToUBV"@,
        AstOp::FpToSBV(..) => "fpToSBV"@,
        AstOp::FpNeg(..) => "fpNeg"@,
        AstOp::FpAbs(..) => "fpAbs"@,
        AstOp::FpAdd(..) => "fpAdd"@,
        AstOp::FpSub(..) => "fpSub"@,
        AstOp::FpMul(..) => "fpMul"@,
        AstOp::FpDiv(..) => "fpDiv"@,
        AstOp::FpSqrt(..) => "fpSqrt"@,
        AstOp::FpEq(..) => "fpEQ"@,
        AstOp::FpNeq(..) => "fpNE"@,
        AstOp::FpLt(..) => "fpLT"@,
        AstOp::FpLeq(..) => "fpLEQ"@,
        AstOp::FpGt(..) => "fpGT"@,
        AstOp::FpGeq(..) => "fpGEQ"@,
        AstOp::FpIsNan(..) => "fpIsNaN"@,
        AstOp::FpIsInf(..) => "fpIsInf"@,
        AstOp::StrLen(..) => "StrLen"@,
        AstOp::StrConcat(..) => "StrConcat"@,
        AstOp::StrSubstr(..) => "StrSubstr"@,
        AstOp::StrContains(..) => "StrContains"@,
        AstOp::StrIndexOf(..) => "StrIndexOf"@,
        AstOp::StrReplace(..) => "StrReplace"@,
        AstOp::StrPrefixOf(..) => "StrPrefixOf"@,
        AstOp::StrSuffixOf(..) => "StrSuffixOf"@,
        AstOp::StrToBV(..) => "StrToInt"@,
        AstOp::BVToStr(..) => "IntToStr"@,
        AstOp::StrIsDigit(..) => "StrIsDigit"@,
        AstOp::StrEq(..) => "StrEq"@,
        AstOp::StrNeq(..) => "StrNeq"@,
        AstOp::If(..) => "If"@,
        AstOp::Annotated(..) => "Annotated"@,
    }
}

impl AstOp {
    /// The name of the operation.
    pub fn to_opstring(&self) -> (r: &'static str)
        ensures
            r@ == op_name(*self),
    {
        match self {
            AstOp::BoolS(..) => "BoolS",
            AstOp::BoolV(..) => "BoolV",
            AstOp::BVS(..) => "BVS",
            AstOp::BVV(..) => "BVV",
            AstOp::FPS(..) => "FPS",
            AstOp::FPV(..) => "FPV",
            AstOp::StringS(..) => "StringS",
            AstOp::StringV(..) => "StringV",
            AstOp::Not(..) => "__invert__",
            AstOp::And(..) => "__and__",
            AstOp::Or(..) => "__or__",
            AstOp::Xor(..) => "__xor__",
            AstOp::Add(..) => "__add__",
            AstOp::Sub(..) => "__sub__",
            AstOp::Mul(..) => "__mul__",
            AstOp::UDiv(..) => "__floordiv__",
            AstOp::SDiv(..) => "SDiv",
            AstOp::URem(..) => "__mod__",
            AstOp::SRem(..) => "SMod",
            AstOp::Pow(..) => "__pow__",
            AstOp::LShL(..) => "__lshift__",
            AstOp::LShR(..) => "LShR",
            AstOp::AShL(..) => "AShL",
            AstOp::AShR(..) => "__rshift__",
            AstOp::RotateLeft(..) => "RotateLeft",
            AstOp::RotateRight(..) => "RotateRight",
            AstOp::ZeroExt(..) => "ZeroExt",
            AstOp::SignExt(..) => "SignExt",
            AstOp::Extract(..) => "Extract",
            AstOp::Concat(..) => "Concat",
            AstOp::Reverse(..) => "Reverse",
            AstOp::Eq(..) => "__eq__",
            AstOp::Neq(..) => "__ne__",
            AstOp::ULT(..) => "ULT",
            AstOp::ULE(..) => "ULE",
            AstOp::UGT(..) => "UGT",
            AstOp::UGE(..) => "UGE",
            AstOp::SLT(..) => "SLT",
            AstOp::SLE(..) => "SLE",
            AstOp::SGT(..) => "SGT",
            AstOp::SGE(..) => "SGE",
            AstOp::FpToFp(..) => "fpToFP",
            AstOp::BvToFpUnsigned(..) => "fpToFPUnsigned",
            AstOp::FpToIEEEBV(..) => "fpToIEEEBV",
            AstOp::FpToUBV(..) => "fpToUBV",
            AstOp::FpToSBV(..) => "fpToSBV",
            AstOp::FpNeg(..) => "fpNeg",
            AstOp::FpAbs(..) => "fpAbs",
            AstOp::FpAdd(..) => "fpAdd",
            AstOp::FpSub(..) => "fpSub",
            AstOp::FpMul(..) => "fpMul",
            AstOp::FpDiv(..) => "fpDiv",
            AstOp::FpSqrt(..) => "fpSqrt",
            AstOp::FpEq(..) => "fpEQ",
            AstOp::FpNeq(..) => "fpNE",
            AstOp::FpLt(..) => "fpLT",
            AstOp::FpLeq(..) => "fpLEQ",
            AstOp::FpGt(..) => "fpGT",
            AstOp::FpGeq(..) => "fpGEQ",
            AstOp::FpIsNan(..) => "fpIsNaN",
            AstOp::FpIsInf(..) => "fpIsInf",
            AstOp::StrLen(..) => "StrLen",
            AstOp::StrConcat(..) => "StrConcat",
            AstOp::StrSubstr(..) => "StrSubstr",
            AstOp::StrContains(..) => "StrContains",
            AstOp::StrIndexOf(..) => "StrIndexOf",
            AstOp::StrReplace(..) => "StrReplace",
            AstOp::StrPrefixOf(..) => "StrPrefixOf",
            AstOp::StrSuffixOf(..) => "StrSuffixOf",
            AstOp::StrToBV(..) => "StrToInt",
            AstOp::BVToStr(..) => "IntToStr",
            AstOp::StrIsDigit(..) => "StrIsDigit",
            AstOp::StrEq(..) => "StrEq",
            AstOp::StrNeq(..) => "StrNeq",
            AstOp::If(..) => "If",
            AstOp::Annotated(..) => "Annotated",
        }
    }
}

} // verus!
