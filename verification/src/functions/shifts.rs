//! The shift matcher builtins, built on the general binary matcher.

use vstd::prelude::*;

use crate::functions::entry_is;
use crate::functions::name_is;
use crate::functions::binary_matcher_params;
use crate::functions::binary_matcher_signature;
use crate::functions::ScalarType;
use crate::functions::Signature;
use crate::matchers::binary::BinaryOperator;

verus! {

/// The builtin a name of this family stands for.
pub open spec fn spec_shift_builtin(name: Seq<char>) -> Option<(BinaryOperator, bool)> {
    if name == "m_shl"@ {
        Some((BinaryOperator::LogicalShiftLeft, false))
    } else if name == "m_shr"@ {
        Some((BinaryOperator::LogicalShiftRight, false))
    } else if name == "m_ashr"@ {
        Some((BinaryOperator::ArithmeticShiftRight, false))
    } else if name == "m_c_shl"@ {
        Some((BinaryOperator::LogicalShiftLeft, true))
    } else if name == "m_c_shr"@ {
        Some((BinaryOperator::LogicalShiftRight, true))
    } else if name == "m_c_ashr"@ {
        Some((BinaryOperator::ArithmeticShiftRight, true))
    } else {
        None
    }
}

/// Look a name of this family up.
pub fn shift_builtin_op(name: &String) -> (r: Option<(BinaryOperator, bool)>)
    ensures
        r == spec_shift_builtin(name@),
{
    if name_is(name, "m_shl") {
        Some((BinaryOperator::LogicalShiftLeft, false))
    } else if name_is(name, "m_shr") {
        Some((BinaryOperator::LogicalShiftRight, false))
    } else if name_is(name, "m_ashr") {
        Some((BinaryOperator::ArithmeticShiftRight, false))
    } else if name_is(name, "m_c_shl") {
        Some((BinaryOperator::LogicalShiftLeft, true))
    } else if name_is(name, "m_c_shr") {
        Some((BinaryOperator::LogicalShiftRight, true))
    } else if name_is(name, "m_c_ashr") {
        Some((BinaryOperator::ArithmeticShiftRight, true))
    } else {
        None
    }
}

/// Whether the published table holds this family's rows, starting at `base`: the shift builtins.
pub open spec fn shift_signature_entries_at(m: Seq<(String, Signature)>, base: int) -> bool {
    &&& entry_is(m, base + 0, "m_shl"@, binary_matcher_params(), ScalarType::InstMatcher)
    &&& entry_is(m, base + 1, "m_shr"@, binary_matcher_params(), ScalarType::InstMatcher)
    &&& entry_is(m, base + 2, "m_ashr"@, binary_matcher_params(), ScalarType::InstMatcher)
    &&& entry_is(m, base + 3, "m_c_shl"@, binary_matcher_params(), ScalarType::InstMatcher)
    &&& entry_is(m, base + 4, "m_c_shr"@, binary_matcher_params(), ScalarType::InstMatcher)
    &&& entry_is(m, base + 5, "m_c_ashr"@, binary_matcher_params(), ScalarType::InstMatcher)
}

/// Publish this family's signatures.
pub fn register_shift_matchers_function_signatures(map: &mut Vec<(String, Signature)>)
    ensures
        final(map)@.len() == old(map)@.len() + 6,
        forall|i: int| 0 <= i < old(map)@.len() ==> final(map)@[i] == old(map)@[i],
        shift_signature_entries_at(final(map)@, old(map)@.len() as int),
{
    map.push(("m_shl".to_owned(), binary_matcher_signature()));
    map.push(("m_shr".to_owned(), binary_matcher_signature()));
    map.push(("m_ashr".to_owned(), binary_matcher_signature()));
    map.push(("m_c_shl".to_owned(), binary_matcher_signature()));
    map.push(("m_c_shr".to_owned(), binary_matcher_signature()));
    map.push(("m_c_ashr".to_owned(), binary_matcher_signature()));
}

} // verus!
