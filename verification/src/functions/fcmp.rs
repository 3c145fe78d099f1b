//! The floating-point comparison matcher builtins.

use vstd::prelude::*;

use crate::functions::binary_matchers_sides;
use crate::functions::entry_is;
use crate::functions::name_is;
use crate::functions::binary_matcher_params;
use crate::functions::binary_matcher_signature;
use crate::functions::spec_sides;
use crate::functions::ScalarType;
use crate::functions::Signature;
use crate::ir::values::InstMatcherValue;
use crate::ir::values::QueryValue;
use crate::ir::FloatPredicate;
use crate::matchers::fcmp::FloatComparisonInstMatcher;

verus! {

/// The builtin a name of this family stands for.
pub open spec fn spec_fcmp_builtin(name: Seq<char>) -> Option<(FloatPredicate, bool)> {
    if name == "m_fcmp_eq"@ {
        Some((FloatPredicate::OEQ, false))
    } else if name == "m_fcmp_ne"@ {
        Some((FloatPredicate::ONE, false))
    } else if name == "m_fcmp_gt"@ {
        Some((FloatPredicate::OGT, false))
    } else if name == "m_fcmp_ge"@ {
        Some((FloatPredicate::OGE, false))
    } else if name == "m_fcmp_lt"@ {
        Some((FloatPredicate::OLT, false))
    } else if name == "m_fcmp_le"@ {
        Some((FloatPredicate::OLE, false))
    } else if name == "m_fcmp_ord"@ {
        Some((FloatPredicate::ORD, false))
    } else if name == "m_fcmp_uno"@ {
        Some((FloatPredicate::UNO, false))
    } else if name == "m_fcmp_ueq"@ {
        Some((FloatPredicate::UEQ, false))
    } else if name == "m_fcmp_une"@ {
        Some((FloatPredicate::UNE, false))
    } else if name == "m_fcmp_ugt"@ {
        Some((FloatPredicate::UGT, false))
    } else if name == "m_fcmp_uge"@ {
        Some((FloatPredicate::UGE, false))
    } else if name == "m_fcmp_ult"@ {
        Some((FloatPredicate::ULT, false))
    } else if name == "m_fcmp_ule"@ {
        Some((FloatPredicate::ULE, false))
    } else if name == "m_c_fcmp_eq"@ {
        Some((FloatPredicate::OEQ, true))
    } else if name == "m_c_fcmp_ne"@ {
        Some((FloatPredicate::ONE, true))
    } else if name == "m_c_fcmp_gt"@ {
        Some((FloatPredicate::OGT, true))
    } else if name == "m_c_fcmp_ge"@ {
        Some((FloatPredicate::OGE, true))
    } else if name == "m_c_fcmp_lt"@ {
        Some((FloatPredicate::OLT, true))
    } else if name == "m_c_fcmp_le"@ {
        Some((FloatPredicate::OLE, true))
    } else if name == "m_c_fcmp_ord"@ {
        Some((FloatPredicate::ORD, true))
    } else if name == "m_c_fcmp_uno"@ {
        Some((FloatPredicate::UNO, true))
    } else if name == "m_c_fcmp_ueq"@ {
        Some((FloatPredicate::UEQ, true))
    } else if name == "m_c_fcmp_une"@ {
        Some((FloatPredicate::UNE, true))
    } else if name == "m_c_fcmp_ugt"@ {
        Some((FloatPredicate::UGT, true))
    } else if name == "m_c_fcmp_uge"@ {
        Some((FloatPredicate::UGE, true))
    } else if name == "m_c_fcmp_ult"@ {
        Some((FloatPredicate::ULT, true))
    } else if name == "m_c_fcmp_ule"@ {
        Some((FloatPredicate::ULE, true))
    } else {
        None
    }
}

/// Look a name of this family up.
pub fn fcmp_builtin_pred(name: &String) -> (r: Option<(FloatPredicate, bool)>)
    ensures
        r == spec_fcmp_builtin(name@),
{
    if name_is(name, "m_fcmp_eq") {
        Some((FloatPredicate::OEQ, false))
    } else if name_is(name, "m_fcmp_ne") {
        Some((FloatPredicate::ONE, false))
    } else if name_is(name, "m_fcmp_gt") {
        Some((FloatPredicate::OGT, false))
    } else if name_is(name, "m_fcmp_ge") {
        Some((FloatPredicate::OGE, false))
    } else if name_is(name, "m_fcmp_lt") {
        Some((FloatPredicate::OLT, false))
    } else if name_is(name, "m_fcmp_le") {
        Some((FloatPredicate::OLE, false))
    } else if name_is(name, "m_fcmp_ord") {
        Some((FloatPredicate::ORD, false))
    } else if name_is(name, "m_fcmp_uno") {
        Some((FloatPredicate::UNO, false))
    } else if name_is(name, "m_fcmp_ueq") {
        Some((FloatPredicate::UEQ, false))
    } else if name_is(name, "m_fcmp_une") {
        Some((FloatPredicate::UNE, false))
    } else if name_is(name, "m_fcmp_ugt") {
        Some((FloatPredicate::UGT, false))
    } else if name_is(name, "m_fcmp_uge") {
        Some((FloatPredicate::UGE, false))
    } else if name_is(name, "m_fcmp_ult") {
        Some((FloatPredicate::ULT, false))
    } else if name_is(name, "m_fcmp_ule") {
        Some((FloatPredicate::ULE, false))
    } else if name_is(name, "m_c_fcmp_eq") {
        Some((FloatPredicate::OEQ, true))
    } else if name_is(name, "m_c_fcmp_ne") {
        Some((FloatPredicate::ONE, true))
    } else if name_is(name, "m_c_fcmp_gt") {
        Some((FloatPredicate::OGT, true))
    } else if name_is(name, "m_c_fcmp_ge") {
        Some((FloatPredicate::OGE, true))
    } else if name_is(name, "m_c_fcmp_lt") {
        Some((FloatPredicate::OLT, true))
    } else if name_is(name, "m_c_fcmp_le") {
        Some((FloatPredicate::OLE, true))
    } else if name_is(name, "m_c_fcmp_ord") {
        Some((FloatPredicate::ORD, true))
    } else if name_is(name, "m_c_fcmp_uno") {
        Some((FloatPredicate::UNO, true))
    } else if name_is(name, "m_c_fcmp_ueq") {
        Some((FloatPredicate::UEQ, true))
    } else if name_is(name, "m_c_fcmp_une") {
        Some((FloatPredicate::UNE, true))
    } else if name_is(name, "m_c_fcmp_ugt") {
        Some((FloatPredicate::UGT, true))
    } else if name_is(name, "m_c_fcmp_uge") {
        Some((FloatPredicate::UGE, true))
    } else if name_is(name, "m_c_fcmp_ult") {
        Some((FloatPredicate::ULT, true))
    } else if name_is(name, "m_c_fcmp_ule") {
        Some((FloatPredicate::ULE, true))
    } else {
        None
    }
}

/// What a construction call of this family returns: a float comparison
/// matcher over the two sides, or nothing when a side has the wrong kind.
pub open spec fn fcmp_matcher_result(
    pred: FloatPredicate,
    comm: bool,
    vals: Seq<QueryValue>,
    r: Option<QueryValue>,
) -> bool {
    match spec_sides(vals) {
        Some(sides) => r matches Some(QueryValue::InstMatcher(v))
            && FloatComparisonInstMatcher::spec_created(v.matcher, pred, comm, sides.0, sides.1),
        None => r is None,
    }
}

/// Build a float comparison matcher value from a checked argument list.
pub fn build_fcmp_matcher(pred: FloatPredicate, comm: bool, values: Vec<QueryValue>) -> (r: Option<
    QueryValue>)
    ensures
        fcmp_matcher_result(pred, comm, values@, r),
{
    match binary_matchers_sides(values) {
        Some(sides) => {
            let (lhs, rhs) = sides;
            Some(
                QueryValue::InstMatcher(
                    InstMatcherValue {
                        matcher: FloatComparisonInstMatcher::create(pred, comm, lhs, rhs),
                    },
                ),
            )
        },
        None => None,
    }
}

/// Whether the published table holds this family's rows, starting at `base`: the float comparison builtins.
pub open spec fn fcmp_signature_entries_at(m: Seq<(String, Signature)>, base: int) -> bool {
    &&& entry_is(m, base + 0, "m_fcmp_eq"@, binary_matcher_params(), ScalarType::InstMatcher)
    &&& entry_is(m, base + 1, "m_fcmp_ne"@, binary_matcher_params(), ScalarType::InstMatcher)
    &&& entry_is(m, base + 2, "m_fcmp_gt"@, binary_matcher_params(), ScalarType::InstMatcher)
    &&& entry_is(m, base + 3, "m_fcmp_ge"@, binary_matcher_params(), ScalarType::InstMatcher)
    &&& entry_is(m, base + 4, "m_fcmp_lt"@, binary_matcher_params(), ScalarType::InstMatcher)
    &&& entry_is(m, base + 5, "m_fcmp_le"@, binary_matcher_params(), ScalarType::InstMatcher)
    &&& entry_is(m, base + 6, "m_fcmp_ord"@, binary_matcher_params(), ScalarType::InstMatcher)
    &&& entry_is(m, base + 7, "m_fcmp_uno"@, binary_matcher_params(), ScalarType::InstMatcher)
    &&& entry_is(m, base + 8, "m_fcmp_ueq"@, binary_matcher_params(), ScalarType::InstMatcher)
    &&& entry_is(m, base + 9, "m_fcmp_une"@, binary_matcher_params(), ScalarType::InstMatcher)
    &&& entry_is(m, base + 10, "m_fcmp_ugt"@, binary_matcher_params(), ScalarType::InstMatcher)
    &&& entry_is(m, base + 11, "m_fcmp_uge"@, binary_matcher_params(), ScalarType::InstMatcher)
    &&& entry_is(m, base + 12, "m_fcmp_ult"@, binary_matcher_params(), ScalarType::InstMatcher)
    &&& entry_is(m, base + 13, "m_fcmp_ule"@, binary_matcher_params(), ScalarType::InstMatcher)
    &&& entry_is(m, base + 14, "m_c_fcmp_eq"@, binary_matcher_params(), ScalarType::InstMatcher)
    &&& entry_is(m, base + 15, "m_c_fcmp_ne"@, binary_matcher_params(), ScalarType::InstMatcher)
    &&& entry_is(m, base + 16, "m_c_fcmp_gt"@, binary_matcher_params(), ScalarType::InstMatcher)
    &&& entry_is(m, base + 17, "m_c_fcmp_ge"@, binary_matcher_params(), ScalarType::InstMatcher)
    &&& entry_is(m, base + 18, "m_c_fcmp_lt"@, binary_matcher_params(), ScalarType::InstMatcher)
    &&& entry_is(m, base + 19, "m_c_fcmp_le"@, binary_matcher_params(), ScalarType::InstMatcher)
    &&& entry_is(m, base + 20, "m_c_fcmp_ord"@, binary_matcher_params(), ScalarType::InstMatcher)
    &&& entry_is(m, base + 21, "m_c_fcmp_uno"@, binary_matcher_params(), ScalarType::InstMatcher)
    &&& entry_is(m, base + 22, "m_c_fcmp_ueq"@, binary_matcher_params(), ScalarType::InstMatcher)
    &&& entry_is(m, base + 23, "m_c_fcmp_une"@, binary_matcher_params(), ScalarType::InstMatcher)
    &&& entry_is(m, base + 24, "m_c_fcmp_ugt"@, binary_matcher_params(), ScalarType::InstMatcher)
    &&& entry_is(m, base + 25, "m_c_fcmp_uge"@, binary_matcher_params(), ScalarType::InstMatcher)
    &&& entry_is(m, base + 26, "m_c_fcmp_ult"@, binary_matcher_params(), ScalarType::InstMatcher)
    &&& entry_is(m, base + 27, "m_c_fcmp_ule"@, binary_matcher_params(), ScalarType::InstMatcher)
}

/// Publish this family's signatures.
pub fn register_float_comparisons_matchers_function_signatures(map: &mut Vec<(String, Signature)>)
    ensures
        final(map)@.len() == old(map)@.len() + 28,
        forall|i: int| 0 <= i < old(map)@.len() ==> final(map)@[i] == old(map)@[i],
        fcmp_signature_entries_at(final(map)@, old(map)@.len() as int),
{
    map.push(("m_fcmp_eq".to_owned(), binary_matcher_signature()));
    map.push(("m_fcmp_ne".to_owned(), binary_matcher_signature()));
    map.push(("m_fcmp_gt".to_owned(), binary_matcher_signature()));
    map.push(("m_fcmp_ge".to_owned(), binary_matcher_signature()));
    map.push(("m_fcmp_lt".to_owned(), binary_matcher_signature()));
    map.push(("m_fcmp_le".to_owned(), binary_matcher_signature()));
    map.push(("m_fcmp_ord".to_owned(), binary_matcher_signature()));
    map.push(("m_fcmp_uno".to_owned(), binary_matcher_signature()));
    map.push(("m_fcmp_ueq".to_owned(), binary_matcher_signature()));
    map.push(("m_fcmp_une".to_owned(), binary_matcher_signature()));
    map.push(("m_fcmp_ugt".to_owned(), binary_matcher_signature()));
    map.push(("m_fcmp_uge".to_owned(), binary_matcher_signature()));
    map.push(("m_fcmp_ult".to_owned(), binary_matcher_signature()));
    map.push(("m_fcmp_ule".to_owned(), binary_matcher_signature()));
    map.push(("m_c_fcmp_eq".to_owned(), binary_matcher_signature()));
    map.push(("m_c_fcmp_ne".to_owned(), binary_matcher_signature()));
    map.push(("m_c_fcmp_gt".to_owned(), binary_matcher_signature()));
    map.push(("m_c_fcmp_ge".to_owned(), binary_matcher_signature()));
    map.push(("m_c_fcmp_lt".to_owned(), binary_matcher_signature()));
    map.push(("m_c_fcmp_le".to_owned(), binary_matcher_signature()));
    map.push(("m_c_fcmp_ord".to_owned(), binary_matcher_signature()));
    map.push(("m_c_fcmp_uno".to_owned(), binary_matcher_signature()));
    map.push(("m_c_fcmp_ueq".to_owned(), binary_matcher_signature()));
    map.push(("m_c_fcmp_une".to_owned(), binary_matcher_signature()));
    map.push(("m_c_fcmp_ugt".to_owned(), binary_matcher_signature()));
    map.push(("m_c_fcmp_uge".to_owned(), binary_matcher_signature()));
    map.push(("m_c_fcmp_ult".to_owned(), binary_matcher_signature()));
    map.push(("m_c_fcmp_ule".to_owned(), binary_matcher_signature()));
}

} // verus!
