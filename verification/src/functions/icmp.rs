//! The integer comparison matcher builtins.

use vstd::prelude::*;

use crate::functions::binary_matchers_sides;
use crate::functions::entry_is;
use crate::functions::name_is;
use crate::functions::binary_matcher_params;
use crate::functions::binary_matcher_signature;
use crate::functions::spec_sides;
use crate::functions::ScalarType;
use crate::functions::Signature;
use crate::ir::values::InstMatcherValue;
use crate::ir::values::QueryValue;
use crate::ir::IntPredicate;
use crate::matchers::icmp::IntComparisonInstMatcher;

verus! {

/// The builtin a name of this family stands for.
pub open spec fn spec_icmp_builtin(name: Seq<char>) -> Option<(IntPredicate, bool)> {
    if name == "m_icmp_eq"@ {
        Some((IntPredicate::EQ, false))
    } else if name == "m_icmp_ne"@ {
        Some((IntPredicate::NE, false))
    } else if name == "m_icmp_ugt"@ {
        Some((IntPredicate::UGT, false))
    } else if name == "m_icmp_ueg"@ {
        Some((IntPredicate::UGE, false))
    } else if name == "m_icmp_ult"@ {
        Some((IntPredicate::ULT, false))
    } else if name == "m_icmp_ule"@ {
        Some((IntPredicate::ULE, false))
    } else if name == "m_icmp_sgt"@ {
        Some((IntPredicate::SGT, false))
    } else if name == "m_icmp_sge"@ {
        Some((IntPredicate::SGE, false))
    } else if name == "m_icmp_slt"@ {
        Some((IntPredicate::SLT, false))
    } else if name == "m_icmp_sle"@ {
        Some((IntPredicate::SLE, false))
    } else if name == "m_c_icmp_eq"@ {
        Some((IntPredicate::EQ, true))
    } else if name == "m_c_icmp_ne"@ {
        Some((IntPredicate::NE, true))
    } else if name == "m_c_icmp_ugt"@ {
        Some((IntPredicate::UGT, true))
    } else if name == "m_c_icmp_ueg"@ {
        Some((IntPredicate::UGE, true))
    } else if name == "m_c_icmp_ult"@ {
        Some((IntPredicate::ULT, true))
    } else if name == "m_c_icmp_ule"@ {
        Some((IntPredicate::ULE, true))
    } else if name == "m_c_icmp_sgt"@ {
        Some((IntPredicate::SGT, true))
    } else if name == "m_c_icmp_sge"@ {
        Some((IntPredicate::SGE, true))
    } else if name == "m_c_icmp_slt"@ {
        Some((IntPredicate::SLT, true))
    } else if name == "m_c_icmp_sle"@ {
        Some((IntPredicate::SLE, true))
    } else {
        None
    }
}

/// Look a name of this family up.
pub fn icmp_builtin_pred(name: &String) -> (r: Option<(IntPredicate, bool)>)
    ensures
        r == spec_icmp_builtin(name@),
{
    if name_is(name, "m_icmp_eq") {
        Some((IntPredicate::EQ, false))
    } else if name_is(name, "m_icmp_ne") {
        Some((IntPredicate::NE, false))
    } else if name_is(name, "m_icmp_ugt") {
        Some((IntPredicate::UGT, false))
    } else if name_is(name, "m_icmp_ueg") {
        Some((IntPredicate::UGE, false))
    } else if name_is(name, "m_icmp_ult") {
        Some((IntPredicate::ULT, false))
    } else if name_is(name, "m_icmp_ule") {
        Some((IntPredicate::ULE, false))
    } else if name_is(name, "m_icmp_sgt") {
        Some((IntPredicate::SGT, false))
    } else if name_is(name, "m_icmp_sge") {
        Some((IntPredicate::SGE, false))
    } else if name_is(name, "m_icmp_slt") {
        Some((IntPredicate::SLT, false))
    } else if name_is(name, "m_icmp_sle") {
        Some((IntPredicate::SLE, false))
    } else if name_is(name, "m_c_icmp_eq") {
        Some((IntPredicate::EQ, true))
    } else if name_is(name, "m_c_icmp_ne") {
        Some((IntPredicate::NE, true))
    } else if name_is(name, "m_c_icmp_ugt") {
        Some((IntPredicate::UGT, true))
    } else if name_is(name, "m_c_icmp_ueg") {
        Some((IntPredicate::UGE, true))
    } else if name_is(name, "m_c_icmp_ult") {
        Some((IntPredicate::ULT, true))
    } else if name_is(name, "m_c_icmp_ule") {
        Some((IntPredicate::ULE, true))
    } else if name_is(name, "m_c_icmp_sgt") {
        Some((IntPredicate::SGT, true))
    } else if name_is(name, "m_c_icmp_sge") {
        Some((IntPredicate::SGE, true))
    } else if name_is(name, "m_c_icmp_slt") {
        Some((IntPredicate::SLT, true))
    } else if name_is(name, "m_c_icmp_sle") {
        Some((IntPredicate::SLE, true))
    } else {
        None
    }
}

/// What a construction call of this family returns: an integer comparison
/// matcher over the two sides, or nothing when a side has the wrong kind.
pub open spec fn icmp_matcher_result(
    pred: IntPredicate,
    comm: bool,
    vals: Seq<QueryValue>,
    r: Option<QueryValue>,
) -> bool {
    match spec_sides(vals) {
        Some(sides) => r matches Some(QueryValue::InstMatcher(v))
            && IntComparisonInstMatcher::spec_created(v.matcher, pred, comm, sides.0, sides.1),
        None => r is None,
    }
}

/// Build an integer comparison matcher value from a checked argument list.
pub fn build_icmp_matcher(pred: IntPredicate, comm: bool, values: Vec<QueryValue>) -> (r: Option<
    QueryValue>)
    ensures
        icmp_matcher_result(pred, comm, values@, r),
{
    match binary_matchers_sides(values) {
        Some(sides) => {
            let (lhs, rhs) = sides;
            Some(
                QueryValue::InstMatcher(
                    InstMatcherValue {
                        matcher: IntComparisonInstMatcher::create(pred, comm, lhs, rhs),
                    },
                ),
            )
        },
        None => None,
    }
}

/// Whether the published table holds this family's rows, starting at `base`: the integer comparison builtins.
pub open spec fn icmp_signature_entries_at(m: Seq<(String, Signature)>, base: int) -> bool {
    &&& entry_is(m, base + 0, "m_icmp_eq"@, binary_matcher_params(), ScalarType::InstMatcher)
    &&& entry_is(m, base + 1, "m_icmp_ne"@, binary_matcher_params(), ScalarType::InstMatcher)
    &&& entry_is(m, base + 2, "m_icmp_ugt"@, binary_matcher_params(), ScalarType::InstMatcher)
    &&& entry_is(m, base + 3, "m_icmp_ueg"@, binary_matcher_params(), ScalarType::InstMatcher)
    &&& entry_is(m, base + 4, "m_icmp_ult"@, binary_matcher_params(), ScalarType::InstMatcher)
    &&& entry_is(m, base + 5, "m_icmp_ule"@, binary_matcher_params(), ScalarType::InstMatcher)
    &&& entry_is(m, base + 6, "m_icmp_sgt"@, binary_matcher_params(), ScalarType::InstMatcher)
    &&& entry_is(m, base + 7, "m_icmp_sge"@, binary_matcher_params(), ScalarType::InstMatcher)
    &&& entry_is(m, base + 8, "m_icmp_slt"@, binary_matcher_params(), ScalarType::InstMatcher)
    &&& entry_is(m, base + 9, "m_icmp_sle"@, binary_matcher_params(), ScalarType::InstMatcher)
    &&& entry_is(m, base + 10, "m_c_icmp_eq"@, binary_matcher_params(), ScalarType::InstMatcher)
    &&& entry_is(m, base + 11, "m_c_icmp_ne"@, binary_matcher_params(), ScalarType::InstMatcher)
    &&& entry_is(m, base + 12, "m_c_icmp_ugt"@, binary_matcher_params(), ScalarType::InstMatcher)
    &&& entry_is(m, base + 13, "m_c_icmp_ueg"@, binary_matcher_params(), ScalarType::InstMatcher)
    &&& entry_is(m, base + 14, "m_c_icmp_ult"@, binary_matcher_params(), ScalarType::InstMatcher)
    &&& entry_is(m, base + 15, "m_c_icmp_ule"@, binary_matcher_params(), ScalarType::InstMatcher)
    &&& entry_is(m, base + 16, "m_c_icmp_sgt"@, binary_matcher_params(), ScalarType::InstMatcher)
    &&& entry_is(m, base + 17, "m_c_icmp_sge"@, binary_matcher_params(), ScalarType::InstMatcher)
    &&& entry_is(m, base + 18, "m_c_icmp_slt"@, binary_matcher_params(), ScalarType::InstMatcher)
    &&& entry_is(m, base + 19, "m_c_icmp_sle"@, binary_matcher_params(), ScalarType::InstMatcher)
}

/// Publish this family's signatures.
pub fn register_int_comparisons_matchers_function_signatures(map: &mut Vec<(String, Signature)>)
    ensures
        final(map)@.len() == old(map)@.len() + 20,
        forall|i: int| 0 <= i < old(map)@.len() ==> final(map)@[i] == old(map)@[i],
        icmp_signature_entries_at(final(map)@, old(map)@.len() as int),
{
    map.push(("m_icmp_eq".to_owned(), binary_matcher_signature()));
    map.push(("m_icmp_ne".to_owned(), binary_matcher_signature()));
    map.push(("m_icmp_ugt".to_owned(), binary_matcher_signature()));
    map.push(("m_icmp_ueg".to_owned(), binary_matcher_signature()));
    map.push(("m_icmp_ult".to_owned(), binary_matcher_signature()));
    map.push(("m_icmp_ule".to_owned(), binary_matcher_signature()));
    map.push(("m_icmp_sgt".to_owned(), binary_matcher_signature()));
    map.push(("m_icmp_sge".to_owned(), binary_matcher_signature()));
    map.push(("m_icmp_slt".to_owned(), binary_matcher_signature()));
    map.push(("m_icmp_sle".to_owned(), binary_matcher_signature()));
    map.push(("m_c_icmp_eq".to_owned(), binary_matcher_signature()));
    map.push(("m_c_icmp_ne".to_owned(), binary_matcher_signature()));
    map.push(("m_c_icmp_ugt".to_owned(), binary_matcher_signature()));
    map.push(("m_c_icmp_ueg".to_owned(), binary_matcher_signature()));
    map.push(("m_c_icmp_ult".to_owned(), binary_matcher_signature()));
    map.push(("m_c_icmp_ule".to_owned(), binary_matcher_signature()));
    map.push(("m_c_icmp_sgt".to_owned(), binary_matcher_signature()));
    map.push(("m_c_icmp_sge".to_owned(), binary_matcher_signature()));
    map.push(("m_c_icmp_slt".to_owned(), binary_matcher_signature()));
    map.push(("m_c_icmp_sle".to_owned(), binary_matcher_signature()));
}

} // verus!
