//! The general binary matcher builtins: bitwise forms, the disjoint-or
//! form, and the any-binary-operator form, plain and commutative.

use vstd::prelude::*;

use crate::functions::binary_matchers_sides;
use crate::functions::entry_is;
use crate::functions::name_is;
use crate::functions::binary_matcher_params;
use crate::functions::binary_matcher_signature;
use crate::functions::spec_sides;
use crate::functions::ScalarType;
use crate::functions::Signature;
use crate::ir::values::InstMatcherValue;
use crate::ir::values::QueryValue;
use crate::matchers::binary::BinaryInstMatcher;
use crate::matchers::binary::BinaryOperator;

verus! {

/// The builtin a name of this family stands for.
pub open spec fn spec_binary_builtin(name: Seq<char>) -> Option<(BinaryOperator, bool)> {
    if name == "m_binop"@ {
        Some((BinaryOperator::Any, false))
    } else if name == "m_or"@ {
        Some((BinaryOperator::Or, false))
    } else if name == "m_or_disjoint"@ {
        Some((BinaryOperator::OrDisjoint, false))
    } else if name == "m_and"@ {
        Some((BinaryOperator::And, false))
    } else if name == "m_xor"@ {
        Some((BinaryOperator::Xor, false))
    } else if name == "m_c_binop"@ {
        Some((BinaryOperator::Any, true))
    } else if name == "m_c_or"@ {
        Some((BinaryOperator::Or, true))
    } else if name == "m_c_or_disjoint"@ {
        Some((BinaryOperator::OrDisjoint, true))
    } else if name == "m_c_and"@ {
        Some((BinaryOperator::And, true))
    } else if name == "m_c_xor"@ {
        Some((BinaryOperator::Xor, true))
    } else {
        None
    }
}

/// Look a name of this family up.
pub fn binary_builtin_op(name: &String) -> (r: Option<(BinaryOperator, bool)>)
    ensures
        r == spec_binary_builtin(name@),
{
    if name_is(name, "m_binop") {
        Some((BinaryOperator::Any, false))
    } else if name_is(name, "m_or") {
        Some((BinaryOperator::Or, false))
    } else if name_is(name, "m_or_disjoint") {
        Some((BinaryOperator::OrDisjoint, false))
    } else if name_is(name, "m_and") {
        Some((BinaryOperator::And, false))
    } else if name_is(name, "m_xor") {
        Some((BinaryOperator::Xor, false))
    } else if name_is(name, "m_c_binop") {
        Some((BinaryOperator::Any, true))
    } else if name_is(name, "m_c_or") {
        Some((BinaryOperator::Or, true))
    } else if name_is(name, "m_c_or_disjoint") {
        Some((BinaryOperator::OrDisjoint, true))
    } else if name_is(name, "m_c_and") {
        Some((BinaryOperator::And, true))
    } else if name_is(name, "m_c_xor") {
        Some((BinaryOperator::Xor, true))
    } else {
        None
    }
}

/// What a construction call of this family returns: a general binary matcher
/// over the two sides, or nothing when a side has the wrong kind.
pub open spec fn binary_matcher_result(
    op: BinaryOperator,
    comm: bool,
    vals: Seq<QueryValue>,
    r: Option<QueryValue>,
) -> bool {
    match spec_sides(vals) {
        Some(sides) => r matches Some(QueryValue::InstMatcher(v))
            && BinaryInstMatcher::spec_created(v.matcher, op, comm, sides.0, sides.1),
        None => r is None,
    }
}

/// Build a general binary matcher value from a checked argument list.
pub fn build_binary_matcher(op: BinaryOperator, comm: bool, values: Vec<QueryValue>) -> (r: Option<
    QueryValue>)
    ensures
        binary_matcher_result(op, comm, values@, r),
{
    match binary_matchers_sides(values) {
        Some(sides) => {
            let (lhs, rhs) = sides;
            Some(
                QueryValue::InstMatcher(
                    InstMatcherValue { matcher: BinaryInstMatcher::create(op, comm, lhs, rhs) },
                ),
            )
        },
        None => None,
    }
}

/// Whether the published table holds this family's rows, starting at `base`: the general binary builtins.
pub open spec fn binary_signature_entries_at(m: Seq<(String, Signature)>, base: int) -> bool {
    &&& entry_is(m, base + 0, "m_binop"@, binary_matcher_params(), ScalarType::InstMatcher)
    &&& entry_is(m, base + 1, "m_or"@, binary_matcher_params(), ScalarType::InstMatcher)
    &&& entry_is(m, base + 2, "m_or_disjoint"@, binary_matcher_params(), ScalarType::InstMatcher)
    &&& entry_is(m, base + 3, "m_and"@, binary_matcher_params(), ScalarType::InstMatcher)
    &&& entry_is(m, base + 4, "m_xor"@, binary_matcher_params(), ScalarType::InstMatcher)
    &&& entry_is(m, base + 5, "m_c_binop"@, binary_matcher_params(), ScalarType::InstMatcher)
    &&& entry_is(m, base + 6, "m_c_or"@, binary_matcher_params(), ScalarType::InstMatcher)
    &&& entry_is(m, base + 7, "m_c_or_disjoint"@, binary_matcher_params(), ScalarType::InstMatcher)
    &&& entry_is(m, base + 8, "m_c_and"@, binary_matcher_params(), ScalarType::InstMatcher)
    &&& entry_is(m, base + 9, "m_c_xor"@, binary_matcher_params(), ScalarType::InstMatcher)
}

/// Publish this family's signatures.
pub fn register_binary_inst_matchers_function_signatures(map: &mut Vec<(String, Signature)>)
    ensures
        final(map)@.len() == old(map)@.len() + 10,
        forall|i: int| 0 <= i < old(map)@.len() ==> final(map)@[i] == old(map)@[i],
        binary_signature_entries_at(final(map)@, old(map)@.len() as int),
{
    map.push(("m_binop".to_owned(), binary_matcher_signature()));
    map.push(("m_or".to_owned(), binary_matcher_signature()));
    map.push(("m_or_disjoint".to_owned(), binary_matcher_signature()));
    map.push(("m_and".to_owned(), binary_matcher_signature()));
    map.push(("m_xor".to_owned(), binary_matcher_signature()));
    map.push(("m_c_binop".to_owned(), binary_matcher_signature()));
    map.push(("m_c_or".to_owned(), binary_matcher_signature()));
    map.push(("m_c_or_disjoint".to_owned(), binary_matcher_signature()));
    map.push(("m_c_and".to_owned(), binary_matcher_signature()));
    map.push(("m_c_xor".to_owned(), binary_matcher_signature()));
}

} // verus!
