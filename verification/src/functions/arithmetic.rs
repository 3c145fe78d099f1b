//! The arithmetic matcher builtins: integer and floating add, sub, mul, div
//! and rem, in plain and commutative form.

use vstd::prelude::*;

use crate::functions::binary_matchers_sides;
use crate::functions::entry_is;
use crate::functions::name_is;
use crate::functions::binary_matcher_params;
use crate::functions::binary_matcher_signature;
use crate::functions::spec_sides;
use crate::functions::ScalarType;
use crate::functions::Signature;
use crate::ir::values::InstMatcherValue;
use crate::ir::values::QueryValue;
use crate::ir::Opcode;
use crate::matchers::arithmetic::ArithmeticInstMatcher;

verus! {

/// The builtin a name of this family stands for.
pub open spec fn spec_arithmetic_builtin(name: Seq<char>) -> Option<(Opcode, bool)> {
    if name == "m_add"@ {
        Some((Opcode::Add, false))
    } else if name == "m_sub"@ {
        Some((Opcode::Sub, false))
    } else if name == "m_mul"@ {
        Some((Opcode::Mul, false))
    } else if name == "m_div"@ {
        Some((Opcode::SDiv, false))
    } else if name == "m_rem"@ {
        Some((Opcode::SRem, false))
    } else if name == "m_c_add"@ {
        Some((Opcode::Add, true))
    } else if name == "m_c_sub"@ {
        Some((Opcode::Sub, true))
    } else if name == "m_c_mul"@ {
        Some((Opcode::Mul, true))
    } else if name == "m_c_div"@ {
        Some((Opcode::SDiv, true))
    } else if name == "m_c_rem"@ {
        Some((Opcode::SRem, true))
    } else if name == "m_fadd"@ {
        Some((Opcode::FAdd, false))
    } else if name == "m_fsub"@ {
        Some((Opcode::FSub, false))
    } else if name == "m_fmul"@ {
        Some((Opcode::FMul, false))
    } else if name == "m_fdiv"@ {
        Some((Opcode::FDiv, false))
    } else if name == "m_frem"@ {
        Some((Opcode::FRem, false))
    } else if name == "m_c_fadd"@ {
        Some((Opcode::FAdd, true))
    } else if name == "m_c_fsub"@ {
        Some((Opcode::FSub, true))
    } else if name == "m_c_fmul"@ {
        Some((Opcode::FMul, true))
    } else if name == "m_c_fdiv"@ {
        Some((Opcode::FDiv, true))
    } else if name == "m_c_frem"@ {
        Some((Opcode::FRem, true))
    } else {
        None
    }
}

/// Look a name of this family up.
pub fn arithmetic_builtin_op(name: &String) -> (r: Option<(Opcode, bool)>)
    ensures
        r == spec_arithmetic_builtin(name@),
{
    if name_is(name, "m_add") {
        Some((Opcode::Add, false))
    } else if name_is(name, "m_sub") {
        Some((Opcode::Sub, false))
    } else if name_is(name, "m_mul") {
        Some((Opcode::Mul, false))
    } else if name_is(name, "m_div") {
        Some((Opcode::SDiv, false))
    } else if name_is(name, "m_rem") {
        Some((Opcode::SRem, false))
    } else if name_is(name, "m_c_add") {
        Some((Opcode::Add, true))
    } else if name_is(name, "m_c_sub") {
        Some((Opcode::Sub, true))
    } else if name_is(name, "m_c_mul") {
        Some((Opcode::Mul, true))
    } else if name_is(name, "m_c_div") {
        Some((Opcode::SDiv, true))
    } else if name_is(name, "m_c_rem") {
        Some((Opcode::SRem, true))
    } else if name_is(name, "m_fadd") {
        Some((Opcode::FAdd, false))
    } else if name_is(name, "m_fsub") {
        Some((Opcode::FSub, false))
    } else if name_is(name, "m_fmul") {
        Some((Opcode::FMul, false))
    } else if name_is(name, "m_fdiv") {
        Some((Opcode::FDiv, false))
    } else if name_is(name, "m_frem") {
        Some((Opcode::FRem, false))
    } else if name_is(name, "m_c_fadd") {
        Some((Opcode::FAdd, true))
    } else if name_is(name, "m_c_fsub") {
        Some((Opcode::FSub, true))
    } else if name_is(name, "m_c_fmul") {
        Some((Opcode::FMul, true))
    } else if name_is(name, "m_c_fdiv") {
        Some((Opcode::FDiv, true))
    } else if name_is(name, "m_c_frem") {
        Some((Opcode::FRem, true))
    } else {
        None
    }
}

/// What a construction call of this family returns: an arithmetic matcher
/// over the two sides, or nothing when a side has the wrong kind.
pub open spec fn arithmetic_matcher_result(
    op: Opcode,
    comm: bool,
    vals: Seq<QueryValue>,
    r: Option<QueryValue>,
) -> bool {
    match spec_sides(vals) {
        Some(sides) => r matches Some(QueryValue::InstMatcher(v))
            && ArithmeticInstMatcher::spec_created(v.matcher, op, comm, sides.0, sides.1),
        None => r is None,
    }
}

/// Build an arithmetic matcher value from a checked argument list.
pub fn build_arithmetic_matcher(op: Opcode, comm: bool, values: Vec<QueryValue>) -> (r: Option<
    QueryValue>)
    ensures
        arithmetic_matcher_result(op, comm, values@, r),
{
    match binary_matchers_sides(values) {
        Some(sides) => {
            let (lhs, rhs) = sides;
            Some(
                QueryValue::InstMatcher(
                    InstMatcherValue { matcher: ArithmeticInstMatcher::create(op, comm, lhs, rhs) },
                ),
            )
        },
        None => None,
    }
}

/// Whether the published table holds this family's rows, starting at `base`: the arithmetic builtins.
pub open spec fn arithmetic_signature_entries_at(m: Seq<(String, Signature)>, base: int) -> bool {
    &&& entry_is(m, base + 0, "m_add"@, binary_matcher_params(), ScalarType::InstMatcher)
    &&& entry_is(m, base + 1, "m_sub"@, binary_matcher_params(), ScalarType::InstMatcher)
    &&& entry_is(m, base + 2, "m_mul"@, binary_matcher_params(), ScalarType::InstMatcher)
    &&& entry_is(m, base + 3, "m_div"@, binary_matcher_params(), ScalarType::InstMatcher)
    &&& entry_is(m, base + 4, "m_rem"@, binary_matcher_params(), ScalarType::InstMatcher)
    &&& entry_is(m, base + 5, "m_c_add"@, binary_matcher_params(), ScalarType::InstMatcher)
    &&& entry_is(m, base + 6, "m_c_sub"@, binary_matcher_params(), ScalarType::InstMatcher)
    &&& entry_is(m, base + 7, "m_c_mul"@, binary_matcher_params(), ScalarType::InstMatcher)
    &&& entry_is(m, base + 8, "m_c_div"@, binary_matcher_params(), ScalarType::InstMatcher)
    &&& entry_is(m, base + 9, "m_c_rem"@, binary_matcher_params(), ScalarType::InstMatcher)
    &&& entry_is(m, base + 10, "m_fadd"@, binary_matcher_params(), ScalarType::InstMatcher)
    &&& entry_is(m, base + 11, "m_fsub"@, binary_matcher_params(), ScalarType::InstMatcher)
    &&& entry_is(m, base + 12, "m_fmul"@, binary_matcher_params(), ScalarType::InstMatcher)
    &&& entry_is(m, base + 13, "m_fdiv"@, binary_matcher_params(), ScalarType::InstMatcher)
    &&& entry_is(m, base + 14, "m_frem"@, binary_matcher_params(), ScalarType::InstMatcher)
    &&& entry_is(m, base + 15, "m_c_fadd"@, binary_matcher_params(), ScalarType::InstMatcher)
    &&& entry_is(m, base + 16, "m_c_fsub"@, binary_matcher_params(), ScalarType::InstMatcher)
    &&& entry_is(m, base + 17, "m_c_fmul"@, binary_matcher_params(), ScalarType::InstMatcher)
    &&& entry_is(m, base + 18, "m_c_fdiv"@, binary_matcher_params(), ScalarType::InstMatcher)
    &&& entry_is(m, base + 19, "m_c_frem"@, binary_matcher_params(), ScalarType::InstMatcher)
}

/// Publish this family's signatures.
pub fn register_arithmetic_matchers_function_signatures(map: &mut Vec<(String, Signature)>)
    ensures
        final(map)@.len() == old(map)@.len() + 20,
        forall|i: int| 0 <= i < old(map)@.len() ==> final(map)@[i] == old(map)@[i],
        arithmetic_signature_entries_at(final(map)@, old(map)@.len() as int),
{
    map.push(("m_add".to_owned(), binary_matcher_signature()));
    map.push(("m_sub".to_owned(), binary_matcher_signature()));
    map.push(("m_mul".to_owned(), binary_matcher_signature()));
    map.push(("m_div".to_owned(), binary_matcher_signature()));
    map.push(("m_rem".to_owned(), binary_matcher_signature()));
    map.push(("m_c_add".to_owned(), binary_matcher_signature()));
    map.push(("m_c_sub".to_owned(), binary_matcher_signature()));
    map.push(("m_c_mul".to_owned(), binary_matcher_signature()));
    map.push(("m_c_div".to_owned(), binary_matcher_signature()));
    map.push(("m_c_rem".to_owned(), binary_matcher_signature()));
    map.push(("m_fadd".to_owned(), binary_matcher_signature()));
    map.push(("m_fsub".to_owned(), binary_matcher_signature()));
    map.push(("m_fmul".to_owned(), binary_matcher_signature()));
    map.push(("m_fdiv".to_owned(), binary_matcher_signature()));
    map.push(("m_frem".to_owned(), binary_matcher_signature()));
    map.push(("m_c_fadd".to_owned(), binary_matcher_signature()));
    map.push(("m_c_fsub".to_owned(), binary_matcher_signature()));
    map.push(("m_c_fmul".to_owned(), binary_matcher_signature()));
    map.push(("m_c_fdiv".to_owned(), binary_matcher_signature()));
    map.push(("m_c_frem".to_owned(), binary_matcher_signature()));
}

} // verus!
