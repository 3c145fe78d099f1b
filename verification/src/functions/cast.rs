//! The cast matcher builtins.

use vstd::prelude::*;

use crate::functions::entry_is;
use crate::functions::name_is;
use crate::functions::sig1;
use crate::functions::single_optional_matcher_value;
use crate::functions::spec_single_optional_matcher;
use crate::functions::ParamType;
use crate::functions::ScalarType;
use crate::functions::Signature;
use crate::ir::values::InstMatcherValue;
use crate::ir::values::QueryValue;
use crate::matchers::cast::CastInstMatcher;
use crate::matchers::cast::CastMatcherKind;

verus! {

/// The builtin a name of this family stands for.
pub open spec fn spec_cast_builtin(name: Seq<char>) -> Option<CastMatcherKind> {
    if name == "m_cast"@ {
        Some(CastMatcherKind::Any)
    } else if name == "m_trunc"@ {
        Some(CastMatcherKind::Trunc)
    } else if name == "m_fp_to_ui"@ {
        Some(CastMatcherKind::FPToUI)
    } else if name == "m_fp_to_si"@ {
        Some(CastMatcherKind::FPToSI)
    } else if name == "m_fp_trunc"@ {
        Some(CastMatcherKind::FPTrunc)
    } else if name == "m_int_to_ptr"@ {
        Some(CastMatcherKind::IntToPtr)
    } else if name == "m_ptr_to_int"@ {
        Some(CastMatcherKind::PtrToInt)
    } else if name == "m_ext"@ {
        Some(CastMatcherKind::Ext)
    } else if name == "m_fpext"@ {
        Some(CastMatcherKind::FPExt)
    } else if name == "m_zext"@ {
        Some(CastMatcherKind::ZExt)
    } else if name == "m_sext"@ {
        Some(CastMatcherKind::SExt)
    } else if name == "m_bit_cast"@ {
        Some(CastMatcherKind::BitCast)
    } else if name == "m_addr_space_cast"@ {
        Some(CastMatcherKind::AddrSpaceCast)
    } else {
        None
    }
}

/// Look a name of this family up.
pub fn cast_builtin_kind(name: &String) -> (r: Option<CastMatcherKind>)
    ensures
        r == spec_cast_builtin(name@),
{
    if name_is(name, "m_cast") {
        Some(CastMatcherKind::Any)
    } else if name_is(name, "m_trunc") {
        Some(CastMatcherKind::Trunc)
    } else if name_is(name, "m_fp_to_ui") {
        Some(CastMatcherKind::FPToUI)
    } else if name_is(name, "m_fp_to_si") {
        Some(CastMatcherKind::FPToSI)
    } else if name_is(name, "m_fp_trunc") {
        Some(CastMatcherKind::FPTrunc)
    } else if name_is(name, "m_int_to_ptr") {
        Some(CastMatcherKind::IntToPtr)
    } else if name_is(name, "m_ptr_to_int") {
        Some(CastMatcherKind::PtrToInt)
    } else if name_is(name, "m_ext") {
        Some(CastMatcherKind::Ext)
    } else if name_is(name, "m_fpext") {
        Some(CastMatcherKind::FPExt)
    } else if name_is(name, "m_zext") {
        Some(CastMatcherKind::ZExt)
    } else if name_is(name, "m_sext") {
        Some(CastMatcherKind::SExt)
    } else if name_is(name, "m_bit_cast") {
        Some(CastMatcherKind::BitCast)
    } else if name_is(name, "m_addr_space_cast") {
        Some(CastMatcherKind::AddrSpaceCast)
    } else {
        None
    }
}

/// What a construction call of this family returns: a cast matcher over the
/// optional source-operand matcher, or nothing when the argument has the
/// wrong kind.
pub open spec fn cast_matcher_result(
    kind: CastMatcherKind,
    vals: Seq<QueryValue>,
    r: Option<QueryValue>,
) -> bool {
    match spec_single_optional_matcher(vals) {
        Some(inner) => r matches Some(QueryValue::InstMatcher(v))
            && CastInstMatcher::spec_created(v.matcher, kind, inner),
        None => r is None,
    }
}

/// Build a cast matcher value from a checked argument list.
pub fn build_cast_matcher(kind: CastMatcherKind, values: Vec<QueryValue>) -> (r: Option<QueryValue>)
    ensures
        cast_matcher_result(kind, values@, r),
{
    match single_optional_matcher_value(values) {
        Some(inner) => Some(
            QueryValue::InstMatcher(
                InstMatcherValue { matcher: CastInstMatcher::create(kind, inner) },
            ),
        ),
        None => None,
    }
}

/// Whether the published table holds this family's rows, starting at `base`: the cast builtins.
pub open spec fn cast_signature_entries_at(m: Seq<(String, Signature)>, base: int) -> bool {
    &&& entry_is(m, base + 0, "m_cast"@, seq![ParamType::Optional(ScalarType::InstMatcher)], ScalarType::InstMatcher)
    &&& entry_is(m, base + 1, "m_trunc"@, seq![ParamType::Optional(ScalarType::InstMatcher)], ScalarType::InstMatcher)
    &&& entry_is(m, base + 2, "m_fp_to_ui"@, seq![ParamType::Optional(ScalarType::InstMatcher)], ScalarType::InstMatcher)
    &&& entry_is(m, base + 3, "m_fp_to_si"@, seq![ParamType::Optional(ScalarType::InstMatcher)], ScalarType::InstMatcher)
    &&& entry_is(m, base + 4, "m_fp_trunc"@, seq![ParamType::Optional(ScalarType::InstMatcher)], ScalarType::InstMatcher)
    &&& entry_is(m, base + 5, "m_int_to_ptr"@, seq![ParamType::Optional(ScalarType::InstMatcher)], ScalarType::InstMatcher)
    &&& entry_is(m, base + 6, "m_ptr_to_int"@, seq![ParamType::Optional(ScalarType::InstMatcher)], ScalarType::InstMatcher)
    &&& entry_is(m, base + 7, "m_ext"@, seq![ParamType::Optional(ScalarType::InstMatcher)], ScalarType::InstMatcher)
    &&& entry_is(m, base + 8, "m_fpext"@, seq![ParamType::Optional(ScalarType::InstMatcher)], ScalarType::InstMatcher)
    &&& entry_is(m, base + 9, "m_zext"@, seq![ParamType::Optional(ScalarType::InstMatcher)], ScalarType::InstMatcher)
    &&& entry_is(m, base + 10, "m_sext"@, seq![ParamType::Optional(ScalarType::InstMatcher)], ScalarType::InstMatcher)
    &&& entry_is(m, base + 11, "m_bit_cast"@, seq![ParamType::Optional(ScalarType::InstMatcher)], ScalarType::InstMatcher)
    &&& entry_is(m, base + 12, "m_addr_space_cast"@, seq![ParamType::Optional(ScalarType::InstMatcher)], ScalarType::InstMatcher)
}

/// Publish this family's signatures.
pub fn register_cast_matchers_function_signatures(map: &mut Vec<(String, Signature)>)
    ensures
        final(map)@.len() == old(map)@.len() + 13,
        forall|i: int| 0 <= i < old(map)@.len() ==> final(map)@[i] == old(map)@[i],
        cast_signature_entries_at(final(map)@, old(map)@.len() as int),
{
    map.push(("m_cast".to_owned(), sig1(ParamType::Optional(ScalarType::InstMatcher), ScalarType::InstMatcher)));
    map.push(("m_trunc".to_owned(), sig1(ParamType::Optional(ScalarType::InstMatcher), ScalarType::InstMatcher)));
    map.push(("m_fp_to_ui".to_owned(), sig1(ParamType::Optional(ScalarType::InstMatcher), ScalarType::InstMatcher)));
    map.push(("m_fp_to_si".to_owned(), sig1(ParamType::Optional(ScalarType::InstMatcher), ScalarType::InstMatcher)));
    map.push(("m_fp_trunc".to_owned(), sig1(ParamType::Optional(ScalarType::InstMatcher), ScalarType::InstMatcher)));
    map.push(("m_int_to_ptr".to_owned(), sig1(ParamType::Optional(ScalarType::InstMatcher), ScalarType::InstMatcher)));
    map.push(("m_ptr_to_int".to_owned(), sig1(ParamType::Optional(ScalarType::InstMatcher), ScalarType::InstMatcher)));
    map.push(("m_ext".to_owned(), sig1(ParamType::Optional(ScalarType::InstMatcher), ScalarType::InstMatcher)));
    map.push(("m_fpext".to_owned(), sig1(ParamType::Optional(ScalarType::InstMatcher), ScalarType::InstMatcher)));
    map.push(("m_zext".to_owned(), sig1(ParamType::Optional(ScalarType::InstMatcher), ScalarType::InstMatcher)));
    map.push(("m_sext".to_owned(), sig1(ParamType::Optional(ScalarType::InstMatcher), ScalarType::InstMatcher)));
    map.push(("m_bit_cast".to_owned(), sig1(ParamType::Optional(ScalarType::InstMatcher), ScalarType::InstMatcher)));
    map.push(("m_addr_space_cast".to_owned(), sig1(ParamType::Optional(ScalarType::InstMatcher), ScalarType::InstMatcher)));
}

} // verus!
