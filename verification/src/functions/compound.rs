//! The compound counting builtins over matcher values.

use vstd::prelude::*;

use crate::functions::combine::collect_matchers;
use crate::functions::combine::combine_list_result_is;
use crate::functions::combine::spec_matcher_list;
use crate::functions::entry_is;
use crate::functions::name_is;
use crate::functions::sig2;
use crate::functions::ParamType;
use crate::functions::ScalarType;
use crate::functions::Signature;
use crate::ir::values::InstMatcherValue;
use crate::ir::values::QueryValue;
use crate::matchers::combine::CombineInstMatcher;
use crate::matchers::combine::CombineMatcherKind;
use crate::matchers::InstMatcher;

verus! {

/// Which compound builtin a name picks.
#[derive(Clone, Copy, PartialEq, Eq, Structural, Debug)]
pub enum CompoundBuiltin {
    OneOf,
    AllOf,
}

/// The builtin a name of this family stands for.
pub open spec fn spec_compound_builtin(name: Seq<char>) -> Option<CompoundBuiltin> {
    if name == "m_inst_oneof"@ {
        Some(CompoundBuiltin::OneOf)
    } else if name == "m_inst_allof"@ {
        Some(CompoundBuiltin::AllOf)
    } else {
        None
    }
}

/// Look a name of this family up.
pub fn compound_builtin(name: &String) -> (r: Option<CompoundBuiltin>)
    ensures
        r == spec_compound_builtin(name@),
{
    if name_is(name, "m_inst_oneof") {
        Some(CompoundBuiltin::OneOf)
    } else if name_is(name, "m_inst_allof") {
        Some(CompoundBuiltin::AllOf)
    } else {
        None
    }
}

/// What a construction call of this family returns.
pub open spec fn compound_matcher_result(
    kind: CompoundBuiltin,
    vals: Seq<QueryValue>,
    r: Option<QueryValue>,
) -> bool {
    match kind {
        CompoundBuiltin::OneOf => combine_list_result_is(
            r,
            spec_matcher_list(vals),
            CombineMatcherKind::OneOf,
        ),
        CompoundBuiltin::AllOf => combine_list_result_is(
            r,
            spec_matcher_list(vals),
            CombineMatcherKind::AllOf,
        ),
    }
}

/// Build a compound matcher value from a checked argument list.
pub fn build_compound_matcher(kind: CompoundBuiltin, values: Vec<QueryValue>) -> (r: Option<
    QueryValue>)
    ensures
        compound_matcher_result(kind, values@, r),
{
    let matchers = collect_matchers(values);
    match kind {
        CompoundBuiltin::OneOf => Some(
            QueryValue::InstMatcher(
                InstMatcherValue {
                    matcher: InstMatcher::Combine(CombineInstMatcher::create_one_of(matchers)),
                },
            ),
        ),
        CompoundBuiltin::AllOf => Some(
            QueryValue::InstMatcher(
                InstMatcherValue {
                    matcher: InstMatcher::Combine(CombineInstMatcher::create_all_of(matchers)),
                },
            ),
        ),
    }
}

/// Whether the published table holds this family's rows, starting at `base`: the compound builtins.
pub open spec fn compound_signature_entries_at(m: Seq<(String, Signature)>, base: int) -> bool {
    &&& entry_is(m, base + 0, "m_inst_oneof"@, seq![ParamType::Plain(ScalarType::InstMatcher), ParamType::Varargs(ScalarType::InstMatcher)], ScalarType::InstMatcher)
    &&& entry_is(m, base + 1, "m_inst_allof"@, seq![ParamType::Plain(ScalarType::InstMatcher), ParamType::Varargs(ScalarType::InstMatcher)], ScalarType::InstMatcher)
}

/// Publish this family's signatures.
pub fn register_compound_matchers_function_signatures(map: &mut Vec<(String, Signature)>)
    ensures
        final(map)@.len() == old(map)@.len() + 2,
        forall|i: int| 0 <= i < old(map)@.len() ==> final(map)@[i] == old(map)@[i],
        compound_signature_entries_at(final(map)@, old(map)@.len() as int),
{
    map.push(("m_inst_oneof".to_owned(), sig2(ParamType::Plain(ScalarType::InstMatcher), ParamType::Varargs(ScalarType::InstMatcher), ScalarType::InstMatcher)));
    map.push(("m_inst_allof".to_owned(), sig2(ParamType::Plain(ScalarType::InstMatcher), ParamType::Varargs(ScalarType::InstMatcher), ScalarType::InstMatcher)));
}

} // verus!
