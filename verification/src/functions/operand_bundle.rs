//! The operand-bundle matcher builtin.

use vstd::prelude::*;

use crate::functions::entry_is;
use crate::functions::name_is;
use crate::functions::sig1;
use crate::functions::ParamType;
use crate::functions::ScalarType;
use crate::functions::Signature;
use crate::ir::values::InstMatcherValue;
use crate::ir::values::QueryValue;
use crate::matchers::operand_bundle::OperandBundleNameMatcher;
use crate::matchers::InstMatcher;

verus! {

/// Whether the name is this module's single builtin.
pub open spec fn spec_is_operand_bundle_builtin(name: Seq<char>) -> bool {
    name == "m_operand_bundle"@
}

/// Look the name up.
pub fn is_operand_bundle_builtin(name: &String) -> (r: bool)
    ensures
        r == spec_is_operand_bundle_builtin(name@),
{
    name_is(name, "m_operand_bundle")
}

/// What a construction call of this builtin returns: the text argument
/// becomes the target tag.
pub open spec fn operand_bundle_matcher_result(
    vals: Seq<QueryValue>,
    r: Option<QueryValue>,
) -> bool {
    if vals.len() >= 1 && vals[0] is Text {
        r matches Some(QueryValue::InstMatcher(v)) && v.matcher matches
            InstMatcher::OperandBundle(m) && m.name@ == vals[0]->Text_0@
    } else {
        r is None
    }
}

/// Build the operand-bundle matcher value from a checked argument list.
pub fn build_operand_bundle_matcher(values: Vec<QueryValue>) -> (r: Option<QueryValue>)
    ensures
        operand_bundle_matcher_result(values@, r),
{
    let mut values = values;
    if values.len() == 0 {
        return None;
    }
    let first = values.remove(0);
    match first {
        QueryValue::Text(s) => Some(
            QueryValue::InstMatcher(
                InstMatcherValue {
                    matcher: InstMatcher::OperandBundle(OperandBundleNameMatcher::create(s)),
                },
            ),
        ),
        _ => None,
    }
}

/// Whether the published table holds this family's rows, starting at `base`: the single builtin.
pub open spec fn operand_bundle_signature_entries_at(m: Seq<(String, Signature)>, base: int) -> bool {
    &&& entry_is(m, base + 0, "m_operand_bundle"@, seq![ParamType::Plain(ScalarType::Text)], ScalarType::InstMatcher)
}

/// Publish this family's signatures.
pub fn register_operand_bundle_inst_matchers_function_signatures(map: &mut Vec<(String, Signature)>)
    ensures
        final(map)@.len() == old(map)@.len() + 1,
        forall|i: int| 0 <= i < old(map)@.len() ==> final(map)@[i] == old(map)@[i],
        operand_bundle_signature_entries_at(final(map)@, old(map)@.len() as int),
{
    map.push(("m_operand_bundle".to_owned(), sig1(ParamType::Plain(ScalarType::Text), ScalarType::InstMatcher)));
}

} // verus!
