//! The `getelementptr` matcher builtin.

use vstd::prelude::*;

use crate::functions::entry_is;
use crate::functions::name_is;
use crate::functions::ParamType;
use crate::functions::matcher_signature_without_parameters;
use crate::functions::ScalarType;
use crate::functions::Signature;
use crate::ir::values::InstMatcherValue;
use crate::ir::values::QueryValue;
use crate::matchers::get_element_ptr::GetElementPtrMatcher;
use crate::matchers::InstMatcher;

verus! {

/// Whether the name is this module's single builtin.
pub open spec fn spec_is_get_element_ptr_builtin(name: Seq<char>) -> bool {
    name == "m_get_element_ptr"@
}

/// Look the name up.
pub fn is_get_element_ptr_builtin(name: &String) -> (r: bool)
    ensures
        r == spec_is_get_element_ptr_builtin(name@),
{
    name_is(name, "m_get_element_ptr")
}

/// What a construction call of this builtin returns.
pub open spec fn get_element_ptr_matcher_result(r: Option<QueryValue>) -> bool {
    r matches Some(QueryValue::InstMatcher(v)) && v.matcher is GetElementPtr
}

/// Build the `getelementptr` matcher value.
pub fn build_get_element_ptr_matcher() -> (r: Option<QueryValue>)
    ensures
        get_element_ptr_matcher_result(r),
{
    Some(
        QueryValue::InstMatcher(
            InstMatcherValue { matcher: InstMatcher::GetElementPtr(GetElementPtrMatcher) },
        ),
    )
}

/// Whether the published table holds this family's rows, starting at `base`: the single builtin.
pub open spec fn get_element_ptr_signature_entries_at(m: Seq<(String, Signature)>, base: int) -> bool {
    &&& entry_is(m, base + 0, "m_get_element_ptr"@, Seq::<ParamType>::empty(), ScalarType::InstMatcher)
}

/// Publish this family's signatures.
pub fn register_get_element_ptr_inst_matchers_function_signatures(map: &mut Vec<(String, Signature)>)
    ensures
        final(map)@.len() == old(map)@.len() + 1,
        forall|i: int| 0 <= i < old(map)@.len() ==> final(map)@[i] == old(map)@[i],
        get_element_ptr_signature_entries_at(final(map)@, old(map)@.len() as int),
{
    map.push(("m_get_element_ptr".to_owned(), matcher_signature_without_parameters()));
}

} // verus!
