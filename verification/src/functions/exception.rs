//! The exception-form matcher builtins.

use vstd::prelude::*;

use crate::functions::entry_is;
use crate::functions::name_is;
use crate::functions::ParamType;
use crate::functions::matcher_signature_without_parameters;
use crate::functions::ScalarType;
use crate::functions::Signature;
use crate::ir::values::InstMatcherValue;
use crate::ir::values::QueryValue;
use crate::matchers::exception::InvokeInstMatcher;
use crate::matchers::exception::LandingPadInstMatcher;
use crate::matchers::InstMatcher;

verus! {

/// Which exception builtin a name picks.
#[derive(Clone, Copy, PartialEq, Eq, Structural, Debug)]
pub enum ExceptionBuiltin {
    Invoke,
    LandingPad,
}

/// The builtin a name of this family stands for.
pub open spec fn spec_exception_builtin(name: Seq<char>) -> Option<ExceptionBuiltin> {
    if name == "m_invoke"@ {
        Some(ExceptionBuiltin::Invoke)
    } else if name == "m_landingpad"@ {
        Some(ExceptionBuiltin::LandingPad)
    } else {
        None
    }
}

/// Look a name of this family up.
pub fn exception_builtin(name: &String) -> (r: Option<ExceptionBuiltin>)
    ensures
        r == spec_exception_builtin(name@),
{
    if name_is(name, "m_invoke") {
        Some(ExceptionBuiltin::Invoke)
    } else if name_is(name, "m_landingpad") {
        Some(ExceptionBuiltin::LandingPad)
    } else {
        None
    }
}

/// What a construction call of this family returns.
pub open spec fn exception_matcher_result(
    kind: ExceptionBuiltin,
    r: Option<QueryValue>,
) -> bool {
    match kind {
        ExceptionBuiltin::Invoke => r matches Some(QueryValue::InstMatcher(v))
            && v.matcher is Invoke,
        ExceptionBuiltin::LandingPad => r matches Some(QueryValue::InstMatcher(v))
            && v.matcher is LandingPad,
    }
}

/// Build an exception matcher value.
pub fn build_exception_matcher(kind: ExceptionBuiltin) -> (r: Option<QueryValue>)
    ensures
        exception_matcher_result(kind, r),
{
    match kind {
        ExceptionBuiltin::Invoke => Some(
            QueryValue::InstMatcher(
                InstMatcherValue { matcher: InstMatcher::Invoke(InvokeInstMatcher) },
            ),
        ),
        ExceptionBuiltin::LandingPad => Some(
            QueryValue::InstMatcher(
                InstMatcherValue { matcher: InstMatcher::LandingPad(LandingPadInstMatcher) },
            ),
        ),
    }
}

/// Whether the published table holds this family's rows, starting at `base`: the exception builtins.
pub open spec fn exception_signature_entries_at(m: Seq<(String, Signature)>, base: int) -> bool {
    &&& entry_is(m, base + 0, "m_invoke"@, Seq::<ParamType>::empty(), ScalarType::InstMatcher)
    &&& entry_is(m, base + 1, "m_landingpad"@, Seq::<ParamType>::empty(), ScalarType::InstMatcher)
}

/// Publish this family's signatures.
pub fn register_exception_inst_matchers_function_signatures(map: &mut Vec<(String, Signature)>)
    ensures
        final(map)@.len() == old(map)@.len() + 2,
        forall|i: int| 0 <= i < old(map)@.len() ==> final(map)@[i] == old(map)@[i],
        exception_signature_entries_at(final(map)@, old(map)@.len() as int),
{
    map.push(("m_invoke".to_owned(), matcher_signature_without_parameters()));
    map.push(("m_landingpad".to_owned(), matcher_signature_without_parameters()));
}

} // verus!
