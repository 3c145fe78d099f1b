//! The call and intrinsic matcher builtins.

use vstd::prelude::*;

use crate::functions::entry_is;
use crate::functions::name_is;
use crate::functions::sig1;
use crate::functions::ParamType;
use crate::functions::ScalarType;
use crate::functions::Signature;
use crate::ir::values::InstMatcherValue;
use crate::ir::values::QueryValue;
use crate::matchers::call::CallInstMatcher;
use crate::matchers::call::IntrinsicInstMatcher;
use crate::matchers::InstMatcher;

verus! {

/// Which call builtin a name picks.
#[derive(Clone, Copy, PartialEq, Eq, Structural, Debug)]
pub enum CallBuiltin {
    Call,
    Intrinsic,
}

/// The builtin a name of this family stands for.
pub open spec fn spec_call_builtin(name: Seq<char>) -> Option<CallBuiltin> {
    if name == "m_call"@ {
        Some(CallBuiltin::Call)
    } else if name == "m_intrinsic"@ {
        Some(CallBuiltin::Intrinsic)
    } else {
        None
    }
}

/// Look a name of this family up.
pub fn call_builtin_kind(name: &String) -> (r: Option<CallBuiltin>)
    ensures
        r == spec_call_builtin(name@),
{
    if name_is(name, "m_call") {
        Some(CallBuiltin::Call)
    } else if name_is(name, "m_intrinsic") {
        Some(CallBuiltin::Intrinsic)
    } else {
        None
    }
}

/// What a construction call of this family returns.  The call matcher tests
/// the opcode alone; the intrinsic matcher optionally pins the callee name,
/// and a first argument of any non-text kind leaves the name unset.
pub open spec fn call_matcher_result(
    kind: CallBuiltin,
    vals: Seq<QueryValue>,
    r: Option<QueryValue>,
) -> bool {
    match kind {
        CallBuiltin::Call => r matches Some(QueryValue::InstMatcher(v)) && v.matcher is Call,
        CallBuiltin::Intrinsic => r matches Some(QueryValue::InstMatcher(v)) && v.matcher matches
            InstMatcher::Intrinsic(m) && if vals.len() >= 1 && vals[0] is Text {
            m.name matches Some(nm) && nm@ == vals[0]->Text_0@
        } else {
            m.name is None
        },
    }
}

/// Build a call or intrinsic matcher value from a checked argument list.
pub fn build_call_matcher(kind: CallBuiltin, values: Vec<QueryValue>) -> (r: Option<QueryValue>)
    ensures
        call_matcher_result(kind, values@, r),
{
    let mut values = values;
    match kind {
        CallBuiltin::Call => Some(
            QueryValue::InstMatcher(
                InstMatcherValue { matcher: InstMatcher::Call(CallInstMatcher::create_call()) },
            ),
        ),
        CallBuiltin::Intrinsic => {
            let name: Option<String> = if values.len() == 0 {
                None
            } else {
                let first = values.remove(0);
                match first {
                    QueryValue::Text(s) => Some(s),
                    _ => None,
                }
            };
            Some(
                QueryValue::InstMatcher(
                    InstMatcherValue {
                        matcher: InstMatcher::Intrinsic(IntrinsicInstMatcher::create_call(name)),
                    },
                ),
            )
        },
    }
}

/// Whether the published table holds this family's rows, starting at `base`: the call builtins.
pub open spec fn call_signature_entries_at(m: Seq<(String, Signature)>, base: int) -> bool {
    &&& entry_is(m, base + 0, "m_call"@, seq![ParamType::Optional(ScalarType::Text)], ScalarType::InstMatcher)
    &&& entry_is(m, base + 1, "m_intrinsic"@, seq![ParamType::Optional(ScalarType::Text)], ScalarType::InstMatcher)
}

/// Publish this family's signatures.
pub fn register_call_inst_matchers_function_signatures(map: &mut Vec<(String, Signature)>)
    ensures
        final(map)@.len() == old(map)@.len() + 2,
        forall|i: int| 0 <= i < old(map)@.len() ==> final(map)@[i] == old(map)@[i],
        call_signature_entries_at(final(map)@, old(map)@.len() as int),
{
    map.push(("m_call".to_owned(), sig1(ParamType::Optional(ScalarType::Text), ScalarType::InstMatcher)));
    map.push(("m_intrinsic".to_owned(), sig1(ParamType::Optional(ScalarType::Text), ScalarType::InstMatcher)));
}

} // verus!
