//! The use-count matcher builtins.

use vstd::prelude::*;

use crate::functions::entry_is;
use crate::functions::name_is;
use crate::functions::sig1;
use crate::functions::sig2;
use crate::functions::ParamType;
use crate::functions::ScalarType;
use crate::functions::Signature;
use crate::ir::values::InstMatcherValue;
use crate::ir::values::QueryValue;
use crate::matchers::usage::UsageInstMatcher;
use crate::matchers::InstMatcher;

verus! {

/// Which use-count builtin a name picks.
#[derive(Clone, Copy, PartialEq, Eq, Structural, Debug)]
pub enum UsageBuiltin {
    Unused,
    HasOneUse,
    HasNUses,
}

/// The builtin a name of this family stands for.
pub open spec fn spec_usage_builtin(name: Seq<char>) -> Option<UsageBuiltin> {
    if name == "m_unused"@ {
        Some(UsageBuiltin::Unused)
    } else if name == "m_has_one_use"@ {
        Some(UsageBuiltin::HasOneUse)
    } else if name == "m_has_n_uses"@ {
        Some(UsageBuiltin::HasNUses)
    } else {
        None
    }
}

/// Look a name of this family up.
pub fn usage_builtin(name: &String) -> (r: Option<UsageBuiltin>)
    ensures
        r == spec_usage_builtin(name@),
{
    if name_is(name, "m_unused") {
        Some(UsageBuiltin::Unused)
    } else if name_is(name, "m_has_one_use") {
        Some(UsageBuiltin::HasOneUse)
    } else if name_is(name, "m_has_n_uses") {
        Some(UsageBuiltin::HasNUses)
    } else {
        None
    }
}

/// Whether `r` is a usage matcher wrapping `inner` with exactly this count.
pub open spec fn usage_result_is(r: Option<QueryValue>, inner: InstMatcher, count: usize) -> bool {
    r matches Some(QueryValue::InstMatcher(v)) && v.matcher matches InstMatcher::Usage(u)
        && *u.matcher == inner && u.count == count
}

/// What a construction call of this family returns.
pub open spec fn usage_matcher_result(
    kind: UsageBuiltin,
    vals: Seq<QueryValue>,
    r: Option<QueryValue>,
) -> bool {
    if vals.len() >= 1 && vals[0] is InstMatcher {
        let inner = vals[0]->InstMatcher_0.matcher;
        match kind {
            UsageBuiltin::Unused => usage_result_is(r, inner, 0),
            UsageBuiltin::HasOneUse => usage_result_is(r, inner, 1),
            UsageBuiltin::HasNUses => if vals.len() >= 2 && vals[1] is Int {
                usage_result_is(r, inner, vals[1]->Int_0 as usize)
            } else {
                r is None
            },
        }
    } else {
        r is None
    }
}

/// Build a usage matcher value from a checked argument list.
pub fn build_usage_matcher(kind: UsageBuiltin, values: Vec<QueryValue>) -> (r: Option<QueryValue>)
    ensures
        usage_matcher_result(kind, values@, r),
{
    let mut values = values;
    if values.len() == 0 {
        return None;
    }
    let first = values.remove(0);
    let inner = match first {
        QueryValue::InstMatcher(v) => v.matcher,
        _ => { return None; },
    };
    match kind {
        UsageBuiltin::Unused => Some(
            QueryValue::InstMatcher(
                InstMatcherValue { matcher: UsageInstMatcher::create_unused_matcher(inner) },
            ),
        ),
        UsageBuiltin::HasOneUse => Some(
            QueryValue::InstMatcher(
                InstMatcherValue { matcher: UsageInstMatcher::create_has_one_use_matcher(inner) },
            ),
        ),
        UsageBuiltin::HasNUses => {
            if values.len() == 0 {
                return None;
            }
            let second = values.remove(0);
            match second {
                QueryValue::Int(v) => {
                    let count: usize = #[verifier::truncate] (v as usize);
                    Some(
                        QueryValue::InstMatcher(
                            InstMatcherValue {
                                matcher: UsageInstMatcher::create_has_n_uses_matcher(inner, count),
                            },
                        ),
                    )
                },
                _ => None,
            }
        },
    }
}

/// Whether the published table holds this family's rows, starting at `base`: the use-count builtins.
pub open spec fn usage_signature_entries_at(m: Seq<(String, Signature)>, base: int) -> bool {
    &&& entry_is(m, base + 0, "m_unused"@, seq![ParamType::Plain(ScalarType::InstMatcher)], ScalarType::InstMatcher)
    &&& entry_is(m, base + 1, "m_has_one_use"@, seq![ParamType::Plain(ScalarType::InstMatcher)], ScalarType::InstMatcher)
    &&& entry_is(m, base + 2, "m_has_n_uses"@, seq![ParamType::Plain(ScalarType::InstMatcher), ParamType::Plain(ScalarType::Int)], ScalarType::InstMatcher)
}

/// Publish this family's signatures.
pub fn register_usage_matchers_function_signatures(map: &mut Vec<(String, Signature)>)
    ensures
        final(map)@.len() == old(map)@.len() + 3,
        forall|i: int| 0 <= i < old(map)@.len() ==> final(map)@[i] == old(map)@[i],
        usage_signature_entries_at(final(map)@, old(map)@.len() as int),
{
    map.push(("m_unused".to_owned(), sig1(ParamType::Plain(ScalarType::InstMatcher), ScalarType::InstMatcher)));
    map.push(("m_has_one_use".to_owned(), sig1(ParamType::Plain(ScalarType::InstMatcher), ScalarType::InstMatcher)));
    map.push(("m_has_n_uses".to_owned(), sig2(ParamType::Plain(ScalarType::InstMatcher), ParamType::Plain(ScalarType::Int), ScalarType::InstMatcher)));
}

} // verus!
