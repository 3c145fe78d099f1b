//! The combinator builtins over matcher values.

use vstd::prelude::*;

use crate::functions::binary_matchers_sides;
use crate::functions::entry_is;
use crate::functions::name_is;
use crate::functions::sig1;
use crate::functions::sig2;
use crate::functions::spec_sides;
use crate::functions::ParamType;
use crate::functions::ScalarType;
use crate::functions::Signature;
use crate::ir::values::InstMatcherValue;
use crate::ir::values::QueryValue;
use crate::matchers::combine::CombineBinaryInstMatcher;
use crate::matchers::combine::CombineBinaryMatcherKind;
use crate::matchers::combine::CombineInstMatcher;
use crate::matchers::combine::CombineMatcherKind;
use crate::matchers::combine::CombineUnaryInstMatcher;
use crate::matchers::InstMatcher;

verus! {

/// Which combinator builtin a name picks.
#[derive(Clone, Copy, PartialEq, Eq, Structural, Debug)]
pub enum CombineBuiltin {
    OneOf,
    AllOf,
    NoneOf,
    And,
    Or,
    Xor,
    Not,
}

/// The builtin a name of this family stands for.
pub open spec fn spec_combine_builtin(name: Seq<char>) -> Option<CombineBuiltin> {
    if name == "m_inst_combine_oneof"@ {
        Some(CombineBuiltin::OneOf)
    } else if name == "m_inst_combine_allof"@ {
        Some(CombineBuiltin::AllOf)
    } else if name == "m_inst_combine_noneof"@ {
        Some(CombineBuiltin::NoneOf)
    } else if name == "m_inst_combine_and"@ {
        Some(CombineBuiltin::And)
    } else if name == "m_inst_combine_or"@ {
        Some(CombineBuiltin::Or)
    } else if name == "m_inst_combine_xor"@ {
        Some(CombineBuiltin::Xor)
    } else if name == "m_inst_combine_not"@ {
        Some(CombineBuiltin::Not)
    } else {
        None
    }
}

/// Look a name of this family up.
pub fn combine_builtin(name: &String) -> (r: Option<CombineBuiltin>)
    ensures
        r == spec_combine_builtin(name@),
{
    if name_is(name, "m_inst_combine_oneof") {
        Some(CombineBuiltin::OneOf)
    } else if name_is(name, "m_inst_combine_allof") {
        Some(CombineBuiltin::AllOf)
    } else if name_is(name, "m_inst_combine_noneof") {
        Some(CombineBuiltin::NoneOf)
    } else if name_is(name, "m_inst_combine_and") {
        Some(CombineBuiltin::And)
    } else if name_is(name, "m_inst_combine_or") {
        Some(CombineBuiltin::Or)
    } else if name_is(name, "m_inst_combine_xor") {
        Some(CombineBuiltin::Xor)
    } else if name_is(name, "m_inst_combine_not") {
        Some(CombineBuiltin::Not)
    } else {
        None
    }
}

/// The matchers among an argument list, in order; arguments of any other
/// kind are passed over.
pub open spec fn spec_matcher_list(vals: Seq<QueryValue>) -> Seq<InstMatcher>
    decreases vals.len(),
{
    if vals.len() == 0 {
        Seq::empty()
    } else {
        match vals[0] {
            QueryValue::InstMatcher(v) => seq![v.matcher] + spec_matcher_list(vals.drop_first()),
            _ => spec_matcher_list(vals.drop_first()),
        }
    }
}

/// Collect the matchers among an argument list, in order.
pub fn collect_matchers(values: Vec<QueryValue>) -> (r: Vec<InstMatcher>)
    ensures
        r@ == spec_matcher_list(values@),
{
    let ghost orig = values@;
    let mut values = values;
    let mut r: Vec<InstMatcher> = Vec::new();
    proof {
        assert(r@ + spec_matcher_list(values@) =~= spec_matcher_list(orig));
    }
    while values.len() > 0
        invariant
            r@ + spec_matcher_list(values@) == spec_matcher_list(orig),
        decreases values@.len(),
    {
        let ghost before = values@;
        let first = values.remove(0);
        proof {
            assert(values@ =~= before.drop_first());
        }
        match first {
            QueryValue::InstMatcher(v) => {
                r.push(v.matcher);
                proof {
                    assert(r@ + spec_matcher_list(values@) =~= spec_matcher_list(orig));
                }
            },
            _ => {
                proof {
                    assert(r@ + spec_matcher_list(values@) =~= spec_matcher_list(orig));
                }
            },
        }
    }
    proof {
        assert(spec_matcher_list(values@) =~= Seq::<InstMatcher>::empty());
        assert(r@ =~= spec_matcher_list(orig));
    }
    r
}

/// Whether `r` is an n-ary combinator over exactly these matchers.
pub open spec fn combine_list_result_is(
    r: Option<QueryValue>,
    matchers: Seq<InstMatcher>,
    kind: CombineMatcherKind,
) -> bool {
    r matches Some(QueryValue::InstMatcher(v)) && v.matcher matches InstMatcher::Combine(c)
        && c.matchers@ == matchers && c.matcher_kind == kind
}

/// What a construction call of this family returns.
pub open spec fn combine_matcher_result(
    kind: CombineBuiltin,
    vals: Seq<QueryValue>,
    r: Option<QueryValue>,
) -> bool {
    match kind {
        CombineBuiltin::OneOf => combine_list_result_is(
            r,
            spec_matcher_list(vals),
            CombineMatcherKind::OneOf,
        ),
        CombineBuiltin::AllOf => combine_list_result_is(
            r,
            spec_matcher_list(vals),
            CombineMatcherKind::AllOf,
        ),
        CombineBuiltin::NoneOf => combine_list_result_is(
            r,
            spec_matcher_list(vals),
            CombineMatcherKind::NoneOf,
        ),
        CombineBuiltin::And => match spec_sides(vals) {
            Some(sides) => r matches Some(QueryValue::InstMatcher(v)) && v.matcher matches
                InstMatcher::CombineBinary(c) && *c.lhs == sides.0 && *c.rhs == sides.1
                && c.kind == CombineBinaryMatcherKind::And,
            None => r is None,
        },
        CombineBuiltin::Or => match spec_sides(vals) {
            Some(sides) => r matches Some(QueryValue::InstMatcher(v)) && v.matcher matches
                InstMatcher::CombineBinary(c) && *c.lhs == sides.0 && *c.rhs == sides.1
                && c.kind == CombineBinaryMatcherKind::Or,
            None => r is None,
        },
        CombineBuiltin::Xor => match spec_sides(vals) {
            Some(sides) => r matches Some(QueryValue::InstMatcher(v)) && v.matcher matches
                InstMatcher::CombineBinary(c) && *c.lhs == sides.0 && *c.rhs == sides.1
                && c.kind == CombineBinaryMatcherKind::Xor,
            None => r is None,
        },
        CombineBuiltin::Not => if vals.len() >= 1 && vals[0] is InstMatcher {
            r matches Some(QueryValue::InstMatcher(v)) && v.matcher matches
                InstMatcher::CombineUnary(u) && *u.rhs == vals[0]->InstMatcher_0.matcher
        } else {
            r is None
        },
    }
}

/// Build a combinator matcher value from a checked argument list.
pub fn build_combine_matcher(kind: CombineBuiltin, values: Vec<QueryValue>) -> (r: Option<
    QueryValue>)
    ensures
        combine_matcher_result(kind, values@, r),
{
    match kind {
        CombineBuiltin::OneOf => {
            let matchers = collect_matchers(values);
            Some(
                QueryValue::InstMatcher(
                    InstMatcherValue {
                        matcher: InstMatcher::Combine(CombineInstMatcher::create_one_of(matchers)),
                    },
                ),
            )
        },
        CombineBuiltin::AllOf => {
            let matchers = collect_matchers(values);
            Some(
                QueryValue::InstMatcher(
                    InstMatcherValue {
                        matcher: InstMatcher::Combine(CombineInstMatcher::create_all_of(matchers)),
                    },
                ),
            )
        },
        CombineBuiltin::NoneOf => {
            let matchers = collect_matchers(values);
            Some(
                QueryValue::InstMatcher(
                    InstMatcherValue {
                        matcher: InstMatcher::Combine(CombineInstMatcher::create_none_of(matchers)),
                    },
                ),
            )
        },
        CombineBuiltin::And => match binary_matchers_sides(values) {
            Some(sides) => {
                let (lhs, rhs) = sides;
                Some(
                    QueryValue::InstMatcher(
                        InstMatcherValue {
                            matcher: InstMatcher::CombineBinary(
                                CombineBinaryInstMatcher::create_and(lhs, rhs),
                            ),
                        },
                    ),
                )
            },
            None => None,
        },
        CombineBuiltin::Or => match binary_matchers_sides(values) {
            Some(sides) => {
                let (lhs, rhs) = sides;
                Some(
                    QueryValue::InstMatcher(
                        InstMatcherValue {
                            matcher: InstMatcher::CombineBinary(
                                CombineBinaryInstMatcher::create_or(lhs, rhs),
                            ),
                        },
                    ),
                )
            },
            None => None,
        },
        CombineBuiltin::Xor => match binary_matchers_sides(values) {
            Some(sides) => {
                let (lhs, rhs) = sides;
                Some(
                    QueryValue::InstMatcher(
                        InstMatcherValue {
                            matcher: InstMatcher::CombineBinary(
                                CombineBinaryInstMatcher::create_xor(lhs, rhs),
                            ),
                        },
                    ),
                )
            },
            None => None,
        },
        CombineBuiltin::Not => {
            let mut values = values;
            if values.len() == 0 {
                return None;
            }
            let first = values.remove(0);
            match first {
                QueryValue::InstMatcher(v) => Some(
                    QueryValue::InstMatcher(
                        InstMatcherValue {
                            matcher: InstMatcher::CombineUnary(
                                CombineUnaryInstMatcher::create_not(v.matcher),
                            ),
                        },
                    ),
                ),
                _ => None,
            }
        },
    }
}

/// Whether the published table holds this family's rows, starting at `base`: the combinator builtins.
pub open spec fn combine_signature_entries_at(m: Seq<(String, Signature)>, base: int) -> bool {
    &&& entry_is(m, base + 0, "m_inst_combine_oneof"@, seq![ParamType::Plain(ScalarType::InstMatcher), ParamType::Varargs(ScalarType::InstMatcher)], ScalarType::InstMatcher)
    &&& entry_is(m, base + 1, "m_inst_combine_allof"@, seq![ParamType::Plain(ScalarType::InstMatcher), ParamType::Varargs(ScalarType::InstMatcher)], ScalarType::InstMatcher)
    &&& entry_is(m, base + 2, "m_inst_combine_noneof"@, seq![ParamType::Plain(ScalarType::InstMatcher), ParamType::Varargs(ScalarType::InstMatcher)], ScalarType::InstMatcher)
    &&& entry_is(m, base + 3, "m_inst_combine_and"@, seq![ParamType::Plain(ScalarType::InstMatcher), ParamType::Plain(ScalarType::InstMatcher)], ScalarType::InstMatcher)
    &&& entry_is(m, base + 4, "m_inst_combine_or"@, seq![ParamType::Plain(ScalarType::InstMatcher), ParamType::Plain(ScalarType::InstMatcher)], ScalarType::InstMatcher)
    &&& entry_is(m, base + 5, "m_inst_combine_xor"@, seq![ParamType::Plain(ScalarType::InstMatcher), ParamType::Plain(ScalarType::InstMatcher)], ScalarType::InstMatcher)
    &&& entry_is(m, base + 6, "m_inst_combine_not"@, seq![ParamType::Plain(ScalarType::InstMatcher)], ScalarType::InstMatcher)
}

/// Publish this family's signatures.
pub fn register_combine_matchers_function_signatures(map: &mut Vec<(String, Signature)>)
    ensures
        final(map)@.len() == old(map)@.len() + 7,
        forall|i: int| 0 <= i < old(map)@.len() ==> final(map)@[i] == old(map)@[i],
        combine_signature_entries_at(final(map)@, old(map)@.len() as int),
{
    map.push(("m_inst_combine_oneof".to_owned(), sig2(ParamType::Plain(ScalarType::InstMatcher), ParamType::Varargs(ScalarType::InstMatcher), ScalarType::InstMatcher)));
    map.push(("m_inst_combine_allof".to_owned(), sig2(ParamType::Plain(ScalarType::InstMatcher), ParamType::Varargs(ScalarType::InstMatcher), ScalarType::InstMatcher)));
    map.push(("m_inst_combine_noneof".to_owned(), sig2(ParamType::Plain(ScalarType::InstMatcher), ParamType::Varargs(ScalarType::InstMatcher), ScalarType::InstMatcher)));
    map.push(("m_inst_combine_and".to_owned(), sig2(ParamType::Plain(ScalarType::InstMatcher), ParamType::Plain(ScalarType::InstMatcher), ScalarType::InstMatcher)));
    map.push(("m_inst_combine_or".to_owned(), sig2(ParamType::Plain(ScalarType::InstMatcher), ParamType::Plain(ScalarType::InstMatcher), ScalarType::InstMatcher)));
    map.push(("m_inst_combine_xor".to_owned(), sig2(ParamType::Plain(ScalarType::InstMatcher), ParamType::Plain(ScalarType::InstMatcher), ScalarType::InstMatcher)));
    map.push(("m_inst_combine_not".to_owned(), sig1(ParamType::Plain(ScalarType::InstMatcher), ScalarType::InstMatcher)));
}

} // verus!
