//! The structural matcher builtins and the terminal predicate evaluator.

use vstd::prelude::*;

use crate::functions::entry_is;
use crate::functions::name_is;
use crate::functions::matcher_signature_without_parameters;
use crate::functions::sig1;
use crate::functions::sig2;
use crate::functions::ParamType;
use crate::functions::ScalarType;
use crate::functions::Signature;
use crate::ir::values::InstMatcherValue;
use crate::ir::values::QueryValue;
use crate::matchers::other::AnyInstMatcher;
use crate::matchers::other::ArgumentMatcher;
use crate::matchers::other::ExtractValueInstMatcher;
use crate::matchers::other::InstTypeMatcher;
use crate::matchers::other::LabelInstMatcher;
use crate::matchers::other::OperandCountMatcher;
use crate::matchers::other::PoisonValueMatcher;
use crate::matchers::other::ReturnInstMatcher;
use crate::matchers::other::UnreachableInstMatcher;
use crate::matchers::InstMatcher;

verus! {

/// Which structural builtin a name picks.
#[derive(Clone, Copy, PartialEq, Eq, Structural, Debug)]
pub enum OtherBuiltin {
    Inst,
    ExtractValue,
    InstType,
    AnyInst,
    Poison,
    Label,
    Argument,
    Return,
    Unreachable,
    OperandsNumber,
}

/// The builtin a name of this family stands for.
pub open spec fn spec_other_builtin(name: Seq<char>) -> Option<OtherBuiltin> {
    if name == "m_inst"@ {
        Some(OtherBuiltin::Inst)
    } else if name == "m_extract_value"@ {
        Some(OtherBuiltin::ExtractValue)
    } else if name == "m_inst_type"@ {
        Some(OtherBuiltin::InstType)
    } else if name == "m_any_inst"@ {
        Some(OtherBuiltin::AnyInst)
    } else if name == "m_poison"@ {
        Some(OtherBuiltin::Poison)
    } else if name == "m_label"@ {
        Some(OtherBuiltin::Label)
    } else if name == "m_argument"@ {
        Some(OtherBuiltin::Argument)
    } else if name == "m_return"@ {
        Some(OtherBuiltin::Return)
    } else if name == "m_unreachable"@ {
        Some(OtherBuiltin::Unreachable)
    } else if name == "m_operands_number"@ {
        Some(OtherBuiltin::OperandsNumber)
    } else {
        None
    }
}

/// Look a name of this family up.
pub fn other_builtin(name: &String) -> (r: Option<OtherBuiltin>)
    ensures
        r == spec_other_builtin(name@),
{
    if name_is(name, "m_inst") {
        Some(OtherBuiltin::Inst)
    } else if name_is(name, "m_extract_value") {
        Some(OtherBuiltin::ExtractValue)
    } else if name_is(name, "m_inst_type") {
        Some(OtherBuiltin::InstType)
    } else if name_is(name, "m_any_inst") {
        Some(OtherBuiltin::AnyInst)
    } else if name_is(name, "m_poison") {
        Some(OtherBuiltin::Poison)
    } else if name_is(name, "m_label") {
        Some(OtherBuiltin::Label)
    } else if name_is(name, "m_argument") {
        Some(OtherBuiltin::Argument)
    } else if name_is(name, "m_return") {
        Some(OtherBuiltin::Return)
    } else if name_is(name, "m_unreachable") {
        Some(OtherBuiltin::Unreachable)
    } else if name_is(name, "m_operands_number") {
        Some(OtherBuiltin::OperandsNumber)
    } else {
        None
    }
}

/// What a construction or evaluation call of this family returns.
///
/// The terminal evaluator answers the matcher's exact boolean on the given
/// node; every other case builds a matcher value.  A missing optional matcher
/// argument defaults to the any-node matcher; a supplied argument of the
/// wrong kind is a construction-time type error, answered with nothing.  An
/// optional name of a non-text kind is treated as no name.
pub open spec fn other_builtin_result(
    kind: OtherBuiltin,
    vals: Seq<QueryValue>,
    r: Option<QueryValue>,
) -> bool {
    match kind {
        OtherBuiltin::Inst => if vals.len() >= 2 && vals[0] is Inst && vals[1] is InstMatcher {
            r == Some(
                QueryValue::Bool(vals[1]->InstMatcher_0.matcher.spec_match(vals[0]->Inst_0)),
            )
        } else {
            r is None
        },
        OtherBuiltin::ExtractValue => {
            let inner = if vals.len() == 0 {
                Some(InstMatcher::Any(AnyInstMatcher))
            } else {
                match vals[0] {
                    QueryValue::InstMatcher(v) => Some(v.matcher),
                    _ => None,
                }
            };
            match inner {
                Some(inner) => if vals.len() >= 2 {
                    if vals[1] is IntList {
                        r matches Some(QueryValue::InstMatcher(v)) && v.matcher matches
                            InstMatcher::ExtractValue(m) && *m.matcher == inner && (
                        m.indices matches Some(ix) && ix@ == vals[1]->IntList_0@)
                    } else {
                        r is None
                    }
                } else {
                    r matches Some(QueryValue::InstMatcher(v)) && v.matcher matches
                        InstMatcher::ExtractValue(m) && *m.matcher == inner && m.indices is None
                },
                None => r is None,
            }
        },
        OtherBuiltin::InstType => if vals.len() >= 1 && vals[0] is TypeMatcher {
            r matches Some(QueryValue::InstMatcher(v)) && v.matcher matches
                InstMatcher::InstType(m) && m.matcher == vals[0]->TypeMatcher_0.matcher
        } else {
            r is None
        },
        OtherBuiltin::AnyInst => r matches Some(QueryValue::InstMatcher(v)) && v.matcher is Any,
        OtherBuiltin::Poison => r matches Some(QueryValue::InstMatcher(v)) && v.matcher is Poison,
        OtherBuiltin::Label => r matches Some(QueryValue::InstMatcher(v)) && v.matcher matches
            InstMatcher::Label(m) && if vals.len() >= 1 && vals[0] is Text {
            m.name matches Some(nm) && nm@ == vals[0]->Text_0@
        } else {
            m.name is None
        },
        OtherBuiltin::Argument => if vals.len() == 2 && !(vals[1] is TypeMatcher) {
            r is None
        } else {
            r matches Some(QueryValue::InstMatcher(v)) && v.matcher matches
                InstMatcher::Argument(m) && (if vals.len() >= 1 && vals[0] is Text {
                m.name matches Some(nm) && nm@ == vals[0]->Text_0@
            } else {
                m.name is None
            }) && (if vals.len() == 2 {
                m.type_matcher matches Some(tm) && tm == vals[1]->TypeMatcher_0.matcher
            } else {
                m.type_matcher is None
            })
        },
        OtherBuiltin::Return => {
            let inner = if vals.len() == 0 {
                Some(InstMatcher::Any(AnyInstMatcher))
            } else {
                match vals[0] {
                    QueryValue::InstMatcher(v) => Some(v.matcher),
                    _ => None,
                }
            };
            match inner {
                Some(inner) => r matches Some(QueryValue::InstMatcher(v)) && v.matcher matches
                    InstMatcher::Return(m) && *m.matcher == inner,
                None => r is None,
            }
        },
        OtherBuiltin::Unreachable => r matches Some(QueryValue::InstMatcher(v))
            && v.matcher is Unreachable,
        OtherBuiltin::OperandsNumber => if vals.len() >= 1 && vals[0] is Int {
            r matches Some(QueryValue::InstMatcher(v)) && v.matcher matches
                InstMatcher::OperandCount(m) && m.count == vals[0]->Int_0 as i32
        } else {
            r is None
        },
    }
}

/// Build a structural matcher value, or evaluate the terminal predicate,
/// from a checked argument list.
pub fn build_other_builtin(kind: OtherBuiltin, values: Vec<QueryValue>) -> (r: Option<QueryValue>)
    ensures
        other_builtin_result(kind, values@, r),
{
    let mut values = values;
    match kind {
        OtherBuiltin::Inst => {
            if values.len() < 2 {
                return None;
            }
            let first = values.remove(0);
            let second = values.remove(0);
            match (first, second) {
                (QueryValue::Inst(node), QueryValue::InstMatcher(v)) => Some(
                    QueryValue::Bool(v.is_match(&node)),
                ),
                _ => None,
            }
        },
        OtherBuiltin::ExtractValue => {
            let inner = if values.len() == 0 {
                InstMatcher::Any(AnyInstMatcher)
            } else {
                let first = values.remove(0);
                match first {
                    QueryValue::InstMatcher(v) => v.matcher,
                    _ => { return None; },
                }
            };
            if values.len() >= 1 {
                let second = values.remove(0);
                match second {
                    QueryValue::IntList(ix) => Some(
                        QueryValue::InstMatcher(
                            InstMatcherValue {
                                matcher: InstMatcher::ExtractValue(
                                    ExtractValueInstMatcher {
                                        matcher: Box::new(inner),
                                        indices: Some(ix),
                                    },
                                ),
                            },
                        ),
                    ),
                    _ => None,
                }
            } else {
                Some(
                    QueryValue::InstMatcher(
                        InstMatcherValue {
                            matcher: InstMatcher::ExtractValue(
                                ExtractValueInstMatcher { matcher: Box::new(inner), indices: None },
                            ),
                        },
                    ),
                )
            }
        },
        OtherBuiltin::InstType => {
            if values.len() == 0 {
                return None;
            }
            let first = values.remove(0);
            match first {
                QueryValue::TypeMatcher(tm) => Some(
                    QueryValue::InstMatcher(
                        InstMatcherValue {
                            matcher: InstMatcher::InstType(InstTypeMatcher { matcher: tm.matcher }),
                        },
                    ),
                ),
                _ => None,
            }
        },
        OtherBuiltin::AnyInst => Some(
            QueryValue::InstMatcher(
                InstMatcherValue { matcher: InstMatcher::Any(AnyInstMatcher) },
            ),
        ),
        OtherBuiltin::Poison => Some(
            QueryValue::InstMatcher(
                InstMatcherValue { matcher: InstMatcher::Poison(PoisonValueMatcher) },
            ),
        ),
        OtherBuiltin::Label => {
            let name: Option<String> = if values.len() == 0 {
                None
            } else {
                let first = values.remove(0);
                match first {
                    QueryValue::Text(s) => Some(s),
                    _ => None,
                }
            };
            Some(
                QueryValue::InstMatcher(
                    InstMatcherValue { matcher: InstMatcher::Label(LabelInstMatcher { name }) },
                ),
            )
        },
        OtherBuiltin::Argument => {
            let two_args = values.len() == 2;
            let name: Option<String> = if values.len() == 0 {
                None
            } else {
                let first = values.remove(0);
                match first {
                    QueryValue::Text(s) => Some(s),
                    _ => None,
                }
            };
            let type_matcher = if two_args {
                let second = values.remove(0);
                match second {
                    QueryValue::TypeMatcher(tm) => Some(tm.matcher),
                    _ => { return None; },
                }
            } else {
                None
            };
            Some(
                QueryValue::InstMatcher(
                    InstMatcherValue {
                        matcher: InstMatcher::Argument(ArgumentMatcher { name, type_matcher }),
                    },
                ),
            )
        },
        OtherBuiltin::Return => {
            let inner = if values.len() == 0 {
                InstMatcher::Any(AnyInstMatcher)
            } else {
                let first = values.remove(0);
                match first {
                    QueryValue::InstMatcher(v) => v.matcher,
                    _ => { return None; },
                }
            };
            Some(
                QueryValue::InstMatcher(
                    InstMatcherValue {
                        matcher: InstMatcher::Return(
                            ReturnInstMatcher { matcher: Box::new(inner) },
                        ),
                    },
                ),
            )
        },
        OtherBuiltin::Unreachable => Some(
            QueryValue::InstMatcher(
                InstMatcherValue { matcher: InstMatcher::Unreachable(UnreachableInstMatcher) },
            ),
        ),
        OtherBuiltin::OperandsNumber => {
            if values.len() == 0 {
                return None;
            }
            let first = values.remove(0);
            match first {
                QueryValue::Int(v) => {
                    let count: i32 = #[verifier::truncate] (v as i32);
                    Some(
                        QueryValue::InstMatcher(
                            InstMatcherValue {
                                matcher: InstMatcher::OperandCount(
                                    OperandCountMatcher::has_n_operands(count),
                                ),
                            },
                        ),
                    )
                },
                _ => None,
            }
        },
    }
}

/// Whether the published table holds this family's rows, starting at `base`: the structural builtins.
pub open spec fn other_signature_entries_at(m: Seq<(String, Signature)>, base: int) -> bool {
    &&& entry_is(m, base + 0, "m_inst"@, seq![ParamType::Plain(ScalarType::Inst), ParamType::Plain(ScalarType::InstMatcher)], ScalarType::Bool)
    &&& entry_is(m, base + 1, "m_extract_value"@, seq![ParamType::Optional(ScalarType::InstMatcher), ParamType::Varargs(ScalarType::Int)], ScalarType::InstMatcher)
    &&& entry_is(m, base + 2, "m_inst_type"@, seq![ParamType::Plain(ScalarType::TypeMatcher)], ScalarType::InstMatcher)
    &&& entry_is(m, base + 3, "m_any_inst"@, Seq::<ParamType>::empty(), ScalarType::InstMatcher)
    &&& entry_is(m, base + 4, "m_poison"@, Seq::<ParamType>::empty(), ScalarType::InstMatcher)
    &&& entry_is(m, base + 5, "m_label"@, seq![ParamType::Optional(ScalarType::Text)], ScalarType::InstMatcher)
    &&& entry_is(m, base + 6, "m_return"@, seq![ParamType::Optional(ScalarType::InstMatcher)], ScalarType::InstMatcher)
    &&& entry_is(m, base + 7, "m_argument"@, seq![ParamType::Optional(ScalarType::Text), ParamType::Optional(ScalarType::TypeMatcher)], ScalarType::InstMatcher)
    &&& entry_is(m, base + 8, "m_unreachable"@, Seq::<ParamType>::empty(), ScalarType::InstMatcher)
    &&& entry_is(m, base + 9, "m_operands_number"@, seq![ParamType::Plain(ScalarType::Int)], ScalarType::InstMatcher)
}

/// Publish this family's signatures.
pub fn register_other_inst_matchers_function_signatures(map: &mut Vec<(String, Signature)>)
    ensures
        final(map)@.len() == old(map)@.len() + 10,
        forall|i: int| 0 <= i < old(map)@.len() ==> final(map)@[i] == old(map)@[i],
        other_signature_entries_at(final(map)@, old(map)@.len() as int),
{
    map.push(("m_inst".to_owned(), sig2(ParamType::Plain(ScalarType::Inst), ParamType::Plain(ScalarType::InstMatcher), ScalarType::Bool)));
    map.push(("m_extract_value".to_owned(), sig2(ParamType::Optional(ScalarType::InstMatcher), ParamType::Varargs(ScalarType::Int), ScalarType::InstMatcher)));
    map.push(("m_inst_type".to_owned(), sig1(ParamType::Plain(ScalarType::TypeMatcher), ScalarType::InstMatcher)));
    map.push(("m_any_inst".to_owned(), matcher_signature_without_parameters()));
    map.push(("m_poison".to_owned(), matcher_signature_without_parameters()));
    map.push(("m_label".to_owned(), sig1(ParamType::Optional(ScalarType::Text), ScalarType::InstMatcher)));
    map.push(("m_return".to_owned(), sig1(ParamType::Optional(ScalarType::InstMatcher), ScalarType::InstMatcher)));
    map.push(("m_argument".to_owned(), sig2(ParamType::Optional(ScalarType::Text), ParamType::Optional(ScalarType::TypeMatcher), ScalarType::InstMatcher)));
    map.push(("m_unreachable".to_owned(), matcher_signature_without_parameters()));
    map.push(("m_operands_number".to_owned(), sig1(ParamType::Plain(ScalarType::Int), ScalarType::InstMatcher)));
}

} // verus!
