//! The constant matcher builtins.

use vstd::prelude::*;

use crate::functions::entry_is;
use crate::functions::name_is;
use crate::functions::matcher_signature_without_parameters;
use crate::functions::sig1;
use crate::functions::sig2;
use crate::functions::ParamType;
use crate::functions::ScalarType;
use crate::functions::Signature;
use crate::ir::values::InstMatcherValue;
use crate::ir::values::QueryValue;
use crate::matchers::constants::ConstFloatMatcher;
use crate::matchers::constants::ConstIntMatcher;
use crate::matchers::constants::ConstIntMatcherCondition;
use crate::matchers::constants::ConstNumberMatcher;
use crate::matchers::constants::ConstPointerNullMatcher;
use crate::matchers::InstMatcher;

verus! {

/// Which constant builtin a name picks.
#[derive(Clone, Copy, PartialEq, Eq, Structural, Debug)]
pub enum ConstantBuiltin {
    Num,
    Int,
    Zero,
    One,
    PowerOfTwo,
    SpecificInt,
    RangeInt,
    Fp,
    Null,
}

/// The builtin a name of this family stands for.
pub open spec fn spec_constant_builtin(name: Seq<char>) -> Option<ConstantBuiltin> {
    if name == "m_const_num"@ {
        Some(ConstantBuiltin::Num)
    } else if name == "m_const_int"@ {
        Some(ConstantBuiltin::Int)
    } else if name == "m_zero"@ {
        Some(ConstantBuiltin::Zero)
    } else if name == "m_one"@ {
        Some(ConstantBuiltin::One)
    } else if name == "m_power2"@ {
        Some(ConstantBuiltin::PowerOfTwo)
    } else if name == "m_specific_int"@ {
        Some(ConstantBuiltin::SpecificInt)
    } else if name == "m_range_int"@ {
        Some(ConstantBuiltin::RangeInt)
    } else if name == "m_const_fp"@ {
        Some(ConstantBuiltin::Fp)
    } else if name == "m_const_null"@ {
        Some(ConstantBuiltin::Null)
    } else {
        None
    }
}

/// Look a name of this family up.
pub fn constant_builtin(name: &String) -> (r: Option<ConstantBuiltin>)
    ensures
        r == spec_constant_builtin(name@),
{
    if name_is(name, "m_const_num") {
        Some(ConstantBuiltin::Num)
    } else if name_is(name, "m_const_int") {
        Some(ConstantBuiltin::Int)
    } else if name_is(name, "m_zero") {
        Some(ConstantBuiltin::Zero)
    } else if name_is(name, "m_one") {
        Some(ConstantBuiltin::One)
    } else if name_is(name, "m_power2") {
        Some(ConstantBuiltin::PowerOfTwo)
    } else if name_is(name, "m_specific_int") {
        Some(ConstantBuiltin::SpecificInt)
    } else if name_is(name, "m_range_int") {
        Some(ConstantBuiltin::RangeInt)
    } else if name_is(name, "m_const_fp") {
        Some(ConstantBuiltin::Fp)
    } else if name_is(name, "m_const_null") {
        Some(ConstantBuiltin::Null)
    } else {
        None
    }
}

/// Whether `r` is an integer-constant matcher under exactly this condition.
pub open spec fn const_int_result_is(
    r: Option<QueryValue>,
    condition: Option<ConstIntMatcherCondition>,
) -> bool {
    r matches Some(QueryValue::InstMatcher(v)) && v.matcher matches InstMatcher::ConstInt(c)
        && c.condition == condition
}

/// What a construction call of this family returns.
pub open spec fn constant_matcher_result(
    kind: ConstantBuiltin,
    vals: Seq<QueryValue>,
    r: Option<QueryValue>,
) -> bool {
    match kind {
        ConstantBuiltin::Num => r matches Some(QueryValue::InstMatcher(v))
            && v.matcher is ConstNumber,
        ConstantBuiltin::Int => const_int_result_is(r, None),
        ConstantBuiltin::Zero => const_int_result_is(
            r,
            Some(ConstIntMatcherCondition::Specific(0)),
        ),
        ConstantBuiltin::One => const_int_result_is(r, Some(ConstIntMatcherCondition::Specific(1))),
        ConstantBuiltin::PowerOfTwo => const_int_result_is(
            r,
            Some(ConstIntMatcherCondition::PowerOfTwo),
        ),
        ConstantBuiltin::SpecificInt => if vals.len() >= 1 && vals[0] is Int {
            const_int_result_is(r, Some(ConstIntMatcherCondition::Specific(vals[0]->Int_0)))
        } else {
            r is None
        },
        ConstantBuiltin::RangeInt => if vals.len() >= 2 && vals[0] is Int && vals[1] is Int {
            const_int_result_is(
                r,
                Some(ConstIntMatcherCondition::InRange(vals[0]->Int_0, vals[1]->Int_0)),
            )
        } else {
            r is None
        },
        ConstantBuiltin::Fp => r matches Some(QueryValue::InstMatcher(v))
            && v.matcher is ConstFloat,
        ConstantBuiltin::Null => r matches Some(QueryValue::InstMatcher(v))
            && v.matcher is ConstPointerNull,
    }
}

/// Build a constant matcher value from a checked argument list.
pub fn build_constant_matcher(kind: ConstantBuiltin, values: Vec<QueryValue>) -> (r: Option<
    QueryValue>)
    ensures
        constant_matcher_result(kind, values@, r),
{
    let mut values = values;
    match kind {
        ConstantBuiltin::Num => Some(
            QueryValue::InstMatcher(
                InstMatcherValue { matcher: InstMatcher::ConstNumber(ConstNumberMatcher) },
            ),
        ),
        ConstantBuiltin::Int => Some(
            QueryValue::InstMatcher(
                InstMatcherValue {
                    matcher: InstMatcher::ConstInt(ConstIntMatcher::create_const_int()),
                },
            ),
        ),
        ConstantBuiltin::Zero => Some(
            QueryValue::InstMatcher(
                InstMatcherValue { matcher: InstMatcher::ConstInt(ConstIntMatcher::create_zero()) },
            ),
        ),
        ConstantBuiltin::One => Some(
            QueryValue::InstMatcher(
                InstMatcherValue { matcher: InstMatcher::ConstInt(ConstIntMatcher::create_one()) },
            ),
        ),
        ConstantBuiltin::PowerOfTwo => Some(
            QueryValue::InstMatcher(
                InstMatcherValue {
                    matcher: InstMatcher::ConstInt(ConstIntMatcher::create_power_of_two()),
                },
            ),
        ),
        ConstantBuiltin::SpecificInt => {
            if values.len() == 0 {
                return None;
            }
            let first = values.remove(0);
            match first {
                QueryValue::Int(v) => Some(
                    QueryValue::InstMatcher(
                        InstMatcherValue {
                            matcher: InstMatcher::ConstInt(ConstIntMatcher::create_specific_int(v)),
                        },
                    ),
                ),
                _ => None,
            }
        },
        ConstantBuiltin::RangeInt => {
            if values.len() < 2 {
                return None;
            }
            let first = values.remove(0);
            let second = values.remove(0);
            match (first, second) {
                (QueryValue::Int(start), QueryValue::Int(end)) => Some(
                    QueryValue::InstMatcher(
                        InstMatcherValue {
                            matcher: InstMatcher::ConstInt(
                                ConstIntMatcher::create_range_int(start, end),
                            ),
                        },
                    ),
                ),
                _ => None,
            }
        },
        ConstantBuiltin::Fp => Some(
            QueryValue::InstMatcher(
                InstMatcherValue { matcher: InstMatcher::ConstFloat(ConstFloatMatcher) },
            ),
        ),
        ConstantBuiltin::Null => Some(
            QueryValue::InstMatcher(
                InstMatcherValue {
                    matcher: InstMatcher::ConstPointerNull(ConstPointerNullMatcher),
                },
            ),
        ),
    }
}

/// Whether the published table holds this family's rows, starting at `base`: the constant builtins.
pub open spec fn constants_signature_entries_at(m: Seq<(String, Signature)>, base: int) -> bool {
    &&& entry_is(m, base + 0, "m_const_num"@, Seq::<ParamType>::empty(), ScalarType::InstMatcher)
    &&& entry_is(m, base + 1, "m_const_int"@, Seq::<ParamType>::empty(), ScalarType::InstMatcher)
    &&& entry_is(m, base + 2, "m_zero"@, Seq::<ParamType>::empty(), ScalarType::InstMatcher)
    &&& entry_is(m, base + 3, "m_one"@, Seq::<ParamType>::empty(), ScalarType::InstMatcher)
    &&& entry_is(m, base + 4, "m_power2"@, Seq::<ParamType>::empty(), ScalarType::InstMatcher)
    &&& entry_is(m, base + 5, "m_specific_int"@, seq![ParamType::Plain(ScalarType::Int)], ScalarType::InstMatcher)
    &&& entry_is(m, base + 6, "m_range_int"@, seq![ParamType::Plain(ScalarType::Int), ParamType::Plain(ScalarType::Int)], ScalarType::InstMatcher)
    &&& entry_is(m, base + 7, "m_const_fp"@, Seq::<ParamType>::empty(), ScalarType::InstMatcher)
    &&& entry_is(m, base + 8, "m_const_null"@, Seq::<ParamType>::empty(), ScalarType::InstMatcher)
}

/// Publish this family's signatures.
pub fn register_constants_matchers_function_signatures(map: &mut Vec<(String, Signature)>)
    ensures
        final(map)@.len() == old(map)@.len() + 9,
        forall|i: int| 0 <= i < old(map)@.len() ==> final(map)@[i] == old(map)@[i],
        constants_signature_entries_at(final(map)@, old(map)@.len() as int),
{
    map.push(("m_const_num".to_owned(), matcher_signature_without_parameters()));
    map.push(("m_const_int".to_owned(), matcher_signature_without_parameters()));
    map.push(("m_zero".to_owned(), matcher_signature_without_parameters()));
    map.push(("m_one".to_owned(), matcher_signature_without_parameters()));
    map.push(("m_power2".to_owned(), matcher_signature_without_parameters()));
    map.push(("m_specific_int".to_owned(), sig1(ParamType::Plain(ScalarType::Int), ScalarType::InstMatcher)));
    map.push(("m_range_int".to_owned(), sig2(ParamType::Plain(ScalarType::Int), ParamType::Plain(ScalarType::Int), ScalarType::InstMatcher)));
    map.push(("m_const_fp".to_owned(), matcher_signature_without_parameters()));
    map.push(("m_const_null".to_owned(), matcher_signature_without_parameters()));
}

} // verus!
