//! The type matcher builtins.

use vstd::prelude::*;

use crate::functions::entry_is;
use crate::functions::name_is;
use crate::functions::sig0;
use crate::functions::sig2;
use crate::functions::ParamType;
use crate::functions::ScalarType;
use crate::functions::Signature;
use crate::ir::values::QueryValue;
use crate::ir::values::TypeMatcherValue;
use crate::matchers::types::ArrayTypeMatcher;
use crate::matchers::types::FloatTypeMatcher;
use crate::matchers::types::FloatTypeSize;
use crate::matchers::types::IntTypeMatcher;
use crate::matchers::types::IntTypeSize;
use crate::matchers::types::PointerTypeMatcher;
use crate::matchers::types::ScalableVectorTypeMatcher;
use crate::matchers::types::TypeMatcher;
use crate::matchers::types::VectorTypeMatcher;
use crate::matchers::types::VoidTypeMatcher;

verus! {

/// Which type matcher builtin a name picks.
#[derive(Clone, Copy, PartialEq, Eq, Structural, Debug)]
pub enum TypeMatcherBuiltin {
    Void,
    Int1,
    Int8,
    Int16,
    Int32,
    Int64,
    F32,
    F64,
    Ptr,
    Array,
    Vector,
    ScalableVector,
}

/// The builtin a name of this family stands for.
pub open spec fn spec_type_matcher_builtin(name: Seq<char>) -> Option<TypeMatcherBuiltin> {
    if name == "m_void"@ {
        Some(TypeMatcherBuiltin::Void)
    } else if name == "m_int1"@ {
        Some(TypeMatcherBuiltin::Int1)
    } else if name == "m_int8"@ {
        Some(TypeMatcherBuiltin::Int8)
    } else if name == "m_int16"@ {
        Some(TypeMatcherBuiltin::Int16)
    } else if name == "m_int32"@ {
        Some(TypeMatcherBuiltin::Int32)
    } else if name == "m_int64"@ {
        Some(TypeMatcherBuiltin::Int64)
    } else if name == "m_f32"@ {
        Some(TypeMatcherBuiltin::F32)
    } else if name == "m_f64"@ {
        Some(TypeMatcherBuiltin::F64)
    } else if name == "m_ptr"@ {
        Some(TypeMatcherBuiltin::Ptr)
    } else if name == "m_array"@ {
        Some(TypeMatcherBuiltin::Array)
    } else if name == "m_vector"@ {
        Some(TypeMatcherBuiltin::Vector)
    } else if name == "m_scalable_vector"@ {
        Some(TypeMatcherBuiltin::ScalableVector)
    } else {
        None
    }
}

/// Look a name of this family up.
pub fn type_matcher_builtin(name: &String) -> (r: Option<TypeMatcherBuiltin>)
    ensures
        r == spec_type_matcher_builtin(name@),
{
    if name_is(name, "m_void") {
        Some(TypeMatcherBuiltin::Void)
    } else if name_is(name, "m_int1") {
        Some(TypeMatcherBuiltin::Int1)
    } else if name_is(name, "m_int8") {
        Some(TypeMatcherBuiltin::Int8)
    } else if name_is(name, "m_int16") {
        Some(TypeMatcherBuiltin::Int16)
    } else if name_is(name, "m_int32") {
        Some(TypeMatcherBuiltin::Int32)
    } else if name_is(name, "m_int64") {
        Some(TypeMatcherBuiltin::Int64)
    } else if name_is(name, "m_f32") {
        Some(TypeMatcherBuiltin::F32)
    } else if name_is(name, "m_f64") {
        Some(TypeMatcherBuiltin::F64)
    } else if name_is(name, "m_ptr") {
        Some(TypeMatcherBuiltin::Ptr)
    } else if name_is(name, "m_array") {
        Some(TypeMatcherBuiltin::Array)
    } else if name_is(name, "m_vector") {
        Some(TypeMatcherBuiltin::Vector)
    } else if name_is(name, "m_scalable_vector") {
        Some(TypeMatcherBuiltin::ScalableVector)
    } else {
        None
    }
}

/// Whether `r` is a type matcher value carrying exactly this tree.
pub open spec fn type_result_is(r: Option<QueryValue>, m: TypeMatcher) -> bool {
    r matches Some(QueryValue::TypeMatcher(v)) && v.matcher == m
}

/// The element matcher and optional length an array or vector builtin was
/// called with, or nothing on a construction-time type error.
pub open spec fn spec_element_and_length(vals: Seq<QueryValue>) -> Option<(TypeMatcher, Option<
    u32>)> {
    if vals.len() >= 1 && vals[0] is TypeMatcher {
        if vals.len() >= 2 {
            match vals[1] {
                QueryValue::Int(v) => Some((vals[0]->TypeMatcher_0.matcher, Some(v as u32))),
                _ => None,
            }
        } else {
            Some((vals[0]->TypeMatcher_0.matcher, None))
        }
    } else {
        None
    }
}

/// What a construction call of this family returns.
pub open spec fn type_matcher_result(
    kind: TypeMatcherBuiltin,
    vals: Seq<QueryValue>,
    r: Option<QueryValue>,
) -> bool {
    match kind {
        TypeMatcherBuiltin::Void => type_result_is(r, TypeMatcher::Void(VoidTypeMatcher)),
        TypeMatcherBuiltin::Int1 => type_result_is(
            r,
            TypeMatcher::Int(IntTypeMatcher { size: IntTypeSize::Size1 }),
        ),
        TypeMatcherBuiltin::Int8 => type_result_is(
            r,
            TypeMatcher::Int(IntTypeMatcher { size: IntTypeSize::Size8 }),
        ),
        TypeMatcherBuiltin::Int16 => type_result_is(
            r,
            TypeMatcher::Int(IntTypeMatcher { size: IntTypeSize::Size16 }),
        ),
        TypeMatcherBuiltin::Int32 => type_result_is(
            r,
            TypeMatcher::Int(IntTypeMatcher { size: IntTypeSize::Size32 }),
        ),
        TypeMatcherBuiltin::Int64 => type_result_is(
            r,
            TypeMatcher::Int(IntTypeMatcher { size: IntTypeSize::Size64 }),
        ),
        TypeMatcherBuiltin::F32 => type_result_is(
            r,
            TypeMatcher::Float(FloatTypeMatcher { size: FloatTypeSize::Size32 }),
        ),
        TypeMatcherBuiltin::F64 => type_result_is(
            r,
            TypeMatcher::Float(FloatTypeMatcher { size: FloatTypeSize::Size64 }),
        ),
        TypeMatcherBuiltin::Ptr => type_result_is(r, TypeMatcher::Pointer(PointerTypeMatcher)),
        TypeMatcherBuiltin::Array => match spec_element_and_length(vals) {
            Some(parts) => r matches Some(QueryValue::TypeMatcher(v)) && v.matcher matches
                TypeMatcher::Array(am) && *am.base_matcher == parts.0 && am.length == parts.1,
            None => r is None,
        },
        TypeMatcherBuiltin::Vector => match spec_element_and_length(vals) {
            Some(parts) => r matches Some(QueryValue::TypeMatcher(v)) && v.matcher matches
                TypeMatcher::Vector(vm) && *vm.base_matcher == parts.0 && vm.length == parts.1,
            None => r is None,
        },
        TypeMatcherBuiltin::ScalableVector => type_result_is(
            r,
            TypeMatcher::ScalableVector(ScalableVectorTypeMatcher),
        ),
    }
}

/// Take the element matcher and optional length out of an argument list.
fn element_and_length(values: Vec<QueryValue>) -> (r: Option<(TypeMatcher, Option<u32>)>)
    ensures
        r == spec_element_and_length(values@),
{
    let mut values = values;
    if values.len() == 0 {
        return None;
    }
    let has_length = values.len() >= 2;
    let first = values.remove(0);
    let element = match first {
        QueryValue::TypeMatcher(v) => v.matcher,
        _ => { return None; },
    };
    if has_length {
        let second = values.remove(0);
        match second {
            QueryValue::Int(v) => {
                let length: u32 = #[verifier::truncate] (v as u32);
                Some((element, Some(length)))
            },
            _ => None,
        }
    } else {
        Some((element, None))
    }
}

/// Build a type matcher value from a checked argument list.
pub fn build_type_matcher(kind: TypeMatcherBuiltin, values: Vec<QueryValue>) -> (r: Option<
    QueryValue>)
    ensures
        type_matcher_result(kind, values@, r),
{
    match kind {
        TypeMatcherBuiltin::Void => Some(
            QueryValue::TypeMatcher(TypeMatcherValue { matcher: TypeMatcher::Void(VoidTypeMatcher) }),
        ),
        TypeMatcherBuiltin::Int1 => Some(
            QueryValue::TypeMatcher(
                TypeMatcherValue {
                    matcher: TypeMatcher::Int(IntTypeMatcher { size: IntTypeSize::Size1 }),
                },
            ),
        ),
        TypeMatcherBuiltin::Int8 => Some(
            QueryValue::TypeMatcher(
                TypeMatcherValue {
                    matcher: TypeMatcher::Int(IntTypeMatcher { size: IntTypeSize::Size8 }),
                },
            ),
        ),
        TypeMatcherBuiltin::Int16 => Some(
            QueryValue::TypeMatcher(
                TypeMatcherValue {
                    matcher: TypeMatcher::Int(IntTypeMatcher { size: IntTypeSize::Size16 }),
                },
            ),
        ),
        TypeMatcherBuiltin::Int32 => Some(
            QueryValue::TypeMatcher(
                TypeMatcherValue {
                    matcher: TypeMatcher::Int(IntTypeMatcher { size: IntTypeSize::Size32 }),
                },
            ),
        ),
        TypeMatcherBuiltin::Int64 => Some(
            QueryValue::TypeMatcher(
                TypeMatcherValue {
                    matcher: TypeMatcher::Int(IntTypeMatcher { size: IntTypeSize::Size64 }),
                },
            ),
        ),
        TypeMatcherBuiltin::F32 => Some(
            QueryValue::TypeMatcher(
                TypeMatcherValue {
                    matcher: TypeMatcher::Float(FloatTypeMatcher { size: FloatTypeSize::Size32 }),
                },
            ),
        ),
        TypeMatcherBuiltin::F64 => Some(
            QueryValue::TypeMatcher(
                TypeMatcherValue {
                    matcher: TypeMatcher::Float(FloatTypeMatcher { size: FloatTypeSize::Size64 }),
                },
            ),
        ),
        TypeMatcherBuiltin::Ptr => Some(
            QueryValue::TypeMatcher(
                TypeMatcherValue { matcher: TypeMatcher::Pointer(PointerTypeMatcher) },
            ),
        ),
        TypeMatcherBuiltin::Array => match element_and_length(values) {
            Some(parts) => {
                let (element, length) = parts;
                Some(
                    QueryValue::TypeMatcher(
                        TypeMatcherValue {
                            matcher: TypeMatcher::Array(
                                ArrayTypeMatcher { base_matcher: Box::new(element), length },
                            ),
                        },
                    ),
                )
            },
            None => None,
        },
        TypeMatcherBuiltin::Vector => match element_and_length(values) {
            Some(parts) => {
                let (element, length) = parts;
                Some(
                    QueryValue::TypeMatcher(
                        TypeMatcherValue {
                            matcher: TypeMatcher::Vector(
                                VectorTypeMatcher { base_matcher: Box::new(element), length },
                            ),
                        },
                    ),
                )
            },
            None => None,
        },
        TypeMatcherBuiltin::ScalableVector => Some(
            QueryValue::TypeMatcher(
                TypeMatcherValue { matcher: TypeMatcher::ScalableVector(ScalableVectorTypeMatcher) },
            ),
        ),
    }
}

/// Whether the published table holds this family's rows, starting at `base`: the type matcher builtins.
pub open spec fn type_matcher_signature_entries_at(m: Seq<(String, Signature)>, base: int) -> bool {
    &&& entry_is(m, base + 0, "m_void"@, Seq::<ParamType>::empty(), ScalarType::TypeMatcher)
    &&& entry_is(m, base + 1, "m_int1"@, Seq::<ParamType>::empty(), ScalarType::TypeMatcher)
    &&& entry_is(m, base + 2, "m_int8"@, Seq::<ParamType>::empty(), ScalarType::TypeMatcher)
    &&& entry_is(m, base + 3, "m_int16"@, Seq::<ParamType>::empty(), ScalarType::TypeMatcher)
    &&& entry_is(m, base + 4, "m_int32"@, Seq::<ParamType>::empty(), ScalarType::TypeMatcher)
    &&& entry_is(m, base + 5, "m_int64"@, Seq::<ParamType>::empty(), ScalarType::TypeMatcher)
    &&& entry_is(m, base + 6, "m_f32"@, Seq::<ParamType>::empty(), ScalarType::TypeMatcher)
    &&& entry_is(m, base + 7, "m_f64"@, Seq::<ParamType>::empty(), ScalarType::TypeMatcher)
    &&& entry_is(m, base + 8, "m_ptr"@, Seq::<ParamType>::empty(), ScalarType::TypeMatcher)
    &&& entry_is(m, base + 9, "m_array"@, seq![ParamType::Plain(ScalarType::TypeMatcher), ParamType::Optional(ScalarType::Int)], ScalarType::TypeMatcher)
    &&& entry_is(m, base + 10, "m_vector"@, seq![ParamType::Plain(ScalarType::TypeMatcher), ParamType::Optional(ScalarType::Int)], ScalarType::TypeMatcher)
    &&& entry_is(m, base + 11, "m_scalable_vector"@, Seq::<ParamType>::empty(), ScalarType::TypeMatcher)
}

/// Publish this family's signatures.
pub fn register_type_matchers_function_signatures(map: &mut Vec<(String, Signature)>)
    ensures
        final(map)@.len() == old(map)@.len() + 12,
        forall|i: int| 0 <= i < old(map)@.len() ==> final(map)@[i] == old(map)@[i],
        type_matcher_signature_entries_at(final(map)@, old(map)@.len() as int),
{
    map.push(("m_void".to_owned(), sig0(ScalarType::TypeMatcher)));
    map.push(("m_int1".to_owned(), sig0(ScalarType::TypeMatcher)));
    map.push(("m_int8".to_owned(), sig0(ScalarType::TypeMatcher)));
    map.push(("m_int16".to_owned(), sig0(ScalarType::TypeMatcher)));
    map.push(("m_int32".to_owned(), sig0(ScalarType::TypeMatcher)));
    map.push(("m_int64".to_owned(), sig0(ScalarType::TypeMatcher)));
    map.push(("m_f32".to_owned(), sig0(ScalarType::TypeMatcher)));
    map.push(("m_f64".to_owned(), sig0(ScalarType::TypeMatcher)));
    map.push(("m_ptr".to_owned(), sig0(ScalarType::TypeMatcher)));
    map.push(("m_array".to_owned(), sig2(ParamType::Plain(ScalarType::TypeMatcher), ParamType::Optional(ScalarType::Int), ScalarType::TypeMatcher)));
    map.push(("m_vector".to_owned(), sig2(ParamType::Plain(ScalarType::TypeMatcher), ParamType::Optional(ScalarType::Int), ScalarType::TypeMatcher)));
    map.push(("m_scalable_vector".to_owned(), sig0(ScalarType::TypeMatcher)));
}

} // verus!
