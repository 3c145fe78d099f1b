//! The builtin function registry: the name-to-signature table published to
//! the host query language's type checker, and the constructors that build
//! matcher values from checked argument lists.
//!
//! Construction functions are pure and never touch a live IR node; only the
//! terminal predicate evaluator is ever handed one.

pub mod arithmetic;
pub mod binary;
pub mod call;
pub mod cast;
pub mod combine;
pub mod compound;
pub mod constants;
pub mod debug;
pub mod exception;
pub mod get_element_ptr;
pub mod icmp;
pub mod fcmp;
pub mod operand_bundle;
pub mod other;
pub mod shifts;
pub mod type_matcher;
pub mod usage;

use vstd::prelude::*;

use crate::ir::values::QueryValue;
use crate::matchers::other::AnyInstMatcher;
use crate::matchers::InstMatcher;

verus! {

/// The closed vocabulary of value kinds a builtin signature can name.
#[derive(Clone, Copy, PartialEq, Eq, Structural, Debug)]
pub enum ScalarType {
    Bool,
    Int,
    Text,
    Inst,
    InstMatcher,
    TypeMatcher,
}

/// One parameter of a builtin signature: required, optional, or variadic.
#[derive(Clone, Copy, PartialEq, Eq, Structural, Debug)]
pub enum ParamType {
    Plain(ScalarType),
    Optional(ScalarType),
    Varargs(ScalarType),
}

/// The published signature of one builtin function.
pub struct Signature {
    pub parameters: Vec<ParamType>,
    pub return_type: ScalarType,
}

/// Whether a signature has exactly these parameters and return type.
pub open spec fn sig_is(s: Signature, params: Seq<ParamType>, ret: ScalarType) -> bool {
    s.parameters@ == params && s.return_type == ret
}

/// Whether row `j` of the published table is the builtin `name` with these
/// parameters and this return type.
pub open spec fn entry_is(
    m: Seq<(String, Signature)>,
    j: int,
    name: Seq<char>,
    params: Seq<ParamType>,
    ret: ScalarType,
) -> bool {
    0 <= j < m.len() && m[j].0@ == name && sig_is(m[j].1, params, ret)
}

/// Whether the name's view equals the target literal's view.
pub fn name_is(name: &String, target: &str) -> (r: bool)
    ensures
        r == (name@ == target@),
{
    let t: String = target.to_owned();
    *name == t
}

/// The parameter list shared by every binary matcher builtin: two optional
/// matcher arguments, missing ones defaulting to the any-node matcher.
pub open spec fn binary_matcher_params() -> Seq<ParamType> {
    seq![
        ParamType::Optional(ScalarType::InstMatcher),
        ParamType::Optional(ScalarType::InstMatcher),
    ]
}

/// The signature shared by every binary matcher builtin.
pub fn binary_matcher_signature() -> (r: Signature)
    ensures
        sig_is(r, binary_matcher_params(), ScalarType::InstMatcher),
{
    let mut parameters: Vec<ParamType> = Vec::new();
    parameters.push(ParamType::Optional(ScalarType::InstMatcher));
    parameters.push(ParamType::Optional(ScalarType::InstMatcher));
    let r = Signature { parameters, return_type: ScalarType::InstMatcher };
    proof {
        assert(r.parameters@ =~= binary_matcher_params());
    }
    r
}

/// The signature of a matcher builtin that takes no arguments.
pub fn matcher_signature_without_parameters() -> (r: Signature)
    ensures
        sig_is(r, Seq::<ParamType>::empty(), ScalarType::InstMatcher),
{
    let r = Signature { parameters: Vec::new(), return_type: ScalarType::InstMatcher };
    proof {
        assert(r.parameters@ =~= Seq::<ParamType>::empty());
    }
    r
}

/// A signature without parameters.
pub fn sig0(ret: ScalarType) -> (r: Signature)
    ensures
        sig_is(r, Seq::<ParamType>::empty(), ret),
{
    let r = Signature { parameters: Vec::new(), return_type: ret };
    proof {
        assert(r.parameters@ =~= Seq::<ParamType>::empty());
    }
    r
}

/// A signature of one parameter.
pub fn sig1(a: ParamType, ret: ScalarType) -> (r: Signature)
    ensures
        sig_is(r, seq![a], ret),
{
    let mut parameters: Vec<ParamType> = Vec::new();
    parameters.push(a);
    let r = Signature { parameters, return_type: ret };
    proof {
        assert(r.parameters@ =~= seq![a]);
    }
    r
}

/// A signature of two parameters.
pub fn sig2(a: ParamType, b: ParamType, ret: ScalarType) -> (r: Signature)
    ensures
        sig_is(r, seq![a, b], ret),
{
    let mut parameters: Vec<ParamType> = Vec::new();
    parameters.push(a);
    parameters.push(b);
    let r = Signature { parameters, return_type: ret };
    proof {
        assert(r.parameters@ =~= seq![a, b]);
    }
    r
}

/// The two sides a binary matcher builtin was called with: a missing side is
/// the any-node matcher, and a side of the wrong kind is a construction-time
/// type error, answered with nothing.
pub open spec fn spec_sides(vals: Seq<QueryValue>) -> Option<(InstMatcher, InstMatcher)> {
    let lhs = if vals.len() > 0 {
        match vals[0] {
            QueryValue::InstMatcher(v) => Some(v.matcher),
            _ => None,
        }
    } else {
        Some(InstMatcher::Any(AnyInstMatcher))
    };
    let rhs = if vals.len() > 1 {
        match vals[1] {
            QueryValue::InstMatcher(v) => Some(v.matcher),
            _ => None,
        }
    } else {
        Some(InstMatcher::Any(AnyInstMatcher))
    };
    match (lhs, rhs) {
        (Some(l), Some(r)) => Some((l, r)),
        _ => None,
    }
}

/// Take the two sides out of a binary matcher builtin's argument list.
pub fn binary_matchers_sides(values: Vec<QueryValue>) -> (r: Option<(InstMatcher, InstMatcher)>)
    ensures
        r == spec_sides(values@),
{
    let mut values = values;
    if values.len() == 0 {
        return Some((InstMatcher::Any(AnyInstMatcher), InstMatcher::Any(AnyInstMatcher)));
    }
    if values.len() == 1 {
        let first = values.remove(0);
        match first {
            QueryValue::InstMatcher(v) => Some(
                (v.matcher, InstMatcher::Any(AnyInstMatcher)),
            ),
            _ => None,
        }
    } else {
        let first = values.remove(0);
        let second = values.remove(0);
        match (first, second) {
            (QueryValue::InstMatcher(l), QueryValue::InstMatcher(r)) => Some(
                (l.matcher, r.matcher),
            ),
            _ => None,
        }
    }
}

/// The single optional matcher argument of a cast-style builtin: missing
/// means the any-node matcher, the wrong kind means nothing.
pub open spec fn spec_single_optional_matcher(vals: Seq<QueryValue>) -> Option<InstMatcher> {
    if vals.len() > 0 {
        match vals[0] {
            QueryValue::InstMatcher(v) => Some(v.matcher),
            _ => None,
        }
    } else {
        Some(InstMatcher::Any(AnyInstMatcher))
    }
}

/// Take the single optional matcher argument out of an argument list.
pub fn single_optional_matcher_value(values: Vec<QueryValue>) -> (r: Option<InstMatcher>)
    ensures
        r == spec_single_optional_matcher(values@),
{
    let mut values = values;
    if values.len() == 0 {
        return Some(InstMatcher::Any(AnyInstMatcher));
    }
    let first = values.remove(0);
    match first {
        QueryValue::InstMatcher(v) => Some(v.matcher),
        _ => None,
    }
}


/// The complete published table: every builtin's name and signature, one
/// family after another.
pub fn llvm_ir_function_signatures() -> (r: Vec<(String, Signature)>)
    ensures
        r@.len() == 148,
        type_matcher::type_matcher_signature_entries_at(r@, 0),
        arithmetic::arithmetic_signature_entries_at(r@, 12),
        icmp::icmp_signature_entries_at(r@, 32),
        fcmp::fcmp_signature_entries_at(r@, 52),
        usage::usage_signature_entries_at(r@, 80),
        constants::constants_signature_entries_at(r@, 83),
        other::other_signature_entries_at(r@, 92),
        shifts::shift_signature_entries_at(r@, 102),
        binary::binary_signature_entries_at(r@, 108),
        exception::exception_signature_entries_at(r@, 118),
        combine::combine_signature_entries_at(r@, 120),
        call::call_signature_entries_at(r@, 127),
        cast::cast_signature_entries_at(r@, 129),
        debug::debug_signature_entries_at(r@, 142),
        compound::compound_signature_entries_at(r@, 144),
        get_element_ptr::get_element_ptr_signature_entries_at(r@, 146),
        operand_bundle::operand_bundle_signature_entries_at(r@, 147),
{
    let mut map: Vec<(String, Signature)> = Vec::new();
    type_matcher::register_type_matchers_function_signatures(&mut map);
    arithmetic::register_arithmetic_matchers_function_signatures(&mut map);
    icmp::register_int_comparisons_matchers_function_signatures(&mut map);
    fcmp::register_float_comparisons_matchers_function_signatures(&mut map);
    usage::register_usage_matchers_function_signatures(&mut map);
    constants::register_constants_matchers_function_signatures(&mut map);
    other::register_other_inst_matchers_function_signatures(&mut map);
    shifts::register_shift_matchers_function_signatures(&mut map);
    binary::register_binary_inst_matchers_function_signatures(&mut map);
    exception::register_exception_inst_matchers_function_signatures(&mut map);
    combine::register_combine_matchers_function_signatures(&mut map);
    call::register_call_inst_matchers_function_signatures(&mut map);
    cast::register_cast_matchers_function_signatures(&mut map);
    debug::register_debug_inst_matchers_function_signatures(&mut map);
    compound::register_compound_matchers_function_signatures(&mut map);
    get_element_ptr::register_get_element_ptr_inst_matchers_function_signatures(&mut map);
    operand_bundle::register_operand_bundle_inst_matchers_function_signatures(&mut map);
    map
}

/// What a call of a builtin by name returns, for every name and argument
/// list: the semantic table of the registry.  An unknown name returns
/// nothing; a known name returns what its family's construction (or, for the
/// terminal predicate, evaluation) rule prescribes.
pub open spec fn spec_builtin_call(
    name: Seq<char>,
    vals: Seq<QueryValue>,
    r: Option<QueryValue>,
) -> bool {
    match arithmetic::spec_arithmetic_builtin(name) {
        Some(t) => arithmetic::arithmetic_matcher_result(t.0, t.1, vals, r),
        None => match binary::spec_binary_builtin(name) {
            Some(t) => binary::binary_matcher_result(t.0, t.1, vals, r),
            None => match shifts::spec_shift_builtin(name) {
                Some(t) => binary::binary_matcher_result(t.0, t.1, vals, r),
                None => match icmp::spec_icmp_builtin(name) {
                    Some(t) => icmp::icmp_matcher_result(t.0, t.1, vals, r),
                    None => match fcmp::spec_fcmp_builtin(name) {
                        Some(t) => fcmp::fcmp_matcher_result(t.0, t.1, vals, r),
                        None => match cast::spec_cast_builtin(name) {
                            Some(k) => cast::cast_matcher_result(k, vals, r),
                            None => match usage::spec_usage_builtin(name) {
                                Some(k) => usage::usage_matcher_result(k, vals, r),
                                None => match constants::spec_constant_builtin(name) {
                                    Some(k) => constants::constant_matcher_result(k, vals, r),
                                    None => match combine::spec_combine_builtin(name) {
                                        Some(k) => combine::combine_matcher_result(k, vals, r),
                                        None => match compound::spec_compound_builtin(name) {
                                            Some(k) => compound::compound_matcher_result(
                                                k,
                                                vals,
                                                r,
                                            ),
                                            None => match call::spec_call_builtin(name) {
                                                Some(k) => call::call_matcher_result(k, vals, r),
                                                None => match exception::spec_exception_builtin(
                                                    name,
                                                ) {
                                                    Some(k) => exception::exception_matcher_result(
                                                        k,
                                                        r,
                                                    ),
                                                    None => match debug::spec_debug_builtin(name) {
                                                        Some(k) => debug::debug_matcher_result(
                                                            k,
                                                            vals,
                                                            r,
                                                        ),
                                                        None => if get_element_ptr::spec_is_get_element_ptr_builtin(
                                                            name,
                                                        ) {
                                                            get_element_ptr::get_element_ptr_matcher_result(
                                                                r,
                                                            )
                                                        } else if operand_bundle::spec_is_operand_bundle_builtin(
                                                            name,
                                                        ) {
                                                            operand_bundle::operand_bundle_matcher_result(
                                                                vals,
                                                                r,
                                                            )
                                                        } else {
                                                            match other::spec_other_builtin(name) {
                                                                Some(k) => other::other_builtin_result(
                                                                    k,
                                                                    vals,
                                                                    r,
                                                                ),
                                                                None => match type_matcher::spec_type_matcher_builtin(
                                                                    name,
                                                                ) {
                                                                    Some(k) => type_matcher::type_matcher_result(
                                                                        k,
                                                                        vals,
                                                                        r,
                                                                    ),
                                                                    None => r is None,
                                                                },
                                                            }
                                                        },
                                                    },
                                                },
                                            },
                                        },
                                    },
                                },
                            },
                        },
                    },
                },
            },
        },
    }
}

/// Call a builtin by name: look the name up across every family and hand the
/// arguments to its construction or evaluation rule.  An unknown name, like a
/// reference the external resolver failed, returns nothing.
pub fn call_builtin(name: &String, values: Vec<QueryValue>) -> (r: Option<QueryValue>)
    ensures
        spec_builtin_call(name@, values@, r),
{
    if let Some(t) = arithmetic::arithmetic_builtin_op(name) {
        let (op, comm) = t;
        return arithmetic::build_arithmetic_matcher(op, comm, values);
    }
    if let Some(t) = binary::binary_builtin_op(name) {
        let (op, comm) = t;
        return binary::build_binary_matcher(op, comm, values);
    }
    if let Some(t) = shifts::shift_builtin_op(name) {
        let (op, comm) = t;
        return binary::build_binary_matcher(op, comm, values);
    }
    if let Some(t) = icmp::icmp_builtin_pred(name) {
        let (pred, comm) = t;
        return icmp::build_icmp_matcher(pred, comm, values);
    }
    if let Some(t) = fcmp::fcmp_builtin_pred(name) {
        let (pred, comm) = t;
        return fcmp::build_fcmp_matcher(pred, comm, values);
    }
    if let Some(kind) = cast::cast_builtin_kind(name) {
        return cast::build_cast_matcher(kind, values);
    }
    if let Some(kind) = usage::usage_builtin(name) {
        return usage::build_usage_matcher(kind, values);
    }
    if let Some(kind) = constants::constant_builtin(name) {
        return constants::build_constant_matcher(kind, values);
    }
    if let Some(kind) = combine::combine_builtin(name) {
        return combine::build_combine_matcher(kind, values);
    }
    if let Some(kind) = compound::compound_builtin(name) {
        return compound::build_compound_matcher(kind, values);
    }
    if let Some(kind) = call::call_builtin_kind(name) {
        return call::build_call_matcher(kind, values);
    }
    if let Some(kind) = exception::exception_builtin(name) {
        return exception::build_exception_matcher(kind);
    }
    if let Some(kind) = debug::debug_builtin(name) {
        return debug::build_debug_matcher(kind, values);
    }
    if get_element_ptr::is_get_element_ptr_builtin(name) {
        return get_element_ptr::build_get_element_ptr_matcher();
    }
    if operand_bundle::is_operand_bundle_builtin(name) {
        return operand_bundle::build_operand_bundle_matcher(values);
    }
    if let Some(kind) = other::other_builtin(name) {
        return other::build_other_builtin(kind, values);
    }
    if let Some(kind) = type_matcher::type_matcher_builtin(name) {
        return type_matcher::build_type_matcher(kind, values);
    }
    None
}

} // verus!
