//! Matchers for constant nodes: integer constants (optionally under a value
//! condition), floating constants, null pointers, constant expressions and
//! numbers of either kind.

use vstd::prelude::*;

use crate::ir::IrNode;
use crate::ir::ValueKind;
use crate::matchers::InstMatcher;

verus! {

/// Matches any constant-expression node.
pub struct ConstExprMatcher;

impl ConstExprMatcher {
    pub open spec fn spec_match(self, n: IrNode) -> bool {
        n.value_kind == ValueKind::ConstantExpr
    }

    pub fn is_match(&self, node: &IrNode) -> (r: bool)
        ensures
            r == self.spec_match(*node),
    {
        node.value_kind == ValueKind::ConstantExpr
    }
}

/// The value condition an integer-constant matcher can carry.
///
/// Two of these read oddly against their names and are kept exactly as the
/// query language documents them: `PowerOfTwo` holds when `v & (v - 1)`
/// (wrapping) is *non-zero*, and `InRange(s, e)` holds when `v >= s` *or*
/// `v <= e`.
#[derive(Clone, Copy, PartialEq, Eq, Structural, Debug)]
pub enum ConstIntMatcherCondition {
    Specific(i64),
    InRange(i64, i64),
    PowerOfTwo,
}

/// Matches an integer constant; with a condition, the sign-extended
/// sixty-four-bit value must satisfy it.
pub struct ConstIntMatcher {
    pub condition: Option<ConstIntMatcherCondition>,
}

impl ConstIntMatcher {
    pub open spec fn spec_match(self, n: IrNode) -> bool {
        &&& n.value_kind == ValueKind::ConstantInt
        &&& match self.condition {
            None => true,
            Some(ConstIntMatcherCondition::Specific(value)) => n.int_value == value,
            Some(ConstIntMatcherCondition::PowerOfTwo) => {
                let below: i64 = if n.int_value == i64::MIN {
                    i64::MAX
                } else {
                    (n.int_value - 1) as i64
                };
                (n.int_value & below) != 0
            },
            Some(ConstIntMatcherCondition::InRange(start, end)) => n.int_value >= start
                || n.int_value <= end,
        }
    }

    pub fn is_match(&self, node: &IrNode) -> (r: bool)
        ensures
            r == self.spec_match(*node),
    {
        if node.value_kind != ValueKind::ConstantInt {
            return false;
        }
        match self.condition {
            None => true,
            Some(ConstIntMatcherCondition::Specific(value)) => node.int_value == value,
            Some(ConstIntMatcherCondition::PowerOfTwo) => {
                let below: i64 = node.int_value.wrapping_sub(1);
                (node.int_value & below) != 0
            },
            Some(ConstIntMatcherCondition::InRange(start, end)) => node.int_value >= start
                || node.int_value <= end,
        }
    }

    /// An integer constant of any value.
    pub fn create_const_int() -> (r: ConstIntMatcher)
        ensures
            r.condition is None,
    {
        ConstIntMatcher { condition: None }
    }

    /// An integer constant whose value equals `value` exactly.
    pub fn create_specific_int(value: i64) -> (r: ConstIntMatcher)
        ensures
            r.condition == Some(ConstIntMatcherCondition::Specific(value)),
    {
        ConstIntMatcher { condition: Some(ConstIntMatcherCondition::Specific(value)) }
    }

    /// An integer constant under the documented power-of-two condition.
    pub fn create_power_of_two() -> (r: ConstIntMatcher)
        ensures
            r.condition == Some(ConstIntMatcherCondition::PowerOfTwo),
    {
        ConstIntMatcher { condition: Some(ConstIntMatcherCondition::PowerOfTwo) }
    }

    /// An integer constant under the documented range condition.
    pub fn create_range_int(start: i64, end: i64) -> (r: ConstIntMatcher)
        ensures
            r.condition == Some(ConstIntMatcherCondition::InRange(start, end)),
    {
        ConstIntMatcher { condition: Some(ConstIntMatcherCondition::InRange(start, end)) }
    }

    /// The integer constant one.
    pub fn create_one() -> (r: ConstIntMatcher)
        ensures
            r.condition == Some(ConstIntMatcherCondition::Specific(1i64)),
    {
        ConstIntMatcher { condition: Some(ConstIntMatcherCondition::Specific(1)) }
    }

    /// The integer constant zero.
    pub fn create_zero() -> (r: ConstIntMatcher)
        ensures
            r.condition == Some(ConstIntMatcherCondition::Specific(0i64)),
    {
        ConstIntMatcher { condition: Some(ConstIntMatcherCondition::Specific(0)) }
    }
}

/// Matches any floating-point constant.
pub struct ConstFloatMatcher;

impl ConstFloatMatcher {
    pub open spec fn spec_match(self, n: IrNode) -> bool {
        n.value_kind == ValueKind::ConstantFP
    }

    pub fn is_match(&self, node: &IrNode) -> (r: bool)
        ensures
            r == self.spec_match(*node),
    {
        node.value_kind == ValueKind::ConstantFP
    }
}

/// Matches the constant null pointer.
pub struct ConstPointerNullMatcher;

impl ConstPointerNullMatcher {
    pub open spec fn spec_match(self, n: IrNode) -> bool {
        n.value_kind == ValueKind::ConstantPointerNull
    }

    pub fn is_match(&self, node: &IrNode) -> (r: bool)
        ensures
            r == self.spec_match(*node),
    {
        node.value_kind == ValueKind::ConstantPointerNull
    }
}

/// Matches a constant number of either kind: integer or floating.
pub struct ConstNumberMatcher;

impl ConstNumberMatcher {
    pub open spec fn spec_match(self, n: IrNode) -> bool {
        n.value_kind == ValueKind::ConstantInt || n.value_kind == ValueKind::ConstantFP
    }

    pub fn is_match(&self, node: &IrNode) -> (r: bool)
        ensures
            r == self.spec_match(*node),
    {
        node.value_kind == ValueKind::ConstantInt || node.value_kind == ValueKind::ConstantFP
    }
}

} // verus!
