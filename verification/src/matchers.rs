//! Matcher trees over IR nodes and IR types.
//!
//! Every matcher family lives in its own submodule; the closed sums
//! [`InstMatcher`] and [`types::TypeMatcher`] tie the families together so
//! that matchers can nest.  A matcher is immutable once constructed and is a
//! pure function of the node it inspects: `is_match` returns exactly what the
//! matcher's `spec_match` denotes.

pub mod arithmetic;
pub mod binary;
pub mod call;
pub mod cast;
pub mod combine;
pub mod constants;
pub mod debug;
pub mod exception;
pub mod get_element_ptr;
pub mod icmp;
pub mod fcmp;
pub mod operand_bundle;
pub mod other;
pub mod shifts;
pub mod types;
pub mod usage;

use vstd::prelude::*;

use crate::ir::IrNode;

verus! {

/// Instruction matcher tree: a closed sum over every matcher family.
pub enum InstMatcher {
    Any(other::AnyInstMatcher),
    Arithmetic(arithmetic::ArithmeticInstMatcher),
    Binary(binary::BinaryInstMatcher),
    Shift(shifts::ShiftInstMatcher),
    IntComparison(icmp::IntComparisonInstMatcher),
    FloatComparison(fcmp::FloatComparisonInstMatcher),
    Cast(cast::CastInstMatcher),
    Call(call::CallInstMatcher),
    Intrinsic(call::IntrinsicInstMatcher),
    ConstExpr(constants::ConstExprMatcher),
    ConstInt(constants::ConstIntMatcher),
    ConstFloat(constants::ConstFloatMatcher),
    ConstPointerNull(constants::ConstPointerNullMatcher),
    ConstNumber(constants::ConstNumberMatcher),
    Poison(other::PoisonValueMatcher),
    Label(other::LabelInstMatcher),
    Argument(other::ArgumentMatcher),
    Return(other::ReturnInstMatcher),
    Unreachable(other::UnreachableInstMatcher),
    Invoke(exception::InvokeInstMatcher),
    LandingPad(exception::LandingPadInstMatcher),
    Resume(exception::ResumeInstMatcher),
    Throw(exception::ThrowInstMatcher),
    Rethrow(exception::RethrowInstMatcher),
    ExtractValue(other::ExtractValueInstMatcher),
    GetElementPtr(get_element_ptr::GetElementPtrMatcher),
    OperandBundle(operand_bundle::OperandBundleNameMatcher),
    OperandCount(other::OperandCountMatcher),
    InstType(other::InstTypeMatcher),
    DebugLine(debug::DebugInfoLineMatcher),
    DebugColumn(debug::DebugInfoColumnMatcher),
    Usage(usage::UsageInstMatcher),
    Combine(combine::CombineInstMatcher),
    CombineBinary(combine::CombineBinaryInstMatcher),
    CombineUnary(combine::CombineUnaryInstMatcher),
}

impl InstMatcher {
    /// What this matcher tree answers on a given node.
    pub open spec fn spec_match(self, n: IrNode) -> bool
        decreases self,
    {
        match self {
            InstMatcher::Any(m) => m.spec_match(n),
            InstMatcher::Arithmetic(m) => m.spec_match(n),
            InstMatcher::Binary(m) => m.spec_match(n),
            InstMatcher::Shift(m) => m.spec_match(n),
            InstMatcher::IntComparison(m) => m.spec_match(n),
            InstMatcher::FloatComparison(m) => m.spec_match(n),
            InstMatcher::Cast(m) => m.spec_match(n),
            InstMatcher::Call(m) => m.spec_match(n),
            InstMatcher::Intrinsic(m) => m.spec_match(n),
            InstMatcher::ConstExpr(m) => m.spec_match(n),
            InstMatcher::ConstInt(m) => m.spec_match(n),
            InstMatcher::ConstFloat(m) => m.spec_match(n),
            InstMatcher::ConstPointerNull(m) => m.spec_match(n),
            InstMatcher::ConstNumber(m) => m.spec_match(n),
            InstMatcher::Poison(m) => m.spec_match(n),
            InstMatcher::Label(m) => m.spec_match(n),
            InstMatcher::Argument(m) => m.spec_match(n),
            InstMatcher::Return(m) => m.spec_match(n),
            InstMatcher::Unreachable(m) => m.spec_match(n),
            InstMatcher::Invoke(m) => m.spec_match(n),
            InstMatcher::LandingPad(m) => m.spec_match(n),
            InstMatcher::Resume(m) => m.spec_match(n),
            InstMatcher::Throw(m) => m.spec_match(n),
            InstMatcher::Rethrow(m) => m.spec_match(n),
            InstMatcher::ExtractValue(m) => m.spec_match(n),
            InstMatcher::GetElementPtr(m) => m.spec_match(n),
            InstMatcher::OperandBundle(m) => m.spec_match(n),
            InstMatcher::OperandCount(m) => m.spec_match(n),
            InstMatcher::InstType(m) => m.spec_match(n),
            InstMatcher::DebugLine(m) => m.spec_match(n),
            InstMatcher::DebugColumn(m) => m.spec_match(n),
            InstMatcher::Usage(m) => m.spec_match(n),
            InstMatcher::Combine(m) => m.spec_match(n),
            InstMatcher::CombineBinary(m) => m.spec_match(n),
            InstMatcher::CombineUnary(m) => m.spec_match(n),
        }
    }

    /// Evaluate this matcher tree against a node.
    pub fn is_match(&self, node: &IrNode) -> (r: bool)
        ensures
            r == self.spec_match(*node),
        decreases self,
    {
        match self {
            InstMatcher::Any(m) => m.is_match(node),
            InstMatcher::Arithmetic(m) => m.is_match(node),
            InstMatcher::Binary(m) => m.is_match(node),
            InstMatcher::Shift(m) => m.is_match(node),
            InstMatcher::IntComparison(m) => m.is_match(node),
            InstMatcher::FloatComparison(m) => m.is_match(node),
            InstMatcher::Cast(m) => m.is_match(node),
            InstMatcher::Call(m) => m.is_match(node),
            InstMatcher::Intrinsic(m) => m.is_match(node),
            InstMatcher::ConstExpr(m) => m.is_match(node),
            InstMatcher::ConstInt(m) => m.is_match(node),
            InstMatcher::ConstFloat(m) => m.is_match(node),
            InstMatcher::ConstPointerNull(m) => m.is_match(node),
            InstMatcher::ConstNumber(m) => m.is_match(node),
            InstMatcher::Poison(m) => m.is_match(node),
            InstMatcher::Label(m) => m.is_match(node),
            InstMatcher::Argument(m) => m.is_match(node),
            InstMatcher::Return(m) => m.is_match(node),
            InstMatcher::Unreachable(m) => m.is_match(node),
            InstMatcher::Invoke(m) => m.is_match(node),
            InstMatcher::LandingPad(m) => m.is_match(node),
            InstMatcher::Resume(m) => m.is_match(node),
            InstMatcher::Throw(m) => m.is_match(node),
            InstMatcher::Rethrow(m) => m.is_match(node),
            InstMatcher::ExtractValue(m) => m.is_match(node),
            InstMatcher::GetElementPtr(m) => m.is_match(node),
            InstMatcher::OperandBundle(m) => m.is_match(node),
            InstMatcher::OperandCount(m) => m.is_match(node),
            InstMatcher::InstType(m) => m.is_match(node),
            InstMatcher::DebugLine(m) => m.is_match(node),
            InstMatcher::DebugColumn(m) => m.is_match(node),
            InstMatcher::Usage(m) => m.is_match(node),
            InstMatcher::Combine(m) => m.is_match(node),
            InstMatcher::CombineBinary(m) => m.is_match(node),
            InstMatcher::CombineUnary(m) => m.is_match(node),
        }
    }

    /// A copy of this matcher tree that answers exactly as the original on
    /// every node.  Matcher trees are immutable, so a copy and its original
    /// are interchangeable wherever only their answers are observed.
    pub fn duplicate(&self) -> (r: InstMatcher)
        ensures
            forall|n: IrNode| #[trigger] r.spec_match(n) == self.spec_match(n),
        decreases self,
    {
        match self {
            InstMatcher::Any(_) => {
                let res = InstMatcher::Any(other::AnyInstMatcher);
                proof {
                    assert forall|n: IrNode| #[trigger] res.spec_match(n) == self.spec_match(n) by {
                        reveal_with_fuel(InstMatcher::spec_match, 3);
                    }
                }
                res
            },
            InstMatcher::Arithmetic(m) => {
                let lhs = m.lhs_matcher.duplicate();
                let rhs = m.rhs_matcher.duplicate();
                let res = InstMatcher::Arithmetic(
                    arithmetic::ArithmeticInstMatcher {
                        lhs_matcher: Box::new(lhs),
                        rhs_matcher: Box::new(rhs),
                        opcode: m.opcode,
                        commutatively: m.commutatively,
                    },
                );
                proof {
                    assert forall|n: IrNode| #[trigger] res.spec_match(n) == self.spec_match(n) by {
                        reveal_with_fuel(InstMatcher::spec_match, 3);
                        reveal_with_fuel(arithmetic::ArithmeticInstMatcher::spec_match, 2);
                        if n.operands@.len() >= 2 {
                            assert(lhs.spec_match(n.operands@[0]) == m.lhs_matcher.spec_match(n.operands@[0]));
                            assert(lhs.spec_match(n.operands@[1]) == m.lhs_matcher.spec_match(n.operands@[1]));
                            assert(rhs.spec_match(n.operands@[0]) == m.rhs_matcher.spec_match(n.operands@[0]));
                            assert(rhs.spec_match(n.operands@[1]) == m.rhs_matcher.spec_match(n.operands@[1]));
                        }
                    }
                }
                res
            },
            InstMatcher::Binary(m) => {
                let lhs = m.lhs_matcher.duplicate();
                let rhs = m.rhs_matcher.duplicate();
                let res = InstMatcher::Binary(
                    binary::BinaryInstMatcher {
                        lhs_matcher: Box::new(lhs),
                        rhs_matcher: Box::new(rhs),
                        operator: m.operator,
                        commutatively: m.commutatively,
                    },
                );
                proof {
                    assert forall|n: IrNode| #[trigger] res.spec_match(n) == self.spec_match(n) by {
                        reveal_with_fuel(InstMatcher::spec_match, 3);
                        reveal_with_fuel(binary::BinaryInstMatcher::spec_match, 2);
                        if n.operands@.len() >= 2 {
                            assert(lhs.spec_match(n.operands@[0]) == m.lhs_matcher.spec_match(n.operands@[0]));
                            assert(lhs.spec_match(n.operands@[1]) == m.lhs_matcher.spec_match(n.operands@[1]));
                            assert(rhs.spec_match(n.operands@[0]) == m.rhs_matcher.spec_match(n.operands@[0]));
                            assert(rhs.spec_match(n.operands@[1]) == m.rhs_matcher.spec_match(n.operands@[1]));
                        }
                    }
                }
                res
            },
            InstMatcher::Shift(m) => {
                let lhs = m.lhs_matcher.duplicate();
                let rhs = m.rhs_matcher.duplicate();
                let res = InstMatcher::Shift(
                    shifts::ShiftInstMatcher {
                        lhs_matcher: Box::new(lhs),
                        rhs_matcher: Box::new(rhs),
                        shift_kind: m.shift_kind,
                        commutatively: m.commutatively,
                    },
                );
                proof {
                    assert forall|n: IrNode| #[trigger] res.spec_match(n) == self.spec_match(n) by {
                        reveal_with_fuel(InstMatcher::spec_match, 3);
                        reveal_with_fuel(shifts::ShiftInstMatcher::spec_match, 2);
                        if n.operands@.len() >= 2 {
                            assert(lhs.spec_match(n.operands@[0]) == m.lhs_matcher.spec_match(n.operands@[0]));
                            assert(lhs.spec_match(n.operands@[1]) == m.lhs_matcher.spec_match(n.operands@[1]));
                            assert(rhs.spec_match(n.operands@[0]) == m.rhs_matcher.spec_match(n.operands@[0]));
                            assert(rhs.spec_match(n.operands@[1]) == m.rhs_matcher.spec_match(n.operands@[1]));
                        }
                    }
                }
                res
            },
            InstMatcher::IntComparison(m) => {
                let lhs = m.lhs_matcher.duplicate();
                let rhs = m.rhs_matcher.duplicate();
                let res = InstMatcher::IntComparison(
                    icmp::IntComparisonInstMatcher {
                        lhs_matcher: Box::new(lhs),
                        rhs_matcher: Box::new(rhs),
                        predicate: m.predicate,
                        commutatively: m.commutatively,
                    },
                );
                proof {
                    assert forall|n: IrNode| #[trigger] res.spec_match(n) == self.spec_match(n) by {
                        reveal_with_fuel(InstMatcher::spec_match, 3);
                        reveal_with_fuel(icmp::IntComparisonInstMatcher::spec_match, 2);
                        if n.operands@.len() >= 2 {
                            assert(lhs.spec_match(n.operands@[0]) == m.lhs_matcher.spec_match(n.operands@[0]));
                            assert(lhs.spec_match(n.operands@[1]) == m.lhs_matcher.spec_match(n.operands@[1]));
                            assert(rhs.spec_match(n.operands@[0]) == m.rhs_matcher.spec_match(n.operands@[0]));
                            assert(rhs.spec_match(n.operands@[1]) == m.rhs_matcher.spec_match(n.operands@[1]));
                        }
                    }
                }
                res
            },
            InstMatcher::FloatComparison(m) => {
                let lhs = m.lhs_matcher.duplicate();
                let rhs = m.rhs_matcher.duplicate();
                let res = InstMatcher::FloatComparison(
                    fcmp::FloatComparisonInstMatcher {
                        lhs_matcher: Box::new(lhs),
                        rhs_matcher: Box::new(rhs),
                        predicate: m.predicate,
                        commutatively: m.commutatively,
                    },
                );
                proof {
                    assert forall|n: IrNode| #[trigger] res.spec_match(n) == self.spec_match(n) by {
                        reveal_with_fuel(InstMatcher::spec_match, 3);
                        reveal_with_fuel(fcmp::FloatComparisonInstMatcher::spec_match, 2);
                        if n.operands@.len() >= 2 {
                            assert(lhs.spec_match(n.operands@[0]) == m.lhs_matcher.spec_match(n.operands@[0]));
                            assert(lhs.spec_match(n.operands@[1]) == m.lhs_matcher.spec_match(n.operands@[1]));
                            assert(rhs.spec_match(n.operands@[0]) == m.rhs_matcher.spec_match(n.operands@[0]));
                            assert(rhs.spec_match(n.operands@[1]) == m.rhs_matcher.spec_match(n.operands@[1]));
                        }
                    }
                }
                res
            },
            InstMatcher::Cast(m) => {
                let inner = m.value_matcher.duplicate();
                let res = InstMatcher::Cast(
                    cast::CastInstMatcher { value_matcher: Box::new(inner), kind: m.kind },
                );
                proof {
                    assert forall|n: IrNode| #[trigger] res.spec_match(n) == self.spec_match(n) by {
                        reveal_with_fuel(InstMatcher::spec_match, 3);
                        reveal_with_fuel(cast::CastInstMatcher::spec_match, 2);
                        if n.operands@.len() >= 1 {
                            assert(inner.spec_match(n.operands@[0]) == m.value_matcher.spec_match(n.operands@[0]));
                        }
                    }
                }
                res
            },
            InstMatcher::Call(_) => {
                let res = InstMatcher::Call(call::CallInstMatcher);
                proof {
                    assert forall|n: IrNode| #[trigger] res.spec_match(n) == self.spec_match(n) by {
                        reveal_with_fuel(InstMatcher::spec_match, 3);
                    }
                }
                res
            },
            InstMatcher::Intrinsic(m) => {
                let res = InstMatcher::Intrinsic(
                    call::IntrinsicInstMatcher {
                        name: match &m.name {
                            Some(nm) => Some(nm.clone()),
                            None => None,
                        },
                    },
                );
                proof {
                    assert forall|n: IrNode| #[trigger] res.spec_match(n) == self.spec_match(n) by {
                        reveal_with_fuel(InstMatcher::spec_match, 3);
                    }
                }
                res
            },
            InstMatcher::ConstExpr(_) => {
                let res = InstMatcher::ConstExpr(constants::ConstExprMatcher);
                proof {
                    assert forall|n: IrNode| #[trigger] res.spec_match(n) == self.spec_match(n) by {
                        reveal_with_fuel(InstMatcher::spec_match, 3);
                    }
                }
                res
            },
            InstMatcher::ConstInt(m) => {
                let res = InstMatcher::ConstInt(
                    constants::ConstIntMatcher { condition: m.condition },
                );
                proof {
                    assert forall|n: IrNode| #[trigger] res.spec_match(n) == self.spec_match(n) by {
                        reveal_with_fuel(InstMatcher::spec_match, 3);
                    }
                }
                res
            },
            InstMatcher::ConstFloat(_) => {
                let res = InstMatcher::ConstFloat(constants::ConstFloatMatcher);
                proof {
                    assert forall|n: IrNode| #[trigger] res.spec_match(n) == self.spec_match(n) by {
                        reveal_with_fuel(InstMatcher::spec_match, 3);
                    }
                }
                res
            },
            InstMatcher::ConstPointerNull(_) => {
                let res = InstMatcher::ConstPointerNull(constants::ConstPointerNullMatcher);
                proof {
                    assert forall|n: IrNode| #[trigger] res.spec_match(n) == self.spec_match(n) by {
                        reveal_with_fuel(InstMatcher::spec_match, 3);
                    }
                }
                res
            },
            InstMatcher::ConstNumber(_) => {
                let res = InstMatcher::ConstNumber(constants::ConstNumberMatcher);
                proof {
                    assert forall|n: IrNode| #[trigger] res.spec_match(n) == self.spec_match(n) by {
                        reveal_with_fuel(InstMatcher::spec_match, 3);
                    }
                }
                res
            },
            InstMatcher::Poison(_) => {
                let res = InstMatcher::Poison(other::PoisonValueMatcher);
                proof {
                    assert forall|n: IrNode| #[trigger] res.spec_match(n) == self.spec_match(n) by {
                        reveal_with_fuel(InstMatcher::spec_match, 3);
                    }
                }
                res
            },
            InstMatcher::Label(m) => {
                let res = InstMatcher::Label(
                    other::LabelInstMatcher {
                        name: match &m.name {
                            Some(nm) => Some(nm.clone()),
                            None => None,
                        },
                    },
                );
                proof {
                    assert forall|n: IrNode| #[trigger] res.spec_match(n) == self.spec_match(n) by {
                        reveal_with_fuel(InstMatcher::spec_match, 3);
                    }
                }
                res
            },
            InstMatcher::Argument(m) => {
                let res = InstMatcher::Argument(
                    other::ArgumentMatcher {
                        name: match &m.name {
                            Some(nm) => Some(nm.clone()),
                            None => None,
                        },
                        type_matcher: match &m.type_matcher {
                            Some(tm) => Some(tm.clone()),
                            None => None,
                        },
                    },
                );
                proof {
                    assert forall|n: IrNode| #[trigger] res.spec_match(n) == self.spec_match(n) by {
                        reveal_with_fuel(InstMatcher::spec_match, 3);
                    }
                }
                res
            },
            InstMatcher::Return(m) => {
                let inner = m.matcher.duplicate();
                let res = InstMatcher::Return(
                    other::ReturnInstMatcher { matcher: Box::new(inner) },
                );
                proof {
                    assert forall|n: IrNode| #[trigger] res.spec_match(n) == self.spec_match(n) by {
                        reveal_with_fuel(InstMatcher::spec_match, 3);
                        reveal_with_fuel(other::ReturnInstMatcher::spec_match, 2);
                        if n.operands@.len() >= 1 {
                            assert(inner.spec_match(n.operands@[0]) == m.matcher.spec_match(n.operands@[0]));
                        }
                    }
                }
                res
            },
            InstMatcher::Unreachable(_) => {
                let res = InstMatcher::Unreachable(other::UnreachableInstMatcher);
                proof {
                    assert forall|n: IrNode| #[trigger] res.spec_match(n) == self.spec_match(n) by {
                        reveal_with_fuel(InstMatcher::spec_match, 3);
                    }
                }
                res
            },
            InstMatcher::Invoke(_) => {
                let res = InstMatcher::Invoke(exception::InvokeInstMatcher);
                proof {
                    assert forall|n: IrNode| #[trigger] res.spec_match(n) == self.spec_match(n) by {
                        reveal_with_fuel(InstMatcher::spec_match, 3);
                    }
                }
                res
            },
            InstMatcher::LandingPad(_) => {
                let res = InstMatcher::LandingPad(exception::LandingPadInstMatcher);
                proof {
                    assert forall|n: IrNode| #[trigger] res.spec_match(n) == self.spec_match(n) by {
                        reveal_with_fuel(InstMatcher::spec_match, 3);
                    }
                }
                res
            },
            InstMatcher::Resume(_) => {
                let res = InstMatcher::Resume(exception::ResumeInstMatcher);
                proof {
                    assert forall|n: IrNode| #[trigger] res.spec_match(n) == self.spec_match(n) by {
                        reveal_with_fuel(InstMatcher::spec_match, 3);
                    }
                }
                res
            },
            InstMatcher::Throw(_) => {
                let res = InstMatcher::Throw(exception::ThrowInstMatcher);
                proof {
                    assert forall|n: IrNode| #[trigger] res.spec_match(n) == self.spec_match(n) by {
                        reveal_with_fuel(InstMatcher::spec_match, 3);
                    }
                }
                res
            },
            InstMatcher::Rethrow(_) => {
                let res = InstMatcher::Rethrow(exception::RethrowInstMatcher);
                proof {
                    assert forall|n: IrNode| #[trigger] res.spec_match(n) == self.spec_match(n) by {
                        reveal_with_fuel(InstMatcher::spec_match, 3);
                    }
                }
                res
            },
            InstMatcher::ExtractValue(m) => {
                let inner = m.matcher.duplicate();
                let res = InstMatcher::ExtractValue(
                    other::ExtractValueInstMatcher {
                        matcher: Box::new(inner),
                        indices: match &m.indices {
                            Some(ix) => Some(crate::ir::clone_i64_vec(ix)),
                            None => None,
                        },
                    },
                );
                proof {
                    assert forall|n: IrNode| #[trigger] res.spec_match(n) == self.spec_match(n) by {
                        reveal_with_fuel(InstMatcher::spec_match, 3);
                        reveal_with_fuel(other::ExtractValueInstMatcher::spec_match, 2);
                        if n.operands@.len() >= 1 {
                            assert(inner.spec_match(n.operands@[0]) == m.matcher.spec_match(n.operands@[0]));
                        }
                    }
                }
                res
            },
            InstMatcher::GetElementPtr(_) => {
                let res = InstMatcher::GetElementPtr(get_element_ptr::GetElementPtrMatcher);
                proof {
                    assert forall|n: IrNode| #[trigger] res.spec_match(n) == self.spec_match(n) by {
                        reveal_with_fuel(InstMatcher::spec_match, 3);
                    }
                }
                res
            },
            InstMatcher::OperandBundle(m) => {
                let res = InstMatcher::OperandBundle(
                    operand_bundle::OperandBundleNameMatcher { name: m.name.clone() },
                );
                proof {
                    assert forall|n: IrNode| #[trigger] res.spec_match(n) == self.spec_match(n) by {
                        reveal_with_fuel(InstMatcher::spec_match, 3);
                    }
                }
                res
            },
            InstMatcher::OperandCount(m) => {
                let res = InstMatcher::OperandCount(other::OperandCountMatcher { count: m.count });
                proof {
                    assert forall|n: IrNode| #[trigger] res.spec_match(n) == self.spec_match(n) by {
                        reveal_with_fuel(InstMatcher::spec_match, 3);
                    }
                }
                res
            },
            InstMatcher::InstType(m) => {
                let res = InstMatcher::InstType(
                    other::InstTypeMatcher { matcher: m.matcher.clone() },
                );
                proof {
                    assert forall|n: IrNode| #[trigger] res.spec_match(n) == self.spec_match(n) by {
                        reveal_with_fuel(InstMatcher::spec_match, 3);
                    }
                }
                res
            },
            InstMatcher::DebugLine(m) => {
                let res = InstMatcher::DebugLine(debug::DebugInfoLineMatcher { line: m.line });
                proof {
                    assert forall|n: IrNode| #[trigger] res.spec_match(n) == self.spec_match(n) by {
                        reveal_with_fuel(InstMatcher::spec_match, 3);
                    }
                }
                res
            },
            InstMatcher::DebugColumn(m) => {
                let res = InstMatcher::DebugColumn(
                    debug::DebugInfoColumnMatcher { column: m.column },
                );
                proof {
                    assert forall|n: IrNode| #[trigger] res.spec_match(n) == self.spec_match(n) by {
                        reveal_with_fuel(InstMatcher::spec_match, 3);
                    }
                }
                res
            },
            InstMatcher::Usage(m) => {
                let inner = m.matcher.duplicate();
                let res = InstMatcher::Usage(
                    usage::UsageInstMatcher { matcher: Box::new(inner), count: m.count },
                );
                proof {
                    assert forall|n: IrNode| #[trigger] res.spec_match(n) == self.spec_match(n) by {
                        reveal_with_fuel(InstMatcher::spec_match, 3);
                        reveal_with_fuel(usage::UsageInstMatcher::spec_match, 2);
                        assert(inner.spec_match(n) == m.matcher.spec_match(n));
                    }
                }
                res
            },
            InstMatcher::Combine(m) => {
                let ms = duplicate_vec(&m.matchers);
                let res = InstMatcher::Combine(
                    combine::CombineInstMatcher { matchers: ms, matcher_kind: m.matcher_kind },
                );
                proof {
                    assert forall|n: IrNode| #[trigger] res.spec_match(n) == self.spec_match(n) by {
                        reveal_with_fuel(InstMatcher::spec_match, 3);
                        reveal_with_fuel(combine::CombineInstMatcher::spec_match, 2);
                        combine::lemma_count_matching_congruent(
                            res->Combine_0.matchers@,
                            m.matchers@,
                            n,
                        );
                    }
                }
                res
            },
            InstMatcher::CombineBinary(m) => {
                let lhs = m.lhs.duplicate();
                let rhs = m.rhs.duplicate();
                let res = InstMatcher::CombineBinary(
                    combine::CombineBinaryInstMatcher {
                        lhs: Box::new(lhs),
                        rhs: Box::new(rhs),
                        kind: m.kind,
                    },
                );
                proof {
                    assert forall|n: IrNode| #[trigger] res.spec_match(n) == self.spec_match(n) by {
                        reveal_with_fuel(InstMatcher::spec_match, 3);
                        reveal_with_fuel(combine::CombineBinaryInstMatcher::spec_match, 2);
                        assert(lhs.spec_match(n) == m.lhs.spec_match(n));
                        assert(rhs.spec_match(n) == m.rhs.spec_match(n));
                    }
                }
                res
            },
            InstMatcher::CombineUnary(m) => {
                let inner = m.rhs.duplicate();
                let res = InstMatcher::CombineUnary(
                    combine::CombineUnaryInstMatcher { rhs: Box::new(inner) },
                );
                proof {
                    assert forall|n: IrNode| #[trigger] res.spec_match(n) == self.spec_match(n) by {
                        reveal_with_fuel(InstMatcher::spec_match, 3);
                        reveal_with_fuel(combine::CombineUnaryInstMatcher::spec_match, 2);
                        assert(inner.spec_match(n) == m.rhs.spec_match(n));
                    }
                }
                res
            },
        }
    }
}

/// An element-for-element copy of a list of matchers; each copy answers as
/// its original on every node.
fn duplicate_vec(v: &Vec<InstMatcher>) -> (r: Vec<InstMatcher>)
    ensures
        r@.len() == v@.len(),
        forall|i: int, n: IrNode|
            0 <= i < v@.len() ==> #[trigger] r@[i].spec_match(n) == v@[i].spec_match(n),
    decreases v@,
{
    let mut r: Vec<InstMatcher> = Vec::new();
    let mut i: usize = 0;
    while i < v.len()
        invariant
            i <= v@.len(),
            r@.len() == i,
            forall|j: int, n: IrNode|
                0 <= j < i ==> #[trigger] r@[j].spec_match(n) == v@[j].spec_match(n),
        decreases v@.len() - i,
    {
        let d = v[i].duplicate();
        r.push(d);
        i = i + 1;
    }
    r
}


/// The deepest operand level below the inspected node a list of matchers can
/// reach.
pub open spec fn spec_depth_list(ms: Seq<InstMatcher>) -> nat
    decreases ms,
{
    if ms.len() == 0 {
        0
    } else {
        let rest = spec_depth_list(ms.drop_last());
        let last = ms.last().spec_depth();
        if rest < last {
            last
        } else {
            rest
        }
    }
}

impl InstMatcher {
    /// How many operand levels below the inspected node this tree can reach:
    /// binary forms read direct operands and recurse, cast-like forms read
    /// one operand, the intrinsic and throw forms read the callee, and the
    /// pure combinators inspect the same node their children do.
    pub open spec fn spec_depth(self) -> nat
        decreases self,
    {
        match self {
            InstMatcher::Any(_) => 0,
            InstMatcher::Arithmetic(m) => {
                let l = m.lhs_matcher.spec_depth();
                let r = m.rhs_matcher.spec_depth();
                1 + if l < r {
                    r
                } else {
                    l
                }
            },
            InstMatcher::Binary(m) => {
                let l = m.lhs_matcher.spec_depth();
                let r = m.rhs_matcher.spec_depth();
                1 + if l < r {
                    r
                } else {
                    l
                }
            },
            InstMatcher::Shift(m) => {
                let l = m.lhs_matcher.spec_depth();
                let r = m.rhs_matcher.spec_depth();
                1 + if l < r {
                    r
                } else {
                    l
                }
            },
            InstMatcher::IntComparison(m) => {
                let l = m.lhs_matcher.spec_depth();
                let r = m.rhs_matcher.spec_depth();
                1 + if l < r {
                    r
                } else {
                    l
                }
            },
            InstMatcher::FloatComparison(m) => {
                let l = m.lhs_matcher.spec_depth();
                let r = m.rhs_matcher.spec_depth();
                1 + if l < r {
                    r
                } else {
                    l
                }
            },
            InstMatcher::Cast(m) => 1 + m.value_matcher.spec_depth(),
            InstMatcher::Call(_) => 0,
            InstMatcher::Intrinsic(_) => 1,
            InstMatcher::ConstExpr(_) => 0,
            InstMatcher::ConstInt(_) => 0,
            InstMatcher::ConstFloat(_) => 0,
            InstMatcher::ConstPointerNull(_) => 0,
            InstMatcher::ConstNumber(_) => 0,
            InstMatcher::Poison(_) => 0,
            InstMatcher::Label(_) => 0,
            InstMatcher::Argument(_) => 0,
            InstMatcher::Return(m) => 1 + m.matcher.spec_depth(),
            InstMatcher::Unreachable(_) => 0,
            InstMatcher::Invoke(_) => 0,
            InstMatcher::LandingPad(_) => 0,
            InstMatcher::Resume(_) => 0,
            InstMatcher::Throw(_) => 1,
            InstMatcher::Rethrow(_) => 1,
            InstMatcher::ExtractValue(m) => 1 + m.matcher.spec_depth(),
            InstMatcher::GetElementPtr(_) => 0,
            InstMatcher::OperandBundle(_) => 0,
            InstMatcher::OperandCount(_) => 0,
            InstMatcher::InstType(_) => 0,
            InstMatcher::DebugLine(_) => 0,
            InstMatcher::DebugColumn(_) => 0,
            InstMatcher::Usage(m) => m.matcher.spec_depth(),
            InstMatcher::Combine(c) => spec_depth_list(c.matchers@),
            InstMatcher::CombineBinary(c) => {
                let l = c.lhs.spec_depth();
                let r = c.rhs.spec_depth();
                if l < r {
                    r
                } else {
                    l
                }
            },
            InstMatcher::CombineUnary(c) => c.rhs.spec_depth(),
        }
    }

    /// Compute the tree's reach, saturating at the machine's limit.
    pub fn depth(&self) -> (r: usize)
        ensures
            r == self.spec_depth() || (r == usize::MAX && self.spec_depth() > usize::MAX),
        decreases self,
    {
        match self {
            InstMatcher::Any(_) => 0,
            InstMatcher::Arithmetic(m) => {
                depth_succ(depth_max(m.lhs_matcher.depth(), m.rhs_matcher.depth()))
            },
            InstMatcher::Binary(m) => {
                depth_succ(depth_max(m.lhs_matcher.depth(), m.rhs_matcher.depth()))
            },
            InstMatcher::Shift(m) => {
                depth_succ(depth_max(m.lhs_matcher.depth(), m.rhs_matcher.depth()))
            },
            InstMatcher::IntComparison(m) => {
                depth_succ(depth_max(m.lhs_matcher.depth(), m.rhs_matcher.depth()))
            },
            InstMatcher::FloatComparison(m) => {
                depth_succ(depth_max(m.lhs_matcher.depth(), m.rhs_matcher.depth()))
            },
            InstMatcher::Cast(m) => depth_succ(m.value_matcher.depth()),
            InstMatcher::Call(_) => 0,
            InstMatcher::Intrinsic(_) => 1,
            InstMatcher::ConstExpr(_) => 0,
            InstMatcher::ConstInt(_) => 0,
            InstMatcher::ConstFloat(_) => 0,
            InstMatcher::ConstPointerNull(_) => 0,
            InstMatcher::ConstNumber(_) => 0,
            InstMatcher::Poison(_) => 0,
            InstMatcher::Label(_) => 0,
            InstMatcher::Argument(_) => 0,
            InstMatcher::Return(m) => depth_succ(m.matcher.depth()),
            InstMatcher::Unreachable(_) => 0,
            InstMatcher::Invoke(_) => 0,
            InstMatcher::LandingPad(_) => 0,
            InstMatcher::Resume(_) => 0,
            InstMatcher::Throw(_) => 1,
            InstMatcher::Rethrow(_) => 1,
            InstMatcher::ExtractValue(m) => depth_succ(m.matcher.depth()),
            InstMatcher::GetElementPtr(_) => 0,
            InstMatcher::OperandBundle(_) => 0,
            InstMatcher::OperandCount(_) => 0,
            InstMatcher::InstType(_) => 0,
            InstMatcher::DebugLine(_) => 0,
            InstMatcher::DebugColumn(_) => 0,
            InstMatcher::Usage(m) => m.matcher.depth(),
            InstMatcher::Combine(c) => depth_list(&c.matchers),
            InstMatcher::CombineBinary(c) => depth_max(c.lhs.depth(), c.rhs.depth()),
            InstMatcher::CombineUnary(c) => c.rhs.depth(),
        }
    }
}

/// The deepest reach of a list of matchers, saturating at the machine's
/// limit.
fn depth_list(ms: &Vec<InstMatcher>) -> (r: usize)
    ensures
        r == spec_depth_list(ms@) || (r == usize::MAX && spec_depth_list(ms@) > usize::MAX),
    decreases ms@,
{
    let mut acc: usize = 0;
    let mut i: usize = 0;
    while i < ms.len()
        invariant
            i <= ms@.len(),
            acc == spec_depth_list(ms@.subrange(0, i as int)) || (acc == usize::MAX
                && spec_depth_list(ms@.subrange(0, i as int)) > usize::MAX),
        decreases ms@.len() - i,
    {
        proof {
            assert(ms@.subrange(0, i + 1).drop_last() =~= ms@.subrange(0, i as int));
            assert(ms@.subrange(0, i + 1).last() == ms@[i as int]);
        }
        let d = ms[i].depth();
        acc = depth_max(acc, d);
        i = i + 1;
    }
    proof {
        assert(ms@.subrange(0, ms@.len() as int) =~= ms@);
    }
    acc
}

/// One level more, saturating at the machine's limit.
fn depth_succ(d: usize) -> (r: usize)
    ensures
        r == d + 1 || (r == usize::MAX && d + 1 > usize::MAX),
{
    if d == usize::MAX {
        usize::MAX
    } else {
        d + 1
    }
}

/// The larger of two saturating depths.
fn depth_max(a: usize, b: usize) -> (r: usize)
    ensures
        b <= r && a <= r && (r == a || r == b),
{
    if a < b {
        b
    } else {
        a
    }
}

} // verus!
