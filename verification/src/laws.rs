//! The engine-wide laws of the matcher library, each stated over the
//! matchers' specification functions and proved once and for all.

use vstd::prelude::*;

use crate::ir::same_node;
use crate::ir::IrNode;
use crate::matchers::arithmetic::ArithmeticInstMatcher;
use crate::matchers::binary::BinaryInstMatcher;
use crate::matchers::combine::spec_count_matching;
use crate::matchers::combine::CombineInstMatcher;
use crate::matchers::combine::CombineMatcherKind;
use crate::matchers::combine::CombineUnaryInstMatcher;
use crate::matchers::fcmp::FloatComparisonInstMatcher;
use crate::matchers::icmp::IntComparisonInstMatcher;
use crate::matchers::other::AnyInstMatcher;
use crate::matchers::shifts::ShiftInstMatcher;
use crate::matchers::usage::UsageInstMatcher;
use crate::matchers::InstMatcher;

verus! {

/// Negation: for every node, a negation matcher answers the opposite of the
/// matcher it wraps, also when standing inside the matcher sum.
pub proof fn lemma_not_negates(m: CombineUnaryInstMatcher, n: IrNode)
    ensures
        m.spec_match(n) == !m.rhs.spec_match(n),
        InstMatcher::CombineUnary(m).spec_match(n) == !m.rhs.spec_match(n),
{
}

/// Vacuous truth over empty lists: on every node, all-of nothing and none-of
/// nothing hold, while one-of nothing does not.
pub proof fn lemma_empty_combinators(m: CombineInstMatcher, n: IrNode)
    requires
        m.matchers@.len() == 0,
    ensures
        m.matcher_kind == CombineMatcherKind::AllOf ==> m.spec_match(n),
        m.matcher_kind == CombineMatcherKind::NoneOf ==> m.spec_match(n),
        m.matcher_kind == CombineMatcherKind::OneOf ==> !m.spec_match(n),
{
    assert(spec_count_matching(m.matchers@, n) == 0);
}

/// Commutativity: on a well-formed two-operand node of the right opcode, a
/// commutative binary arithmetic matcher answers the disjunction of the
/// in-order and the swapped operand matches, and the non-commutative matcher
/// drops the swapped disjunct.
pub proof fn lemma_commutative_binary(m: ArithmeticInstMatcher, n: IrNode)
    requires
        n.opcode == m.opcode,
        n.operands@.len() == 2,
    ensures
        m.commutatively ==> m.spec_match(n) == ((m.lhs_matcher.spec_match(n.operands@[0])
            && m.rhs_matcher.spec_match(n.operands@[1])) || (m.lhs_matcher.spec_match(
            n.operands@[1],
        ) && m.rhs_matcher.spec_match(n.operands@[0]))),
        !m.commutatively ==> m.spec_match(n) == (m.lhs_matcher.spec_match(n.operands@[0])
            && m.rhs_matcher.spec_match(n.operands@[1])),
{
}

/// Usage counting is a function of the use-list length alone: with the
/// any-node matcher inside, two nodes with equal use counts get equal
/// answers, whatever else differs between them.
pub proof fn lemma_usage_depends_on_use_count(m: UsageInstMatcher, n1: IrNode, n2: IrNode)
    requires
        *m.matcher == InstMatcher::Any(AnyInstMatcher),
        n1.use_count == n2.use_count,
    ensures
        m.spec_match(n1) == m.spec_match(n2),
{
}

/// The same commutativity law for the general binary matcher family.
pub proof fn lemma_commutative_general_binary(m: BinaryInstMatcher, n: IrNode)
    requires
        m.operator.spec_matches_opcode(n.opcode),
        m.operator is OrDisjoint ==> n.is_or_disjoint,
        n.operands@.len() == 2,
    ensures
        m.commutatively ==> m.spec_match(n) == ((m.lhs_matcher.spec_match(n.operands@[0])
            && m.rhs_matcher.spec_match(n.operands@[1])) || (m.lhs_matcher.spec_match(
            n.operands@[1],
        ) && m.rhs_matcher.spec_match(n.operands@[0]))),
        !m.commutatively ==> m.spec_match(n) == (m.lhs_matcher.spec_match(n.operands@[0])
            && m.rhs_matcher.spec_match(n.operands@[1])),
{
}

/// The same commutativity law for the shift matcher family.
pub proof fn lemma_commutative_shift(m: ShiftInstMatcher, n: IrNode)
    requires
        n.opcode == m.shift_kind.spec_opcode(),
        n.operands@.len() == 2,
    ensures
        m.commutatively ==> m.spec_match(n) == ((m.lhs_matcher.spec_match(n.operands@[0])
            && m.rhs_matcher.spec_match(n.operands@[1])) || (m.lhs_matcher.spec_match(
            n.operands@[1],
        ) && m.rhs_matcher.spec_match(n.operands@[0]))),
        !m.commutatively ==> m.spec_match(n) == (m.lhs_matcher.spec_match(n.operands@[0])
            && m.rhs_matcher.spec_match(n.operands@[1])),
{
}

/// The same commutativity law for the integer comparison family.
pub proof fn lemma_commutative_int_comparison(m: IntComparisonInstMatcher, n: IrNode)
    requires
        n.opcode == crate::ir::Opcode::ICmp,
        n.int_predicate == m.predicate,
        n.operands@.len() == 2,
    ensures
        m.commutatively ==> m.spec_match(n) == ((m.lhs_matcher.spec_match(n.operands@[0])
            && m.rhs_matcher.spec_match(n.operands@[1])) || (m.lhs_matcher.spec_match(
            n.operands@[1],
        ) && m.rhs_matcher.spec_match(n.operands@[0]))),
        !m.commutatively ==> m.spec_match(n) == (m.lhs_matcher.spec_match(n.operands@[0])
            && m.rhs_matcher.spec_match(n.operands@[1])),
{
}

/// The same commutativity law for the floating-point comparison family.
pub proof fn lemma_commutative_float_comparison(m: FloatComparisonInstMatcher, n: IrNode)
    requires
        n.opcode == crate::ir::Opcode::FCmp,
        n.float_predicate == m.predicate,
        n.operands@.len() == 2,
    ensures
        m.commutatively ==> m.spec_match(n) == ((m.lhs_matcher.spec_match(n.operands@[0])
            && m.rhs_matcher.spec_match(n.operands@[1])) || (m.lhs_matcher.spec_match(
            n.operands@[1],
        ) && m.rhs_matcher.spec_match(n.operands@[0]))),
        !m.commutatively ==> m.spec_match(n) == (m.lhs_matcher.spec_match(n.operands@[0])
            && m.rhs_matcher.spec_match(n.operands@[1])),
{
}

/// Congruence: two nodes with the same observable content are
/// indistinguishable — every matcher answers the same on both.  This is what
/// makes a deep copy of a node as good as the node itself.
pub proof fn lemma_spec_match_same_node(m: InstMatcher, a: IrNode, b: IrNode)
    requires
        same_node(a, b),
    ensures
        m.spec_match(a) == m.spec_match(b),
    decreases m,
{
    reveal_with_fuel(InstMatcher::spec_match, 2);
    match m {
        InstMatcher::Any(_) => {
            assert(m.spec_match(a) == m.spec_match(b));
        },
        InstMatcher::Call(_) => {
            assert(m.spec_match(a) == m.spec_match(b));
        },
        InstMatcher::ConstExpr(_) => {
            assert(m.spec_match(a) == m.spec_match(b));
        },
        InstMatcher::ConstInt(_) => {
            assert(m.spec_match(a) == m.spec_match(b));
        },
        InstMatcher::ConstFloat(_) => {
            assert(m.spec_match(a) == m.spec_match(b));
        },
        InstMatcher::ConstPointerNull(_) => {
            assert(m.spec_match(a) == m.spec_match(b));
        },
        InstMatcher::ConstNumber(_) => {
            assert(m.spec_match(a) == m.spec_match(b));
        },
        InstMatcher::Poison(_) => {
            assert(m.spec_match(a) == m.spec_match(b));
        },
        InstMatcher::Label(_) => {
            assert(m.spec_match(a) == m.spec_match(b));
        },
        InstMatcher::Unreachable(_) => {
            assert(m.spec_match(a) == m.spec_match(b));
        },
        InstMatcher::Invoke(_) => {
            assert(m.spec_match(a) == m.spec_match(b));
        },
        InstMatcher::LandingPad(_) => {
            assert(m.spec_match(a) == m.spec_match(b));
        },
        InstMatcher::Resume(_) => {
            assert(m.spec_match(a) == m.spec_match(b));
        },
        InstMatcher::GetElementPtr(_) => {
            assert(m.spec_match(a) == m.spec_match(b));
        },
        InstMatcher::OperandCount(_) => {
            assert(m.spec_match(a) == m.spec_match(b));
        },
        InstMatcher::InstType(_) => {
            assert(m.spec_match(a) == m.spec_match(b));
        },
        InstMatcher::DebugLine(_) => {
            assert(m.spec_match(a) == m.spec_match(b));
        },
        InstMatcher::DebugColumn(_) => {
            assert(m.spec_match(a) == m.spec_match(b));
        },
        InstMatcher::Argument(_) => {
            assert(m.spec_match(a) == m.spec_match(b));
        },
        InstMatcher::Arithmetic(s) => {
            if a.operands@.len() >= 2 {
                assert(same_node(a.operands@[0], b.operands@[0]));
                assert(same_node(a.operands@[1], b.operands@[1]));
                lemma_spec_match_same_node(*s.lhs_matcher, a.operands@[0], b.operands@[0]);
                lemma_spec_match_same_node(*s.lhs_matcher, a.operands@[1], b.operands@[1]);
                lemma_spec_match_same_node(*s.rhs_matcher, a.operands@[0], b.operands@[0]);
                lemma_spec_match_same_node(*s.rhs_matcher, a.operands@[1], b.operands@[1]);
            }
            assert(m.spec_match(a) == m.spec_match(b)) by {
                reveal_with_fuel(InstMatcher::spec_match, 2);
                reveal_with_fuel(crate::matchers::arithmetic::ArithmeticInstMatcher::spec_match, 2);
            }
        },
        InstMatcher::Binary(s) => {
            if a.operands@.len() >= 2 {
                assert(same_node(a.operands@[0], b.operands@[0]));
                assert(same_node(a.operands@[1], b.operands@[1]));
                lemma_spec_match_same_node(*s.lhs_matcher, a.operands@[0], b.operands@[0]);
                lemma_spec_match_same_node(*s.lhs_matcher, a.operands@[1], b.operands@[1]);
                lemma_spec_match_same_node(*s.rhs_matcher, a.operands@[0], b.operands@[0]);
                lemma_spec_match_same_node(*s.rhs_matcher, a.operands@[1], b.operands@[1]);
            }
            assert(m.spec_match(a) == m.spec_match(b)) by {
                reveal_with_fuel(InstMatcher::spec_match, 2);
                reveal_with_fuel(crate::matchers::binary::BinaryInstMatcher::spec_match, 2);
            }
        },
        InstMatcher::Shift(s) => {
            if a.operands@.len() >= 2 {
                assert(same_node(a.operands@[0], b.operands@[0]));
                assert(same_node(a.operands@[1], b.operands@[1]));
                lemma_spec_match_same_node(*s.lhs_matcher, a.operands@[0], b.operands@[0]);
                lemma_spec_match_same_node(*s.lhs_matcher, a.operands@[1], b.operands@[1]);
                lemma_spec_match_same_node(*s.rhs_matcher, a.operands@[0], b.operands@[0]);
                lemma_spec_match_same_node(*s.rhs_matcher, a.operands@[1], b.operands@[1]);
            }
            assert(m.spec_match(a) == m.spec_match(b)) by {
                reveal_with_fuel(InstMatcher::spec_match, 2);
                reveal_with_fuel(crate::matchers::shifts::ShiftInstMatcher::spec_match, 2);
            }
        },
        InstMatcher::IntComparison(s) => {
            if a.operands@.len() >= 2 {
                assert(same_node(a.operands@[0], b.operands@[0]));
                assert(same_node(a.operands@[1], b.operands@[1]));
                lemma_spec_match_same_node(*s.lhs_matcher, a.operands@[0], b.operands@[0]);
                lemma_spec_match_same_node(*s.lhs_matcher, a.operands@[1], b.operands@[1]);
                lemma_spec_match_same_node(*s.rhs_matcher, a.operands@[0], b.operands@[0]);
                lemma_spec_match_same_node(*s.rhs_matcher, a.operands@[1], b.operands@[1]);
            }
            assert(m.spec_match(a) == m.spec_match(b)) by {
                reveal_with_fuel(InstMatcher::spec_match, 2);
                reveal_with_fuel(crate::matchers::icmp::IntComparisonInstMatcher::spec_match, 2);
            }
        },
        InstMatcher::FloatComparison(s) => {
            if a.operands@.len() >= 2 {
                assert(same_node(a.operands@[0], b.operands@[0]));
                assert(same_node(a.operands@[1], b.operands@[1]));
                lemma_spec_match_same_node(*s.lhs_matcher, a.operands@[0], b.operands@[0]);
                lemma_spec_match_same_node(*s.lhs_matcher, a.operands@[1], b.operands@[1]);
                lemma_spec_match_same_node(*s.rhs_matcher, a.operands@[0], b.operands@[0]);
                lemma_spec_match_same_node(*s.rhs_matcher, a.operands@[1], b.operands@[1]);
            }
            assert(m.spec_match(a) == m.spec_match(b)) by {
                reveal_with_fuel(InstMatcher::spec_match, 2);
                reveal_with_fuel(crate::matchers::fcmp::FloatComparisonInstMatcher::spec_match, 2);
            }
        },
        InstMatcher::Cast(s) => {
            if a.operands@.len() >= 1 {
                assert(same_node(a.operands@[0], b.operands@[0]));
                lemma_spec_match_same_node(*s.value_matcher, a.operands@[0], b.operands@[0]);
            }
            assert(m.spec_match(a) == m.spec_match(b)) by {
                reveal_with_fuel(InstMatcher::spec_match, 2);
                reveal_with_fuel(crate::matchers::cast::CastInstMatcher::spec_match, 2);
            }
        },
        InstMatcher::Return(s) => {
            if a.operands@.len() >= 1 {
                assert(same_node(a.operands@[0], b.operands@[0]));
                lemma_spec_match_same_node(*s.matcher, a.operands@[0], b.operands@[0]);
            }
            assert(m.spec_match(a) == m.spec_match(b)) by {
                reveal_with_fuel(InstMatcher::spec_match, 2);
                reveal_with_fuel(crate::matchers::other::ReturnInstMatcher::spec_match, 2);
            }
        },
        InstMatcher::ExtractValue(s) => {
            if a.operands@.len() >= 1 {
                assert(same_node(a.operands@[0], b.operands@[0]));
                lemma_spec_match_same_node(*s.matcher, a.operands@[0], b.operands@[0]);
            }
            assert(m.spec_match(a) == m.spec_match(b)) by {
                reveal_with_fuel(InstMatcher::spec_match, 2);
                reveal_with_fuel(crate::matchers::other::ExtractValueInstMatcher::spec_match, 2);
            }
        },
        InstMatcher::Intrinsic(_) => {
            if a.callee is Some && b.callee is Some {
                assert(same_node(*a.callee->0, *b.callee->0)) by {
                    reveal_with_fuel(same_node, 2);
                }
                assert(a.callee->0.intrinsic_id == b.callee->0.intrinsic_id
                    && a.callee->0.name@ == b.callee->0.name@) by {
                    reveal_with_fuel(same_node, 2);
                }
            }
            assert(m.spec_match(a) == m.spec_match(b));
        },
        InstMatcher::Throw(_) => {
            if a.callee is Some && b.callee is Some {
                assert(a.callee->0.name@ == b.callee->0.name@) by {
                    reveal_with_fuel(same_node, 2);
                }
            }
            assert(m.spec_match(a) == m.spec_match(b));
        },
        InstMatcher::Rethrow(_) => {
            if a.callee is Some && b.callee is Some {
                assert(a.callee->0.name@ == b.callee->0.name@) by {
                    reveal_with_fuel(same_node, 2);
                }
            }
            assert(m.spec_match(a) == m.spec_match(b));
        },
        InstMatcher::OperandBundle(s) => {
            let target = s.name@;
            if exists|i: int|
                0 <= i < a.operand_bundles@.len() && (#[trigger] a.operand_bundles@[i])@
                    == target {
                let i = choose|i: int|
                    0 <= i < a.operand_bundles@.len() && (#[trigger] a.operand_bundles@[i])@
                        == target;
                assert(a.operand_bundles@[i]@ == b.operand_bundles@[i]@);
                assert(b.operand_bundles@[i]@ == target);
            }
            if exists|i: int|
                0 <= i < b.operand_bundles@.len() && (#[trigger] b.operand_bundles@[i])@
                    == target {
                let i = choose|i: int|
                    0 <= i < b.operand_bundles@.len() && (#[trigger] b.operand_bundles@[i])@
                        == target;
                assert(a.operand_bundles@[i]@ == b.operand_bundles@[i]@);
                assert(a.operand_bundles@[i]@ == target);
            }
            assert(m.spec_match(a) == m.spec_match(b));
        },
        InstMatcher::Usage(s) => {
            lemma_spec_match_same_node(*s.matcher, a, b);
            assert(m.spec_match(a) == m.spec_match(b)) by {
                reveal_with_fuel(InstMatcher::spec_match, 2);
                reveal_with_fuel(crate::matchers::usage::UsageInstMatcher::spec_match, 2);
            }
        },
        InstMatcher::Combine(c) => {
            lemma_count_matching_same_node(c.matchers@, a, b);
            assert(m.spec_match(a) == m.spec_match(b)) by {
                reveal_with_fuel(InstMatcher::spec_match, 2);
                reveal_with_fuel(CombineInstMatcher::spec_match, 2);
            }
        },
        InstMatcher::CombineBinary(c) => {
            lemma_spec_match_same_node(*c.lhs, a, b);
            lemma_spec_match_same_node(*c.rhs, a, b);
            assert(m.spec_match(a) == m.spec_match(b)) by {
                reveal_with_fuel(InstMatcher::spec_match, 2);
                reveal_with_fuel(
                    crate::matchers::combine::CombineBinaryInstMatcher::spec_match,
                    2,
                );
            }
        },
        InstMatcher::CombineUnary(c) => {
            lemma_spec_match_same_node(*c.rhs, a, b);
            assert(m.spec_match(a) == m.spec_match(b)) by {
                reveal_with_fuel(InstMatcher::spec_match, 2);
                reveal_with_fuel(
                    crate::matchers::combine::CombineUnaryInstMatcher::spec_match,
                    2,
                );
            }
        },
    }
}

/// Counting, too, sees only the observable content of the node.
pub proof fn lemma_count_matching_same_node(ms: Seq<InstMatcher>, a: IrNode, b: IrNode)
    requires
        same_node(a, b),
    ensures
        spec_count_matching(ms, a) == spec_count_matching(ms, b),
    decreases ms,
{
    if ms.len() > 0 {
        lemma_spec_match_same_node(ms.last(), a, b);
        lemma_count_matching_same_node(ms.drop_last(), a, b);
    }
}

} // verus!
