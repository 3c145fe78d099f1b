//! The bridge between matcher trees and the host query language's values.
//!
//! A matcher value carries one matcher tree and nothing else; the host's
//! logical operators on matcher-typed values are the four operations below,
//! each of which builds a new value whose tree combines the old ones.

use vstd::prelude::*;

use crate::ir::IrNode;
use crate::ir::TypeNode;
use crate::matchers::combine::CombineBinaryInstMatcher;
use crate::matchers::combine::CombineBinaryMatcherKind;
use crate::matchers::combine::CombineUnaryInstMatcher;
use crate::matchers::types::TypeMatcher;
use crate::matchers::InstMatcher;

verus! {

/// A host-language value carrying one instruction matcher tree.
pub struct InstMatcherValue {
    pub matcher: InstMatcher,
}

impl InstMatcherValue {
    /// Evaluate the carried tree against a node; the only point where a
    /// matcher value crosses back into a plain boolean.
    pub fn is_match(&self, node: &IrNode) -> (r: bool)
        ensures
            r == self.matcher.spec_match(*node),
    {
        self.matcher.is_match(node)
    }

    /// The logical-not of this matcher value: a value whose tree negates the
    /// carried tree on every node.
    pub fn bang_op(&self) -> (r: InstMatcherValue)
        ensures
            forall|n: IrNode|
                #[trigger] r.matcher.spec_match(n) == !self.matcher.spec_match(n),
    {
        let inner = self.matcher.duplicate();
        let res = InstMatcherValue {
            matcher: InstMatcher::CombineUnary(CombineUnaryInstMatcher { rhs: Box::new(inner) }),
        };
        proof {
            assert forall|n: IrNode|
                #[trigger] res.matcher.spec_match(n) == !self.matcher.spec_match(n) by {
                reveal_with_fuel(InstMatcher::spec_match, 2);
                reveal_with_fuel(CombineUnaryInstMatcher::spec_match, 2);
                assert(inner.spec_match(n) == self.matcher.spec_match(n));
            }
        }
        res
    }

    /// The logical-or of two matcher values.
    pub fn logical_or_op(&self, other: &InstMatcherValue) -> (r: InstMatcherValue)
        ensures
            forall|n: IrNode|
                #[trigger] r.matcher.spec_match(n) == (self.matcher.spec_match(n)
                    || other.matcher.spec_match(n)),
    {
        self.combine_with(other, CombineBinaryMatcherKind::Or)
    }

    /// The logical-and of two matcher values.
    pub fn logical_and_op(&self, other: &InstMatcherValue) -> (r: InstMatcherValue)
        ensures
            forall|n: IrNode|
                #[trigger] r.matcher.spec_match(n) == (self.matcher.spec_match(n)
                    && other.matcher.spec_match(n)),
    {
        self.combine_with(other, CombineBinaryMatcherKind::And)
    }

    /// The logical-xor of two matcher values.
    pub fn logical_xor_op(&self, other: &InstMatcherValue) -> (r: InstMatcherValue)
        ensures
            forall|n: IrNode|
                #[trigger] r.matcher.spec_match(n) == (self.matcher.spec_match(n)
                    != other.matcher.spec_match(n)),
    {
        self.combine_with(other, CombineBinaryMatcherKind::Xor)
    }

    /// Combine two matcher values under one boolean connective.
    pub fn combine_with(&self, other: &InstMatcherValue, kind: CombineBinaryMatcherKind) -> (r:
        InstMatcherValue)
        ensures
            forall|n: IrNode|
                #[trigger] r.matcher.spec_match(n) == match kind {
                    CombineBinaryMatcherKind::And => self.matcher.spec_match(n)
                        && other.matcher.spec_match(n),
                    CombineBinaryMatcherKind::Or => self.matcher.spec_match(n)
                        || other.matcher.spec_match(n),
                    CombineBinaryMatcherKind::Xor => self.matcher.spec_match(n)
                        != other.matcher.spec_match(n),
                },
    {
        let lhs = self.matcher.duplicate();
        let rhs = other.matcher.duplicate();
        let res = InstMatcherValue {
            matcher: InstMatcher::CombineBinary(
                CombineBinaryInstMatcher { lhs: Box::new(lhs), rhs: Box::new(rhs), kind },
            ),
        };
        proof {
            assert forall|n: IrNode|
                #[trigger] res.matcher.spec_match(n) == match kind {
                    CombineBinaryMatcherKind::And => self.matcher.spec_match(n)
                        && other.matcher.spec_match(n),
                    CombineBinaryMatcherKind::Or => self.matcher.spec_match(n)
                        || other.matcher.spec_match(n),
                    CombineBinaryMatcherKind::Xor => self.matcher.spec_match(n)
                        != other.matcher.spec_match(n),
                } by {
                reveal_with_fuel(InstMatcher::spec_match, 2);
                reveal_with_fuel(CombineBinaryInstMatcher::spec_match, 2);
                assert(lhs.spec_match(n) == self.matcher.spec_match(n));
                assert(rhs.spec_match(n) == other.matcher.spec_match(n));
            }
        }
        res
    }
}

/// A host-language value carrying one type matcher tree.
pub struct TypeMatcherValue {
    pub matcher: TypeMatcher,
}

impl TypeMatcherValue {
    /// Evaluate the carried tree against a type.
    pub fn is_match(&self, ty: &TypeNode) -> (r: bool)
        ensures
            r == self.matcher.spec_match(*ty),
    {
        self.matcher.is_match(ty)
    }
}

/// A plain host-language value, as the builtin registry sees it: the closed
/// vocabulary over which query-time construction functions operate.
pub enum QueryValue {
    Bool(bool),
    Int(i64),
    Text(String),
    IntList(Vec<i64>),
    Inst(IrNode),
    InstMatcher(InstMatcherValue),
    TypeMatcher(TypeMatcherValue),
    Null,
}

} // verus!
