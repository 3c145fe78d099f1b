//! Boolean combinators over matchers: the n-ary one-of / all-of / none-of
//! counting forms, the binary and / or / xor forms, and negation.

use vstd::prelude::*;

use crate::ir::IrNode;
use crate::matchers::InstMatcher;

verus! {

/// How many of the matchers in a list match a given node.
pub open spec fn spec_count_matching(ms: Seq<InstMatcher>, n: IrNode) -> nat
    decreases ms,
{
    if ms.len() == 0 {
        0
    } else {
        spec_count_matching(ms.drop_last(), n) + if ms.last().spec_match(n) {
            1nat
        } else {
            0nat
        }
    }
}

/// Counting sees only each matcher's answer: two lists whose members answer
/// alike on a node are counted alike.
pub proof fn lemma_count_matching_congruent(ms1: Seq<InstMatcher>, ms2: Seq<InstMatcher>, n: IrNode)
    requires
        ms1.len() == ms2.len(),
        forall|i: int| 0 <= i < ms1.len() ==> #[trigger] ms1[i].spec_match(n) == ms2[i].spec_match(
            n,
        ),
    ensures
        spec_count_matching(ms1, n) == spec_count_matching(ms2, n),
    decreases ms1.len(),
{
    if ms1.len() > 0 {
        assert(ms1[ms1.len() - 1].spec_match(n) == ms2[ms1.len() - 1].spec_match(n));
        lemma_count_matching_congruent(ms1.drop_last(), ms2.drop_last(), n);
    }
}

/// The counting rule of an n-ary combinator.
#[derive(Clone, Copy, PartialEq, Eq, Structural, Debug)]
pub enum CombineMatcherKind {
    OneOf,
    AllOf,
    NoneOf,
}

/// An n-ary combinator over a list of matchers.
///
/// `AllOf` holds when every matcher in the list matches and `NoneOf` when no
/// matcher does, so both hold vacuously of the empty list.  `OneOf` holds
/// when *more than one* matcher matches — the rule the query language
/// documents, kept as-is although it reads oddly against the name — so it
/// never holds of the empty list.
pub struct CombineInstMatcher {
    pub matchers: Vec<InstMatcher>,
    pub matcher_kind: CombineMatcherKind,
}

impl CombineInstMatcher {
    pub open spec fn spec_match(self, n: IrNode) -> bool
        decreases self,
    {
        match self.matcher_kind {
            CombineMatcherKind::OneOf => spec_count_matching(self.matchers@, n) > 1,
            CombineMatcherKind::AllOf => spec_count_matching(self.matchers@, n)
                == self.matchers@.len(),
            CombineMatcherKind::NoneOf => spec_count_matching(self.matchers@, n) == 0,
        }
    }

    pub fn is_match(&self, node: &IrNode) -> (r: bool)
        ensures
            r == self.spec_match(*node),
        decreases self,
    {
        let mut count: usize = 0;
        let mut i: usize = 0;
        while i < self.matchers.len()
            invariant
                i <= self.matchers@.len(),
                count == spec_count_matching(self.matchers@.subrange(0, i as int), *node),
                count <= i,
            decreases self.matchers@.len() - i,
        {
            proof {
                assert(self.matchers@.subrange(0, i + 1).drop_last() =~= self.matchers@.subrange(
                    0,
                    i as int,
                ));
                assert(self.matchers@.subrange(0, i + 1).last() == self.matchers@[i as int]);
            }
            if self.matchers[i].is_match(node) {
                count = count + 1;
            }
            i = i + 1;
        }
        proof {
            assert(self.matchers@.subrange(0, self.matchers@.len() as int) =~= self.matchers@);
        }
        match self.matcher_kind {
            CombineMatcherKind::OneOf => count > 1,
            CombineMatcherKind::AllOf => count == self.matchers.len(),
            CombineMatcherKind::NoneOf => count == 0,
        }
    }

    /// More than one of the given matchers must match.
    pub fn create_one_of(matchers: Vec<InstMatcher>) -> (r: CombineInstMatcher)
        ensures
            r.matchers == matchers,
            r.matcher_kind == CombineMatcherKind::OneOf,
    {
        CombineInstMatcher { matchers, matcher_kind: CombineMatcherKind::OneOf }
    }

    /// Every one of the given matchers must match.
    pub fn create_all_of(matchers: Vec<InstMatcher>) -> (r: CombineInstMatcher)
        ensures
            r.matchers == matchers,
            r.matcher_kind == CombineMatcherKind::AllOf,
    {
        CombineInstMatcher { matchers, matcher_kind: CombineMatcherKind::AllOf }
    }

    /// None of the given matchers may match.
    pub fn create_none_of(matchers: Vec<InstMatcher>) -> (r: CombineInstMatcher)
        ensures
            r.matchers == matchers,
            r.matcher_kind == CombineMatcherKind::NoneOf,
    {
        CombineInstMatcher { matchers, matcher_kind: CombineMatcherKind::NoneOf }
    }
}

/// The boolean connective of a binary combinator.
#[derive(Clone, Copy, PartialEq, Eq, Structural, Debug)]
pub enum CombineBinaryMatcherKind {
    And,
    Or,
    Xor,
}

/// A binary boolean combination of two matcher results.
pub struct CombineBinaryInstMatcher {
    pub lhs: Box<InstMatcher>,
    pub rhs: Box<InstMatcher>,
    pub kind: CombineBinaryMatcherKind,
}

impl CombineBinaryInstMatcher {
    pub open spec fn spec_match(self, n: IrNode) -> bool
        decreases self,
    {
        match self.kind {
            CombineBinaryMatcherKind::And => self.lhs.spec_match(n) && self.rhs.spec_match(n),
            CombineBinaryMatcherKind::Or => self.lhs.spec_match(n) || self.rhs.spec_match(n),
            CombineBinaryMatcherKind::Xor => self.lhs.spec_match(n) != self.rhs.spec_match(n),
        }
    }

    pub fn is_match(&self, node: &IrNode) -> (r: bool)
        ensures
            r == self.spec_match(*node),
        decreases self,
    {
        match self.kind {
            CombineBinaryMatcherKind::And => self.lhs.is_match(node) && self.rhs.is_match(node),
            CombineBinaryMatcherKind::Or => self.lhs.is_match(node) || self.rhs.is_match(node),
            CombineBinaryMatcherKind::Xor => self.lhs.is_match(node) ^ self.rhs.is_match(node),
        }
    }

    pub fn create_and(lhs: InstMatcher, rhs: InstMatcher) -> (r: CombineBinaryInstMatcher)
        ensures
            *r.lhs == lhs,
            *r.rhs == rhs,
            r.kind == CombineBinaryMatcherKind::And,
    {
        CombineBinaryInstMatcher {
            lhs: Box::new(lhs),
            rhs: Box::new(rhs),
            kind: CombineBinaryMatcherKind::And,
        }
    }

    pub fn create_or(lhs: InstMatcher, rhs: InstMatcher) -> (r: CombineBinaryInstMatcher)
        ensures
            *r.lhs == lhs,
            *r.rhs == rhs,
            r.kind == CombineBinaryMatcherKind::Or,
    {
        CombineBinaryInstMatcher {
            lhs: Box::new(lhs),
            rhs: Box::new(rhs),
            kind: CombineBinaryMatcherKind::Or,
        }
    }

    pub fn create_xor(lhs: InstMatcher, rhs: InstMatcher) -> (r: CombineBinaryInstMatcher)
        ensures
            *r.lhs == lhs,
            *r.rhs == rhs,
            r.kind == CombineBinaryMatcherKind::Xor,
    {
        CombineBinaryInstMatcher {
            lhs: Box::new(lhs),
            rhs: Box::new(rhs),
            kind: CombineBinaryMatcherKind::Xor,
        }
    }
}

/// Logical negation of a matcher.
pub struct CombineUnaryInstMatcher {
    pub rhs: Box<InstMatcher>,
}

impl CombineUnaryInstMatcher {
    pub open spec fn spec_match(self, n: IrNode) -> bool
        decreases self,
    {
        !self.rhs.spec_match(n)
    }

    pub fn is_match(&self, node: &IrNode) -> (r: bool)
        ensures
            r == self.spec_match(*node),
        decreases self,
    {
        !self.rhs.is_match(node)
    }

    pub fn create_not(rhs: InstMatcher) -> (r: CombineUnaryInstMatcher)
        ensures
            *r.rhs == rhs,
    {
        CombineUnaryInstMatcher { rhs: Box::new(rhs) }
    }
}

} // verus!
