//! Matchers for cast instructions.  The `Ext` pseudo-kind accepts any of the
//! widening casts (`zext`, `sext`, `fpext`); the `Any` kind accepts every
//! cast opcode.

use vstd::prelude::*;

use crate::ir::IrNode;
use crate::ir::Opcode;
use crate::matchers::InstMatcher;

verus! {

/// Which cast opcodes a [`CastInstMatcher`] accepts.
#[derive(Clone, Copy, PartialEq, Eq, Structural, Debug)]
pub enum CastMatcherKind {
    Any,
    Trunc,
    IntToPtr,
    PtrToInt,
    FPToUI,
    FPToSI,
    FPTrunc,
    Ext,
    FPExt,
    ZExt,
    SExt,
    BitCast,
    AddrSpaceCast,
}

impl CastMatcherKind {
    /// Whether an instruction opcode falls under this cast kind.
    pub open spec fn spec_matches_opcode(self, op: Opcode) -> bool {
        match op {
            Opcode::Trunc => self is Any || self is Trunc,
            Opcode::FPToUI => self is Any || self is FPToUI,
            Opcode::FPToSI => self is Any || self is FPToSI,
            Opcode::FPTrunc => self is Any || self is FPTrunc,
            Opcode::FPExt => self is Any || self is Ext || self is FPExt,
            Opcode::ZExt => self is Any || self is Ext || self is ZExt,
            Opcode::SExt => self is Any || self is Ext || self is SExt,
            Opcode::IntToPtr => self is Any || self is IntToPtr,
            Opcode::PtrToInt => self is Any || self is PtrToInt,
            Opcode::BitCast => self is Any || self is BitCast,
            Opcode::AddrSpaceCast => self is Any || self is AddrSpaceCast,
            _ => false,
        }
    }

    pub fn matches_opcode(&self, op: Opcode) -> (r: bool)
        ensures
            r == self.spec_matches_opcode(op),
    {
        match op {
            Opcode::Trunc => matches!(self, CastMatcherKind::Any | CastMatcherKind::Trunc),
            Opcode::FPToUI => matches!(self, CastMatcherKind::Any | CastMatcherKind::FPToUI),
            Opcode::FPToSI => matches!(self, CastMatcherKind::Any | CastMatcherKind::FPToSI),
            Opcode::FPTrunc => matches!(self, CastMatcherKind::Any | CastMatcherKind::FPTrunc),
            Opcode::FPExt => matches!(
                self,
                CastMatcherKind::Any | CastMatcherKind::Ext | CastMatcherKind::FPExt,
            ),
            Opcode::ZExt => matches!(
                self,
                CastMatcherKind::Any | CastMatcherKind::Ext | CastMatcherKind::ZExt,
            ),
            Opcode::SExt => matches!(
                self,
                CastMatcherKind::Any | CastMatcherKind::Ext | CastMatcherKind::SExt,
            ),
            Opcode::IntToPtr => matches!(self, CastMatcherKind::Any | CastMatcherKind::IntToPtr),
            Opcode::PtrToInt => matches!(self, CastMatcherKind::Any | CastMatcherKind::PtrToInt),
            Opcode::BitCast => matches!(self, CastMatcherKind::Any | CastMatcherKind::BitCast),
            Opcode::AddrSpaceCast => matches!(
                self,
                CastMatcherKind::Any | CastMatcherKind::AddrSpaceCast,
            ),
            _ => false,
        }
    }
}

/// Matches a cast instruction whose opcode falls under the kind, and whose
/// sole source operand matches the nested matcher.
pub struct CastInstMatcher {
    pub value_matcher: Box<InstMatcher>,
    pub kind: CastMatcherKind,
}

impl CastInstMatcher {
    pub open spec fn spec_match(self, n: IrNode) -> bool
        decreases self,
    {
        &&& self.kind.spec_matches_opcode(n.opcode)
        &&& n.operands@.len() >= 1
        &&& self.value_matcher.spec_match(n.operands@[0])
    }

    pub fn is_match(&self, node: &IrNode) -> (r: bool)
        ensures
            r == self.spec_match(*node),
        decreases self,
    {
        if !self.kind.matches_opcode(node.opcode) {
            return false;
        }
        if node.operands.len() < 1 {
            return false;
        }
        self.value_matcher.is_match(&node.operands[0])
    }

    /// Holds when `r` is a cast matcher built from exactly these parts.
    pub open spec fn spec_created(r: InstMatcher, kind: CastMatcherKind, inner: InstMatcher) -> bool {
        r matches InstMatcher::Cast(m) && *m.value_matcher == inner && m.kind == kind
    }

    pub fn create(kind: CastMatcherKind, value_matcher: InstMatcher) -> (r: InstMatcher)
        ensures
            Self::spec_created(r, kind, value_matcher),
    {
        InstMatcher::Cast(CastInstMatcher { value_matcher: Box::new(value_matcher), kind })
    }
}

} // verus!
