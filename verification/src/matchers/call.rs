//! Matchers for call instructions and calls to recognized intrinsics.

use vstd::prelude::*;

use crate::ir::IrNode;
use crate::ir::Opcode;
use crate::matchers::InstMatcher;

verus! {

/// Matches any call instruction; matching is opcode equality only.
pub struct CallInstMatcher;

impl CallInstMatcher {
    pub open spec fn spec_match(self, n: IrNode) -> bool {
        n.opcode == Opcode::Call
    }

    pub fn is_match(&self, node: &IrNode) -> (r: bool)
        ensures
            r == self.spec_match(*node),
    {
        node.opcode == Opcode::Call
    }

    pub fn create_call() -> (r: CallInstMatcher)
        ensures
            r == CallInstMatcher,
    {
        CallInstMatcher
    }
}

/// Matches a call to a recognized intrinsic: the callee must carry a non-zero
/// intrinsic identifier and, when a name was supplied, the callee's declared
/// name must equal it exactly.
pub struct IntrinsicInstMatcher {
    pub name: Option<String>,
}

impl IntrinsicInstMatcher {
    pub open spec fn spec_match(self, n: IrNode) -> bool {
        &&& n.opcode == Opcode::Call
        &&& n.callee matches Some(callee) && callee.intrinsic_id != 0 && match self.name {
            Some(nm) => nm@ == callee.name@,
            None => true,
        }
    }

    pub fn is_match(&self, node: &IrNode) -> (r: bool)
        ensures
            r == self.spec_match(*node),
    {
        if node.opcode != Opcode::Call {
            return false;
        }
        match &node.callee {
            Some(callee) => {
                if callee.intrinsic_id == 0 {
                    return false;
                }
                match &self.name {
                    Some(nm) => *nm == callee.name,
                    None => true,
                }
            },
            None => false,
        }
    }

    pub fn create_call(name: Option<String>) -> (r: IntrinsicInstMatcher)
        ensures
            r.name == name,
    {
        IntrinsicInstMatcher { name }
    }
}

} // verus!
