//! Matcher for `getelementptr` instructions.

use vstd::prelude::*;

use crate::ir::IrNode;
use crate::ir::Opcode;

verus! {

/// Matches a `getelementptr` instruction.
pub struct GetElementPtrMatcher;

impl GetElementPtrMatcher {
    pub open spec fn spec_match(self, n: IrNode) -> bool {
        n.opcode == Opcode::GetElementPtr
    }

    pub fn is_match(&self, node: &IrNode) -> (r: bool)
        ensures
            r == self.spec_match(*node),
    {
        node.opcode == Opcode::GetElementPtr
    }
}

} // verus!
