//! Matchers over an instruction's debug-location coordinates.

use vstd::prelude::*;

use crate::ir::IrNode;

verus! {

/// Matches an instruction whose debug-location line equals the target.
pub struct DebugInfoLineMatcher {
    pub line: u32,
}

impl DebugInfoLineMatcher {
    pub open spec fn spec_match(self, n: IrNode) -> bool {
        n.debug_line == self.line
    }

    pub fn is_match(&self, node: &IrNode) -> (r: bool)
        ensures
            r == self.spec_match(*node),
    {
        self.line == node.debug_line
    }
}

/// Matches an instruction whose debug-location column equals the target.
pub struct DebugInfoColumnMatcher {
    pub column: u32,
}

impl DebugInfoColumnMatcher {
    pub open spec fn spec_match(self, n: IrNode) -> bool {
        n.debug_column == self.column
    }

    pub fn is_match(&self, node: &IrNode) -> (r: bool)
        ensures
            r == self.spec_match(*node),
    {
        self.column == node.debug_column
    }
}

} // verus!
