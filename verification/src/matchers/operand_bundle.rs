//! Matcher over the operand bundles attached to an instruction.

use vstd::prelude::*;

use crate::ir::IrNode;

verus! {

/// Matches an instruction that carries an operand bundle whose tag equals
/// the target name.
pub struct OperandBundleNameMatcher {
    pub name: String,
}

impl OperandBundleNameMatcher {
    pub open spec fn spec_match(self, n: IrNode) -> bool {
        exists|i: int|
            0 <= i < n.operand_bundles@.len() && n.operand_bundles@[i]@ == self.name@
    }

    pub fn is_match(&self, node: &IrNode) -> (r: bool)
        ensures
            r == self.spec_match(*node),
    {
        let mut i: usize = 0;
        while i < node.operand_bundles.len()
            invariant
                i <= node.operand_bundles@.len(),
                forall|j: int| 0 <= j < i ==> node.operand_bundles@[j]@ != self.name@,
            decreases node.operand_bundles@.len() - i,
        {
            if node.operand_bundles[i] == self.name {
                return true;
            }
            i = i + 1;
        }
        false
    }

    pub fn create(name: String) -> (r: OperandBundleNameMatcher)
        ensures
            r.name == name,
    {
        OperandBundleNameMatcher { name }
    }
}

} // verus!
