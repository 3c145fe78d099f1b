//! Structural matchers: any-node, poison, labels, arguments, returns,
//! unreachable, extract-value, operand counts and node-type matching.

use vstd::prelude::*;

use crate::ir::IrNode;
use crate::ir::Opcode;
use crate::ir::ValueKind;
use crate::matchers::types::TypeMatcher;
use crate::matchers::InstMatcher;

verus! {

/// Matches every node; the default side of partially-specified matchers.
pub struct AnyInstMatcher;

impl AnyInstMatcher {
    pub open spec fn spec_match(self, n: IrNode) -> bool {
        true
    }

    pub fn is_match(&self, node: &IrNode) -> (r: bool)
        ensures
            r == self.spec_match(*node),
    {
        true
    }
}

/// Matches the node's own type against a nested type matcher.
pub struct InstTypeMatcher {
    pub matcher: TypeMatcher,
}

impl InstTypeMatcher {
    pub open spec fn spec_match(self, n: IrNode) -> bool {
        self.matcher.spec_match(n.ty)
    }

    pub fn is_match(&self, node: &IrNode) -> (r: bool)
        ensures
            r == self.spec_match(*node),
    {
        self.matcher.is_match(&node.ty)
    }
}

/// Matches a poison value.
pub struct PoisonValueMatcher;

impl PoisonValueMatcher {
    pub open spec fn spec_match(self, n: IrNode) -> bool {
        n.value_kind == ValueKind::Poison
    }

    pub fn is_match(&self, node: &IrNode) -> (r: bool)
        ensures
            r == self.spec_match(*node),
    {
        node.value_kind == ValueKind::Poison
    }
}

/// Matches a poison value; the older name of [`PoisonValueMatcher`], kept so
/// both spellings of the interface remain available.
pub struct PoisonInstMatcher;

impl PoisonInstMatcher {
    pub open spec fn spec_match(self, n: IrNode) -> bool {
        n.value_kind == ValueKind::Poison
    }

    pub fn is_match(&self, node: &IrNode) -> (r: bool)
        ensures
            r == self.spec_match(*node),
    {
        node.value_kind == ValueKind::Poison
    }
}

/// Matches a function argument: a supplied name must equal the node's name,
/// and a supplied type matcher must match the node's type.
pub struct ArgumentMatcher {
    pub name: Option<String>,
    pub type_matcher: Option<TypeMatcher>,
}

impl ArgumentMatcher {
    pub open spec fn spec_match(self, n: IrNode) -> bool {
        &&& n.value_kind == ValueKind::Argument
        &&& match self.name {
            Some(nm) => nm@ == n.name@,
            None => true,
        }
        &&& match self.type_matcher {
            Some(tm) => tm.spec_match(n.ty),
            None => true,
        }
    }

    pub fn is_match(&self, node: &IrNode) -> (r: bool)
        ensures
            r == self.spec_match(*node),
    {
        if node.value_kind != ValueKind::Argument {
            return false;
        }
        let name_matches = match &self.name {
            Some(nm) => *nm == node.name,
            None => true,
        };
        if !name_matches {
            return false;
        }
        match &self.type_matcher {
            Some(tm) => tm.is_match(&node.ty),
            None => true,
        }
    }
}

/// Matches a basic block, optionally of one specific name.
pub struct LabelInstMatcher {
    pub name: Option<String>,
}

impl LabelInstMatcher {
    pub open spec fn spec_match(self, n: IrNode) -> bool {
        &&& n.value_kind == ValueKind::BasicBlock
        &&& match self.name {
            Some(nm) => nm@ == n.name@,
            None => true,
        }
    }

    pub fn is_match(&self, node: &IrNode) -> (r: bool)
        ensures
            r == self.spec_match(*node),
    {
        if node.value_kind != ValueKind::BasicBlock {
            return false;
        }
        match &self.name {
            Some(nm) => *nm == node.name,
            None => true,
        }
    }
}

/// Matches a return instruction whose returned operand matches the nested
/// matcher.
pub struct ReturnInstMatcher {
    pub matcher: Box<InstMatcher>,
}

impl ReturnInstMatcher {
    pub open spec fn spec_match(self, n: IrNode) -> bool
        decreases self,
    {
        &&& n.opcode == Opcode::Ret
        &&& n.operands@.len() >= 1
        &&& self.matcher.spec_match(n.operands@[0])
    }

    pub fn is_match(&self, node: &IrNode) -> (r: bool)
        ensures
            r == self.spec_match(*node),
        decreases self,
    {
        if node.opcode != Opcode::Ret {
            return false;
        }
        if node.operands.len() < 1 {
            return false;
        }
        self.matcher.is_match(&node.operands[0])
    }
}

/// Matches an unreachable instruction.
pub struct UnreachableInstMatcher;

impl UnreachableInstMatcher {
    pub open spec fn spec_match(self, n: IrNode) -> bool {
        n.opcode == Opcode::Unreachable
    }

    pub fn is_match(&self, node: &IrNode) -> (r: bool)
        ensures
            r == self.spec_match(*node),
    {
        node.opcode == Opcode::Unreachable
    }
}

/// Matches an `extractvalue` instruction whose aggregate operand matches the
/// nested matcher and whose literal index path, when one was supplied, equals
/// the supplied list exactly.
pub struct ExtractValueInstMatcher {
    pub matcher: Box<InstMatcher>,
    pub indices: Option<Vec<i64>>,
}

impl ExtractValueInstMatcher {
    pub open spec fn spec_match(self, n: IrNode) -> bool
        decreases self,
    {
        &&& n.opcode == Opcode::ExtractValue
        &&& n.operands@.len() >= 1
        &&& self.matcher.spec_match(n.operands@[0])
        &&& match self.indices {
            Some(ix) => ix@ == n.extract_indices@,
            None => true,
        }
    }

    pub fn is_match(&self, node: &IrNode) -> (r: bool)
        ensures
            r == self.spec_match(*node),
        decreases self,
    {
        if node.opcode != Opcode::ExtractValue {
            return false;
        }
        if node.operands.len() < 1 {
            return false;
        }
        if !self.matcher.is_match(&node.operands[0]) {
            return false;
        }
        match &self.indices {
            Some(ix) => same_indices(ix, &node.extract_indices),
            None => true,
        }
    }
}

/// Whether two index paths are equal element for element.
fn same_indices(a: &Vec<i64>, b: &Vec<i64>) -> (r: bool)
    ensures
        r == (a@ == b@),
{
    if a.len() != b.len() {
        proof {
            assert(a@.len() != b@.len());
        }
        return false;
    }
    let mut i: usize = 0;
    while i < a.len()
        invariant
            i <= a@.len(),
            a@.len() == b@.len(),
            forall|j: int| 0 <= j < i ==> a@[j] == b@[j],
        decreases a@.len() - i,
    {
        if a[i] != b[i] {
            return false;
        }
        i = i + 1;
    }
    proof {
        assert(a@ =~= b@);
    }
    true
}

/// Matches an instruction with exactly the given number of operands.
pub struct OperandCountMatcher {
    pub count: i32,
}

impl OperandCountMatcher {
    pub open spec fn spec_match(self, n: IrNode) -> bool {
        self.count >= 0 && n.operands@.len() == self.count
    }

    pub fn is_match(&self, node: &IrNode) -> (r: bool)
        ensures
            r == self.spec_match(*node),
    {
        self.count >= 0 && node.operands.len() == self.count as usize
    }

    pub fn has_n_operands(count: i32) -> (r: OperandCountMatcher)
        ensures
            r.count == count,
    {
        OperandCountMatcher { count }
    }
}

} // verus!
