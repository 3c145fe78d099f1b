//! Matchers for exception-handling shapes: invoke, landing pad, resume, and
//! calls to the fixed runtime throw and rethrow support functions.

use vstd::prelude::*;

use crate::ir::IrNode;
use crate::ir::Opcode;

verus! {

/// Matches a landing pad instruction.
pub struct LandingPadInstMatcher;

impl LandingPadInstMatcher {
    pub open spec fn spec_match(self, n: IrNode) -> bool {
        n.opcode == Opcode::LandingPad
    }

    pub fn is_match(&self, node: &IrNode) -> (r: bool)
        ensures
            r == self.spec_match(*node),
    {
        node.opcode == Opcode::LandingPad
    }
}

/// Matches an invoke instruction.
pub struct InvokeInstMatcher;

impl InvokeInstMatcher {
    pub open spec fn spec_match(self, n: IrNode) -> bool {
        n.opcode == Opcode::Invoke
    }

    pub fn is_match(&self, node: &IrNode) -> (r: bool)
        ensures
            r == self.spec_match(*node),
    {
        node.opcode == Opcode::Invoke
    }
}

/// Matches a resume instruction.
pub struct ResumeInstMatcher;

impl ResumeInstMatcher {
    pub open spec fn spec_match(self, n: IrNode) -> bool {
        n.opcode == Opcode::Resume
    }

    pub fn is_match(&self, node: &IrNode) -> (r: bool)
        ensures
            r == self.spec_match(*node),
    {
        node.opcode == Opcode::Resume
    }
}

/// Whether the node is a call or invoke whose callee bears the given name.
pub open spec fn spec_calls_named(n: IrNode, name: Seq<char>) -> bool {
    &&& (n.opcode == Opcode::Call || n.opcode == Opcode::Invoke)
    &&& n.callee matches Some(callee) && callee.name@ == name
}

/// Whether the node is a call or invoke whose callee bears the given name.
pub(crate) fn is_call_or_invoke_inst_with_specific_name(node: &IrNode, name: &str) -> (r: bool)
    ensures
        r == spec_calls_named(*node, name@),
{
    if node.opcode != Opcode::Call && node.opcode != Opcode::Invoke {
        return false;
    }
    match &node.callee {
        Some(callee) => {
            let target: String = name.to_owned();
            callee.name == target
        },
        None => false,
    }
}

/// Matches a call or invoke of the runtime throw support function.
pub struct ThrowInstMatcher;

impl ThrowInstMatcher {
    pub open spec fn spec_match(self, n: IrNode) -> bool {
        spec_calls_named(n, "__cxa_throw"@)
    }

    pub fn is_match(&self, node: &IrNode) -> (r: bool)
        ensures
            r == self.spec_match(*node),
    {
        is_call_or_invoke_inst_with_specific_name(node, "__cxa_throw")
    }
}

/// Matches a call or invoke of the runtime rethrow support function.
pub struct RethrowInstMatcher;

impl RethrowInstMatcher {
    pub open spec fn spec_match(self, n: IrNode) -> bool {
        spec_calls_named(n, "__cxa_rethrow"@)
    }

    pub fn is_match(&self, node: &IrNode) -> (r: bool)
        ensures
            r == self.spec_match(*node),
    {
        is_call_or_invoke_inst_with_specific_name(node, "__cxa_rethrow")
    }
}

} // verus!
