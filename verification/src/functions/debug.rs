//! The debug-location matcher builtins.

use vstd::prelude::*;

use crate::functions::entry_is;
use crate::functions::name_is;
use crate::functions::sig1;
use crate::functions::ParamType;
use crate::functions::ScalarType;
use crate::functions::Signature;
use crate::ir::values::InstMatcherValue;
use crate::ir::values::QueryValue;
use crate::matchers::debug::DebugInfoColumnMatcher;
use crate::matchers::debug::DebugInfoLineMatcher;
use crate::matchers::InstMatcher;

verus! {

/// Which debug-location builtin a name picks.
#[derive(Clone, Copy, PartialEq, Eq, Structural, Debug)]
pub enum DebugBuiltin {
    Line,
    Column,
}

/// The builtin a name of this family stands for.
pub open spec fn spec_debug_builtin(name: Seq<char>) -> Option<DebugBuiltin> {
    if name == "m_dbg_line"@ {
        Some(DebugBuiltin::Line)
    } else if name == "m_dbg_column"@ {
        Some(DebugBuiltin::Column)
    } else {
        None
    }
}

/// Look a name of this family up.
pub fn debug_builtin(name: &String) -> (r: Option<DebugBuiltin>)
    ensures
        r == spec_debug_builtin(name@),
{
    if name_is(name, "m_dbg_line") {
        Some(DebugBuiltin::Line)
    } else if name_is(name, "m_dbg_column") {
        Some(DebugBuiltin::Column)
    } else {
        None
    }
}

/// What a construction call of this family returns: the integer argument,
/// truncated to thirty-two bits, becomes the target coordinate.
pub open spec fn debug_matcher_result(
    kind: DebugBuiltin,
    vals: Seq<QueryValue>,
    r: Option<QueryValue>,
) -> bool {
    if vals.len() >= 1 && vals[0] is Int {
        match kind {
            DebugBuiltin::Line => r matches Some(QueryValue::InstMatcher(v)) && v.matcher matches
                InstMatcher::DebugLine(m) && m.line == vals[0]->Int_0 as u32,
            DebugBuiltin::Column => r matches Some(QueryValue::InstMatcher(v)) && v.matcher matches
                InstMatcher::DebugColumn(m) && m.column == vals[0]->Int_0 as u32,
        }
    } else {
        r is None
    }
}

/// Build a debug-location matcher value from a checked argument list.
pub fn build_debug_matcher(kind: DebugBuiltin, values: Vec<QueryValue>) -> (r: Option<QueryValue>)
    ensures
        debug_matcher_result(kind, values@, r),
{
    let mut values = values;
    if values.len() == 0 {
        return None;
    }
    let first = values.remove(0);
    match first {
        QueryValue::Int(v) => {
            let coordinate: u32 = #[verifier::truncate] (v as u32);
            match kind {
                DebugBuiltin::Line => Some(
                    QueryValue::InstMatcher(
                        InstMatcherValue {
                            matcher: InstMatcher::DebugLine(
                                DebugInfoLineMatcher { line: coordinate },
                            ),
                        },
                    ),
                ),
                DebugBuiltin::Column => Some(
                    QueryValue::InstMatcher(
                        InstMatcherValue {
                            matcher: InstMatcher::DebugColumn(
                                DebugInfoColumnMatcher { column: coordinate },
                            ),
                        },
                    ),
                ),
            }
        },
        _ => None,
    }
}

/// Whether the published table holds this family's rows, starting at `base`: the debug-location builtins.
pub open spec fn debug_signature_entries_at(m: Seq<(String, Signature)>, base: int) -> bool {
    &&& entry_is(m, base + 0, "m_dbg_line"@, seq![ParamType::Plain(ScalarType::Int)], ScalarType::InstMatcher)
    &&& entry_is(m, base + 1, "m_dbg_column"@, seq![ParamType::Plain(ScalarType::Int)], ScalarType::InstMatcher)
}

/// Publish this family's signatures.
pub fn register_debug_inst_matchers_function_signatures(map: &mut Vec<(String, Signature)>)
    ensures
        final(map)@.len() == old(map)@.len() + 2,
        forall|i: int| 0 <= i < old(map)@.len() ==> final(map)@[i] == old(map)@[i],
        debug_signature_entries_at(final(map)@, old(map)@.len() as int),
{
    map.push(("m_dbg_line".to_owned(), sig1(ParamType::Plain(ScalarType::Int), ScalarType::InstMatcher)));
    map.push(("m_dbg_column".to_owned(), sig1(ParamType::Plain(ScalarType::Int), ScalarType::InstMatcher)));
}

} // verus!
