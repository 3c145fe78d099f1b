//! Shaping of instruction rows for the external query engine.
//!
//! The engine asks for a list of selected columns; for each instruction this
//! module builds the row of values those columns denote.  Walking the parsed
//! modules themselves is the module-owning collaborator's work.

use vstd::prelude::*;

use crate::ir::same_node;
use crate::ir::values::QueryValue;
use crate::ir::IrNode;

verus! {

/// The provider of instruction rows: it remembers which files' modules the
/// rows are drawn from.
pub struct LLVMIRDataProvider {
    paths: Vec<String>,
}

impl LLVMIRDataProvider {
    /// The files this provider draws rows from.
    pub closed spec fn spec_paths(self) -> Seq<String> {
        self.paths@
    }

    pub fn new(paths: Vec<String>) -> (r: Self)
        ensures
            r.spec_paths() == paths@,
    {
        Self { paths }
    }

    pub fn paths(&self) -> (r: &Vec<String>)
        ensures
            r@ == self.spec_paths(),
    {
        &self.paths
    }
}

/// What one cell of an instruction row holds for a given column name: the
/// function name, the block name, the instruction node or the file name; any
/// other column is null.  An instruction cell holds a copy with the same
/// observable content as the instruction, which by the engine's congruence
/// law ([`crate::laws::lemma_spec_match_same_node`]) every matcher treats
/// exactly as the instruction itself.
pub open spec fn cell_is(
    cell: QueryValue,
    column: Seq<char>,
    function_name: Seq<char>,
    basic_block_name: Seq<char>,
    inst: IrNode,
    file_name: Seq<char>,
) -> bool {
    if column == "function_name"@ {
        cell matches QueryValue::Text(s) && s@ == function_name
    } else if column == "basic_block_name"@ {
        cell matches QueryValue::Text(s) && s@ == basic_block_name
    } else if column == "instruction"@ {
        cell matches QueryValue::Inst(n) && same_node(n, inst)
    } else if column == "file_name"@ {
        cell matches QueryValue::Text(s) && s@ == file_name
    } else {
        cell is Null
    }
}

/// Build the row of one instruction for the selected columns.
pub fn build_instruction_row(
    selected_columns: &Vec<String>,
    function_name: &String,
    basic_block_name: &String,
    instruction: &IrNode,
    file_name: &String,
) -> (r: Vec<QueryValue>)
    ensures
        r@.len() == selected_columns@.len(),
        forall|i: int|
            0 <= i < r@.len() ==> cell_is(
                #[trigger] r@[i],
                selected_columns@[i]@,
                function_name@,
                basic_block_name@,
                *instruction,
                file_name@,
            ),
{
    let function_name_column: String = "function_name".to_owned();
    let basic_block_name_column: String = "basic_block_name".to_owned();
    let instruction_column: String = "instruction".to_owned();
    let file_name_column: String = "file_name".to_owned();
    let mut r: Vec<QueryValue> = Vec::new();
    let mut k: usize = 0;
    while k < selected_columns.len()
        invariant
            k <= selected_columns@.len(),
            r@.len() == k,
            function_name_column@ == "function_name"@,
            basic_block_name_column@ == "basic_block_name"@,
            instruction_column@ == "instruction"@,
            file_name_column@ == "file_name"@,
            forall|i: int|
                0 <= i < k ==> cell_is(
                    #[trigger] r@[i],
                    selected_columns@[i]@,
                    function_name@,
                    basic_block_name@,
                    *instruction,
                    file_name@,
                ),
        decreases selected_columns@.len() - k,
    {
        let column = &selected_columns[k];
        if *column == function_name_column {
            r.push(QueryValue::Text(function_name.clone()));
        } else if *column == basic_block_name_column {
            r.push(QueryValue::Text(basic_block_name.clone()));
        } else if *column == instruction_column {
            r.push(QueryValue::Inst(instruction.clone()));
        } else if *column == file_name_column {
            r.push(QueryValue::Text(file_name.clone()));
        } else {
            r.push(QueryValue::Null);
        }
        k = k + 1;
    }
    r
}

} // verus!
