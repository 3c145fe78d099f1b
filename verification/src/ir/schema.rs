//! The table schema this library publishes to the external query engine:
//! one logical table of instructions, with one row per instruction of every
//! function of every parsed module.

use vstd::prelude::*;

use crate::functions::ScalarType;

verus! {

/// The tables and their column names: the single `instructions` table.
pub fn llvm_tables_fields_names() -> (r: Vec<(String, Vec<String>)>)
    ensures
        r@.len() == 1,
        r@[0].0@ == "instructions"@,
        r@[0].1@.len() == 4,
        r@[0].1@[0]@ == "function_name"@,
        r@[0].1@[1]@ == "basic_block_name"@,
        r@[0].1@[2]@ == "instruction"@,
        r@[0].1@[3]@ == "file_name"@,
{
    let mut columns: Vec<String> = Vec::new();
    columns.push("function_name".to_owned());
    columns.push("basic_block_name".to_owned());
    columns.push("instruction".to_owned());
    columns.push("file_name".to_owned());
    let mut r: Vec<(String, Vec<String>)> = Vec::new();
    r.push(("instructions".to_owned(), columns));
    r
}

/// The value kind of each column of the `instructions` table.
pub fn llvm_tables_fields_types() -> (r: Vec<(String, ScalarType)>)
    ensures
        r@.len() == 4,
        r@[0].0@ == "function_name"@ && r@[0].1 == ScalarType::Text,
        r@[1].0@ == "basic_block_name"@ && r@[1].1 == ScalarType::Text,
        r@[2].0@ == "instruction"@ && r@[2].1 == ScalarType::Inst,
        r@[3].0@ == "file_name"@ && r@[3].1 == ScalarType::Text,
{
    let mut r: Vec<(String, ScalarType)> = Vec::new();
    r.push(("function_name".to_owned(), ScalarType::Text));
    r.push(("basic_block_name".to_owned(), ScalarType::Text));
    r.push(("instruction".to_owned(), ScalarType::Inst));
    r.push(("file_name".to_owned(), ScalarType::Text));
    r
}

} // verus!
