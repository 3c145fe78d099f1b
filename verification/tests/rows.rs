use llql::ir::data_provider::build_instruction_row;
use llql::ir::data_provider::LLVMIRDataProvider;
use llql::ir::schema::llvm_tables_fields_names;
use llql::ir::schema::llvm_tables_fields_types;
use llql::ir::values::QueryValue;
use llql::ir::IrNode;
use llql::ir::Opcode;
use llql::ir::ValueKind;
use llql::matchers::arithmetic::ArithmeticInstMatcher;
use llql::matchers::constants::ConstIntMatcher;
use llql::matchers::other::AnyInstMatcher;
use llql::matchers::InstMatcher;
use llql::functions::ScalarType;

#[test]
fn schema_names_the_instructions_table() {
    let tables = llvm_tables_fields_names();
    assert_eq!(tables.len(), 1);
    assert_eq!(tables[0].0, "instructions");
    assert_eq!(
        tables[0].1,
        vec![
            "function_name".to_owned(),
            "basic_block_name".to_owned(),
            "instruction".to_owned(),
            "file_name".to_owned()
        ]
    );

    let types = llvm_tables_fields_types();
    assert_eq!(types.len(), 4);
    assert_eq!(types[2].0, "instruction");
    assert_eq!(types[2].1, ScalarType::Inst);
}

#[test]
fn provider_remembers_its_paths() {
    let provider = LLVMIRDataProvider::new(vec!["a.ll".to_owned(), "b.bc".to_owned()]);
    assert_eq!(provider.paths().len(), 2);
    assert_eq!(provider.paths()[0], "a.ll");
}

#[test]
fn rows_follow_the_selected_columns() {
    let columns = vec![
        "function_name".to_owned(),
        "basic_block_name".to_owned(),
        "instruction".to_owned(),
        "file_name".to_owned(),
        "unknown_column".to_owned(),
    ];
    let mut inst = IrNode::new();
    inst.opcode = Opcode::Ret;

    let row = build_instruction_row(
        &columns,
        &"main".to_owned(),
        &"entry".to_owned(),
        &inst,
        &"module.ll".to_owned(),
    );
    assert_eq!(row.len(), 5);
    assert!(matches!(&row[0], QueryValue::Text(s) if s == "main"));
    assert!(matches!(&row[1], QueryValue::Text(s) if s == "entry"));
    assert!(matches!(&row[2], QueryValue::Inst(n) if n.opcode == Opcode::Ret));
    assert!(matches!(&row[3], QueryValue::Text(s) if s == "module.ll"));
    assert!(matches!(&row[4], QueryValue::Null));
}

#[test]
fn rows_fill_every_selected_instruction_column() {
    let columns = vec![
        "instruction".to_owned(),
        "function_name".to_owned(),
        "instruction".to_owned(),
    ];
    let mut inst = IrNode::new();
    inst.opcode = Opcode::Unreachable;

    let row = build_instruction_row(
        &columns,
        &"main".to_owned(),
        &"entry".to_owned(),
        &inst,
        &"module.ll".to_owned(),
    );
    assert_eq!(row.len(), 3);
    assert!(matches!(&row[0], QueryValue::Inst(n) if n.opcode == Opcode::Unreachable));
    assert!(matches!(&row[1], QueryValue::Text(s) if s == "main"));
    assert!(matches!(&row[2], QueryValue::Inst(n) if n.opcode == Opcode::Unreachable));
}

#[test]
fn a_cloned_node_matches_exactly_as_its_original() {
    let mut operand = IrNode::new();
    operand.value_kind = ValueKind::ConstantInt;
    operand.int_value = 5;
    let mut add = IrNode::new();
    add.opcode = Opcode::Add;
    add.operands = vec![IrNode::new(), operand];

    let copy = add.clone();
    let matcher = ArithmeticInstMatcher::create_commutatively_add(
        InstMatcher::ConstInt(ConstIntMatcher::create_const_int()),
        InstMatcher::Any(AnyInstMatcher),
    );
    assert_eq!(matcher.is_match(&add), matcher.is_match(&copy));
    assert!(matcher.is_match(&copy));
}
