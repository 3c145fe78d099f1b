use llql::functions::call_builtin;
use llql::functions::llvm_ir_function_signatures;
use llql::functions::ParamType;
use llql::functions::ScalarType;
use llql::functions::Signature;
use llql::ir::values::InstMatcherValue;
use llql::ir::values::QueryValue;
use llql::ir::IntPredicate;
use llql::ir::IrNode;
use llql::ir::Opcode;
use llql::ir::ValueKind;
use llql::matchers::InstMatcher;

fn lookup<'a>(table: &'a [(String, Signature)], name: &str) -> &'a Signature {
    for (entry_name, signature) in table {
        if entry_name == name {
            return signature;
        }
    }
    panic!("builtin {name} is not in the table");
}

fn call(name: &str, values: Vec<QueryValue>) -> Option<QueryValue> {
    call_builtin(&name.to_owned(), values)
}

fn const_int_node(value: i64) -> IrNode {
    let mut n = IrNode::new();
    n.value_kind = ValueKind::ConstantInt;
    n.int_value = value;
    n
}

#[test]
fn signature_table_holds_every_builtin_once() {
    let table = llvm_ir_function_signatures();
    assert_eq!(table.len(), 148);
    for i in 0..table.len() {
        for j in 0..i {
            assert_ne!(table[i].0, table[j].0, "duplicate name in the table");
        }
    }
}

#[test]
fn signature_table_spot_checks() {
    let table = llvm_ir_function_signatures();

    let m_add = lookup(&table, "m_add");
    assert_eq!(
        m_add.parameters,
        vec![
            ParamType::Optional(ScalarType::InstMatcher),
            ParamType::Optional(ScalarType::InstMatcher)
        ]
    );
    assert_eq!(m_add.return_type, ScalarType::InstMatcher);

    let m_inst = lookup(&table, "m_inst");
    assert_eq!(
        m_inst.parameters,
        vec![
            ParamType::Plain(ScalarType::Inst),
            ParamType::Plain(ScalarType::InstMatcher)
        ]
    );
    assert_eq!(m_inst.return_type, ScalarType::Bool);

    let m_array = lookup(&table, "m_array");
    assert_eq!(
        m_array.parameters,
        vec![
            ParamType::Plain(ScalarType::TypeMatcher),
            ParamType::Optional(ScalarType::Int)
        ]
    );
    assert_eq!(m_array.return_type, ScalarType::TypeMatcher);

    let m_combine = lookup(&table, "m_inst_combine_oneof");
    assert_eq!(
        m_combine.parameters,
        vec![
            ParamType::Plain(ScalarType::InstMatcher),
            ParamType::Varargs(ScalarType::InstMatcher)
        ]
    );

    let m_specific = lookup(&table, "m_specific_int");
    assert_eq!(m_specific.parameters, vec![ParamType::Plain(ScalarType::Int)]);

    let m_ueg = lookup(&table, "m_icmp_ueg");
    assert_eq!(m_ueg.return_type, ScalarType::InstMatcher);
}

#[test]
fn round_trip_through_the_registry() {
    // Build m_c_add(m_const_int(), m_any_inst()) entirely through builtins
    // and evaluate it through the terminal predicate against
    // %r = add i32 %x, 5.
    let const_int = call("m_const_int", vec![]).unwrap();
    let any_inst = call("m_any_inst", vec![]).unwrap();
    let matcher = call("m_c_add", vec![const_int, any_inst]).unwrap();

    let mut x = IrNode::new();
    x.name = "x".to_owned();
    let mut add = IrNode::new();
    add.opcode = Opcode::Add;
    add.operands = vec![x, const_int_node(5)];

    let verdict = call("m_inst", vec![QueryValue::Inst(add), matcher]).unwrap();
    match verdict {
        QueryValue::Bool(b) => assert!(b),
        _ => panic!("the terminal predicate must answer a boolean"),
    }
}

#[test]
fn unknown_names_and_ill_typed_arguments_are_refused() {
    assert!(call("m_no_such_builtin", vec![]).is_none());
    // m_specific_int demands an integer argument.
    assert!(call("m_specific_int", vec![QueryValue::Text("five".to_owned())]).is_none());
    assert!(call("m_specific_int", vec![]).is_none());
    // A binary builtin refuses a non-matcher side.
    assert!(call("m_add", vec![QueryValue::Int(1)]).is_none());
    // The operand bundle builtin demands a text argument.
    assert!(call("m_operand_bundle", vec![QueryValue::Int(3)]).is_none());
}

#[test]
fn builtins_build_the_documented_trees() {
    let zero = call("m_zero", vec![]).unwrap();
    match &zero {
        QueryValue::InstMatcher(v) => match &v.matcher {
            InstMatcher::ConstInt(_) => {},
            _ => panic!("m_zero must build an integer constant matcher"),
        },
        _ => panic!("m_zero must build a matcher value"),
    }
    let node = const_int_node(0);
    let verdict = call("m_inst", vec![QueryValue::Inst(node), zero]).unwrap();
    assert!(matches!(verdict, QueryValue::Bool(true)));

    let one = call("m_one", vec![]).unwrap();
    let node = const_int_node(0);
    let verdict = call("m_inst", vec![QueryValue::Inst(node), one]).unwrap();
    assert!(matches!(verdict, QueryValue::Bool(false)));

    // m_unused wraps the matcher it is given.
    let any_inst = call("m_any_inst", vec![]).unwrap();
    let unused = call("m_unused", vec![any_inst]).unwrap();
    let mut used = IrNode::new();
    used.use_count = 2;
    let verdict = call("m_inst", vec![QueryValue::Inst(used), unused]).unwrap();
    assert!(matches!(verdict, QueryValue::Bool(false)));

    // m_extract_value with an index path checks it exactly.
    let any_inst = call("m_any_inst", vec![]).unwrap();
    let extract = call(
        "m_extract_value",
        vec![any_inst, QueryValue::IntList(vec![0, 1])],
    )
    .unwrap();
    let mut node = IrNode::new();
    node.opcode = Opcode::ExtractValue;
    node.operands = vec![IrNode::new()];
    node.extract_indices = vec![0, 1];
    let verdict = call("m_inst", vec![QueryValue::Inst(node), extract]).unwrap();
    assert!(matches!(verdict, QueryValue::Bool(true)));
}

#[test]
fn type_builtins_build_type_matcher_values() {
    let int32 = call("m_int32", vec![]).unwrap();
    let array = call("m_array", vec![int32, QueryValue::Int(10)]).unwrap();
    match array {
        QueryValue::TypeMatcher(v) => {
            let ten = llql::ir::TypeNode::Array {
                element: Box::new(llql::ir::TypeNode::Int { width: 32 }),
                length: 10,
            };
            let twenty = llql::ir::TypeNode::Array {
                element: Box::new(llql::ir::TypeNode::Int { width: 32 }),
                length: 20,
            };
            assert!(v.is_match(&ten));
            assert!(!v.is_match(&twenty));
        },
        _ => panic!("m_array must build a type matcher value"),
    }

    // m_inst_type lifts a type matcher into an instruction matcher.
    let int32 = call("m_int32", vec![]).unwrap();
    let inst_type = call("m_inst_type", vec![int32]).unwrap();
    let mut node = IrNode::new();
    node.ty = llql::ir::TypeNode::Int { width: 32 };
    let verdict = call("m_inst", vec![QueryValue::Inst(node), inst_type]).unwrap();
    assert!(matches!(verdict, QueryValue::Bool(true)));
}

#[test]
fn value_bridge_operators_compose_trees() {
    let const_int = InstMatcherValue {
        matcher: InstMatcher::ConstInt(
            llql::matchers::constants::ConstIntMatcher::create_const_int(),
        ),
    };
    let unreachable = InstMatcherValue {
        matcher: InstMatcher::Unreachable(
            llql::matchers::other::UnreachableInstMatcher,
        ),
    };

    let node = const_int_node(9);
    assert!(const_int.is_match(&node));
    assert!(!const_int.bang_op().is_match(&node));
    assert!(const_int.logical_or_op(&unreachable).is_match(&node));
    assert!(!const_int.logical_and_op(&unreachable).is_match(&node));
    assert!(const_int.logical_xor_op(&unreachable).is_match(&node));
    assert!(!const_int.logical_xor_op(&const_int).is_match(&node));
}

#[test]
fn comparison_and_shift_builtins_dispatch() {
    // m_icmp_ueg carries the unsigned greater-or-equal predicate under the
    // registry's historical spelling of the name.
    let matcher = call("m_icmp_ueg", vec![]).unwrap();
    let mut icmp = IrNode::new();
    icmp.opcode = Opcode::ICmp;
    icmp.int_predicate = IntPredicate::UGE;
    icmp.operands = vec![IrNode::new(), IrNode::new()];
    let verdict = call("m_inst", vec![QueryValue::Inst(icmp), matcher]).unwrap();
    assert!(matches!(verdict, QueryValue::Bool(true)));

    let matcher = call("m_shl", vec![]).unwrap();
    let mut shl = IrNode::new();
    shl.opcode = Opcode::Shl;
    shl.operands = vec![IrNode::new(), IrNode::new()];
    let verdict = call("m_inst", vec![QueryValue::Inst(shl), matcher]).unwrap();
    assert!(matches!(verdict, QueryValue::Bool(true)));

    let matcher = call("m_fcmp_uno", vec![]).unwrap();
    let mut fadd = IrNode::new();
    fadd.opcode = Opcode::FAdd;
    fadd.operands = vec![IrNode::new(), IrNode::new()];
    let verdict = call("m_inst", vec![QueryValue::Inst(fadd), matcher]).unwrap();
    assert!(matches!(verdict, QueryValue::Bool(false)));
}

#[test]
fn combinator_builtins_follow_the_counting_rules() {
    let node = const_int_node(2);

    // None of nothing holds; one-of nothing does not.
    let none_of = call("m_inst_combine_noneof", vec![]).unwrap();
    let verdict = call("m_inst", vec![QueryValue::Inst(const_int_node(2)), none_of]).unwrap();
    assert!(matches!(verdict, QueryValue::Bool(true)));

    let one_of = call("m_inst_combine_oneof", vec![]).unwrap();
    let verdict = call("m_inst", vec![QueryValue::Inst(node), one_of]).unwrap();
    assert!(matches!(verdict, QueryValue::Bool(false)));

    // Negation through the combinator builtin.
    let const_int = call("m_const_int", vec![]).unwrap();
    let not_const = call("m_inst_combine_not", vec![const_int]).unwrap();
    let verdict = call("m_inst", vec![QueryValue::Inst(const_int_node(2)), not_const]).unwrap();
    assert!(matches!(verdict, QueryValue::Bool(false)));
}
