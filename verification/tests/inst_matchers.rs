use llql::ir::IntPredicate;
use llql::ir::IrNode;
use llql::ir::Opcode;
use llql::ir::TypeNode;
use llql::ir::ValueKind;
use llql::matchers::arithmetic::ArithmeticInstMatcher;
use llql::matchers::binary::BinaryInstMatcher;
use llql::matchers::binary::BinaryOperator;
use llql::matchers::call::CallInstMatcher;
use llql::matchers::call::IntrinsicInstMatcher;
use llql::matchers::cast::CastInstMatcher;
use llql::matchers::cast::CastMatcherKind;
use llql::matchers::combine::CombineBinaryInstMatcher;
use llql::matchers::combine::CombineInstMatcher;
use llql::matchers::combine::CombineUnaryInstMatcher;
use llql::matchers::constants::ConstIntMatcher;
use llql::matchers::constants::ConstExprMatcher;
use llql::matchers::constants::ConstNumberMatcher;
use llql::matchers::debug::DebugInfoColumnMatcher;
use llql::matchers::debug::DebugInfoLineMatcher;
use llql::matchers::exception::InvokeInstMatcher;
use llql::matchers::exception::LandingPadInstMatcher;
use llql::matchers::exception::ResumeInstMatcher;
use llql::matchers::exception::RethrowInstMatcher;
use llql::matchers::exception::ThrowInstMatcher;
use llql::matchers::get_element_ptr::GetElementPtrMatcher;
use llql::matchers::icmp::IntComparisonInstMatcher;
use llql::matchers::operand_bundle::OperandBundleNameMatcher;
use llql::matchers::other::AnyInstMatcher;
use llql::matchers::other::ArgumentMatcher;
use llql::matchers::other::ExtractValueInstMatcher;
use llql::matchers::other::InstTypeMatcher;
use llql::matchers::other::LabelInstMatcher;
use llql::matchers::other::OperandCountMatcher;
use llql::matchers::other::PoisonInstMatcher;
use llql::matchers::other::PoisonValueMatcher;
use llql::matchers::other::ReturnInstMatcher;
use llql::matchers::other::UnreachableInstMatcher;
use llql::matchers::types::IntTypeMatcher;
use llql::matchers::types::IntTypeSize;
use llql::matchers::types::TypeMatcher;
use llql::matchers::shifts::ShiftInstMatcher;
use llql::matchers::shifts::ShiftKind;
use llql::matchers::usage::UsageInstMatcher;
use llql::matchers::InstMatcher;

fn const_int_node(value: i64) -> IrNode {
    let mut n = IrNode::new();
    n.value_kind = ValueKind::ConstantInt;
    n.int_value = value;
    n.ty = TypeNode::Int { width: 32 };
    n
}

fn register_node(name: &str) -> IrNode {
    let mut n = IrNode::new();
    n.name = name.to_owned();
    n
}

fn any() -> InstMatcher {
    InstMatcher::Any(AnyInstMatcher)
}

fn const_int() -> InstMatcher {
    InstMatcher::ConstInt(ConstIntMatcher::create_const_int())
}

/// Round trip: a commutative add matcher accepts the swapped operand order.
#[test]
fn commutative_add_matches_swapped_operands() {
    // %r = add i32 %x, 5 where %x is not constant
    let mut add = IrNode::new();
    add.opcode = Opcode::Add;
    add.operands = vec![register_node("x"), const_int_node(5)];

    let matcher = ArithmeticInstMatcher::create_commutatively_add(const_int(), any());
    assert!(matcher.is_match(&add));

    // The non-commutative form insists on the in-order match and fails.
    let strict = ArithmeticInstMatcher::create_add(const_int(), any());
    assert!(!strict.is_match(&add));
}

#[test]
fn cast_and_sext_match_specific_int_source() {
    // %r = sext i8 5 to i32
    let mut sext = IrNode::new();
    sext.opcode = Opcode::SExt;
    sext.operands = vec![const_int_node(5)];

    let specific = InstMatcher::ConstInt(ConstIntMatcher::create_specific_int(5));
    let by_kind = CastInstMatcher::create(CastMatcherKind::SExt, specific);
    assert!(by_kind.is_match(&sext));

    let specific = InstMatcher::ConstInt(ConstIntMatcher::create_specific_int(5));
    let by_any_cast = CastInstMatcher::create(CastMatcherKind::Any, specific);
    assert!(by_any_cast.is_match(&sext));

    // %r = sext i8 %v to i32 with %v not constant
    let mut sext_reg = IrNode::new();
    sext_reg.opcode = Opcode::SExt;
    sext_reg.operands = vec![register_node("v")];

    let specific = InstMatcher::ConstInt(ConstIntMatcher::create_specific_int(5));
    let by_kind = CastInstMatcher::create(CastMatcherKind::SExt, specific);
    assert!(!by_kind.is_match(&sext_reg));
}

#[test]
fn ext_kind_accepts_all_widening_casts() {
    for opcode in [Opcode::ZExt, Opcode::SExt, Opcode::FPExt] {
        let mut cast = IrNode::new();
        cast.opcode = opcode;
        cast.operands = vec![register_node("v")];
        let matcher = CastInstMatcher::create(CastMatcherKind::Ext, any());
        assert!(matcher.is_match(&cast));
    }
    let mut trunc = IrNode::new();
    trunc.opcode = Opcode::Trunc;
    trunc.operands = vec![register_node("v")];
    let matcher = CastInstMatcher::create(CastMatcherKind::Ext, any());
    assert!(!matcher.is_match(&trunc));
}

#[test]
fn unused_matches_only_zero_uses() {
    let mut unused = IrNode::new();
    unused.opcode = Opcode::Add;
    unused.use_count = 0;

    let matcher = UsageInstMatcher::create_unused_matcher(any());
    assert!(matcher.is_match(&unused));

    let mut used_once = IrNode::new();
    used_once.opcode = Opcode::Add;
    used_once.use_count = 1;
    assert!(!matcher.is_match(&used_once));

    let one_use_matcher = UsageInstMatcher::create_has_one_use_matcher(any());
    assert!(one_use_matcher.is_match(&used_once));
    assert!(!one_use_matcher.is_match(&unused));
}

#[test]
fn extract_value_checks_the_literal_index_path() {
    // extractvalue {i32,{i32,i32}} %s, 0, 1
    let mut extract = IrNode::new();
    extract.opcode = Opcode::ExtractValue;
    extract.operands = vec![register_node("s")];
    extract.extract_indices = vec![0, 1];

    let with_right_path = InstMatcher::ExtractValue(ExtractValueInstMatcher {
        matcher: Box::new(any()),
        indices: Some(vec![0, 1]),
    });
    assert!(with_right_path.is_match(&extract));

    let with_wrong_path = InstMatcher::ExtractValue(ExtractValueInstMatcher {
        matcher: Box::new(any()),
        indices: Some(vec![0, 2]),
    });
    assert!(!with_wrong_path.is_match(&extract));

    let without_path = InstMatcher::ExtractValue(ExtractValueInstMatcher {
        matcher: Box::new(any()),
        indices: None,
    });
    assert!(without_path.is_match(&extract));
}

#[test]
fn all_of_fails_on_the_first_conjunct() {
    // A floating constant is not an integer constant, so the conjunction of
    // the integer test and the number test fails.
    let mut fp = IrNode::new();
    fp.value_kind = ValueKind::ConstantFP;

    let all_of = CombineInstMatcher::create_all_of(vec![
        const_int(),
        InstMatcher::ConstNumber(ConstNumberMatcher),
    ]);
    assert!(!all_of.is_match(&fp));

    let mut int_const = const_int_node(3);
    int_const.value_kind = ValueKind::ConstantInt;
    assert!(all_of.is_match(&int_const));
}

#[test]
fn empty_combinator_lists() {
    let n = IrNode::new();
    assert!(CombineInstMatcher::create_all_of(vec![]).is_match(&n));
    assert!(CombineInstMatcher::create_none_of(vec![]).is_match(&n));
    assert!(!CombineInstMatcher::create_one_of(vec![]).is_match(&n));
}

#[test]
fn one_of_requires_more_than_one_match() {
    let mut int_const = const_int_node(7);
    int_const.value_kind = ValueKind::ConstantInt;

    // Exactly one of the three matches: by the documented rule, not enough.
    let one_match = CombineInstMatcher::create_one_of(vec![
        const_int(),
        InstMatcher::Unreachable(UnreachableInstMatcher),
        InstMatcher::Call(CallInstMatcher::create_call()),
    ]);
    assert!(!one_match.is_match(&int_const));

    // Two of the three match.
    let two_match = CombineInstMatcher::create_one_of(vec![
        const_int(),
        InstMatcher::ConstNumber(ConstNumberMatcher),
        InstMatcher::Unreachable(UnreachableInstMatcher),
    ]);
    assert!(two_match.is_match(&int_const));
}

#[test]
fn not_negates_and_binary_combinators_follow_the_tables() {
    let mut int_const = const_int_node(1);
    int_const.value_kind = ValueKind::ConstantInt;

    let not_const = CombineUnaryInstMatcher::create_not(const_int());
    assert!(!not_const.is_match(&int_const));
    assert!(not_const.is_match(&IrNode::new()));

    let true_and_false = CombineBinaryInstMatcher::create_and(
        const_int(),
        InstMatcher::Unreachable(UnreachableInstMatcher),
    );
    assert!(!true_and_false.is_match(&int_const));

    let true_or_false = CombineBinaryInstMatcher::create_or(
        const_int(),
        InstMatcher::Unreachable(UnreachableInstMatcher),
    );
    assert!(true_or_false.is_match(&int_const));

    let true_xor_true = CombineBinaryInstMatcher::create_xor(
        const_int(),
        InstMatcher::ConstNumber(ConstNumberMatcher),
    );
    assert!(!true_xor_true.is_match(&int_const));

    let true_xor_false = CombineBinaryInstMatcher::create_xor(
        const_int(),
        InstMatcher::Unreachable(UnreachableInstMatcher),
    );
    assert!(true_xor_false.is_match(&int_const));
}

#[test]
fn const_int_conditions_follow_the_documented_rules() {
    let specific = ConstIntMatcher::create_specific_int(42);
    assert!(specific.is_match(&const_int_node(42)));
    assert!(!specific.is_match(&const_int_node(41)));

    assert!(ConstIntMatcher::create_zero().is_match(&const_int_node(0)));
    assert!(!ConstIntMatcher::create_zero().is_match(&const_int_node(1)));
    assert!(ConstIntMatcher::create_one().is_match(&const_int_node(1)));

    // The documented power-of-two rule holds when v & (v - 1) is non-zero:
    // true of 6, false of 8 and of 0.
    let power2 = ConstIntMatcher::create_power_of_two();
    assert!(power2.is_match(&const_int_node(6)));
    assert!(!power2.is_match(&const_int_node(8)));
    assert!(!power2.is_match(&const_int_node(0)));
    assert!(!power2.is_match(&const_int_node(i64::MIN)));

    // The documented range rule holds when v >= start or v <= end.
    let range = ConstIntMatcher::create_range_int(10, 20);
    assert!(range.is_match(&const_int_node(15)));
    assert!(range.is_match(&const_int_node(100)));
    assert!(range.is_match(&const_int_node(-5)));

    // A non-constant never matches, whatever the condition.
    assert!(!specific.is_match(&register_node("x")));
}

#[test]
fn icmp_matcher_checks_predicate_and_operands() {
    let mut icmp = IrNode::new();
    icmp.opcode = Opcode::ICmp;
    icmp.int_predicate = IntPredicate::EQ;
    icmp.operands = vec![register_node("a"), const_int_node(0)];

    let eq = IntComparisonInstMatcher::create(IntPredicate::EQ, false, any(), const_int());
    assert!(eq.is_match(&icmp));

    let ne = IntComparisonInstMatcher::create(IntPredicate::NE, false, any(), const_int());
    assert!(!ne.is_match(&icmp));

    let eq_swapped = IntComparisonInstMatcher::create(IntPredicate::EQ, false, const_int(), any());
    assert!(!eq_swapped.is_match(&icmp));

    let eq_commutative =
        IntComparisonInstMatcher::create(IntPredicate::EQ, true, const_int(), any());
    assert!(eq_commutative.is_match(&icmp));
}

#[test]
fn or_disjoint_requires_the_disjoint_flag() {
    let mut or_inst = IrNode::new();
    or_inst.opcode = Opcode::Or;
    or_inst.operands = vec![register_node("a"), register_node("b")];

    let plain_or = BinaryInstMatcher::create(BinaryOperator::Or, false, any(), any());
    assert!(plain_or.is_match(&or_inst));

    let disjoint = BinaryInstMatcher::create(BinaryOperator::OrDisjoint, false, any(), any());
    assert!(!disjoint.is_match(&or_inst));

    or_inst.is_or_disjoint = true;
    assert!(disjoint.is_match(&or_inst));

    let any_binop = BinaryInstMatcher::create(BinaryOperator::Any, false, any(), any());
    assert!(any_binop.is_match(&or_inst));
}

#[test]
fn call_intrinsic_throw_and_rethrow_matchers() {
    let mut intrinsic_callee = register_node("llvm.memcpy");
    intrinsic_callee.intrinsic_id = 7;
    let mut call = IrNode::new();
    call.opcode = Opcode::Call;
    call.callee = Some(Box::new(intrinsic_callee));

    assert!(CallInstMatcher::create_call().is_match(&call));
    assert!(IntrinsicInstMatcher::create_call(None).is_match(&call));
    assert!(
        IntrinsicInstMatcher::create_call(Some("llvm.memcpy".to_owned())).is_match(&call)
    );
    assert!(!IntrinsicInstMatcher::create_call(Some("llvm.memset".to_owned())).is_match(&call));

    let mut plain_callee = register_node("helper");
    plain_callee.intrinsic_id = 0;
    let mut plain_call = IrNode::new();
    plain_call.opcode = Opcode::Call;
    plain_call.callee = Some(Box::new(plain_callee));
    assert!(!IntrinsicInstMatcher::create_call(None).is_match(&plain_call));

    let mut throw_call = IrNode::new();
    throw_call.opcode = Opcode::Invoke;
    throw_call.callee = Some(Box::new(register_node("__cxa_throw")));
    assert!(ThrowInstMatcher.is_match(&throw_call));
    assert!(!RethrowInstMatcher.is_match(&throw_call));

    let mut rethrow_call = IrNode::new();
    rethrow_call.opcode = Opcode::Call;
    rethrow_call.callee = Some(Box::new(register_node("__cxa_rethrow")));
    assert!(RethrowInstMatcher.is_match(&rethrow_call));
}

#[test]
fn structural_matchers_check_opcode_or_kind() {
    let mut ret = IrNode::new();
    ret.opcode = Opcode::Ret;
    ret.operands = vec![const_int_node(3)];
    assert!(ReturnInstMatcher { matcher: Box::new(const_int()) }.is_match(&ret));
    assert!(!ReturnInstMatcher { matcher: Box::new(const_int()) }.is_match(&IrNode::new()));

    // A malformed return with no operand fails the match instead of faulting.
    let mut bare_ret = IrNode::new();
    bare_ret.opcode = Opcode::Ret;
    assert!(!ReturnInstMatcher { matcher: Box::new(any()) }.is_match(&bare_ret));

    let mut unreachable = IrNode::new();
    unreachable.opcode = Opcode::Unreachable;
    assert!(UnreachableInstMatcher.is_match(&unreachable));

    let mut invoke = IrNode::new();
    invoke.opcode = Opcode::Invoke;
    assert!(InvokeInstMatcher.is_match(&invoke));
    assert!(!LandingPadInstMatcher.is_match(&invoke));

    let mut gep = IrNode::new();
    gep.opcode = Opcode::GetElementPtr;
    assert!(GetElementPtrMatcher.is_match(&gep));

    let mut counted = IrNode::new();
    counted.opcode = Opcode::Add;
    counted.operands = vec![register_node("a"), register_node("b")];
    assert!(OperandCountMatcher::has_n_operands(2).is_match(&counted));
    assert!(!OperandCountMatcher::has_n_operands(3).is_match(&counted));
    assert!(!OperandCountMatcher::has_n_operands(-1).is_match(&counted));
}

#[test]
fn label_and_argument_matchers() {
    let mut label = register_node("entry");
    label.value_kind = ValueKind::BasicBlock;
    assert!(LabelInstMatcher { name: None }.is_match(&label));
    assert!(LabelInstMatcher { name: Some("entry".to_owned()) }.is_match(&label));
    assert!(!LabelInstMatcher { name: Some("exit".to_owned()) }.is_match(&label));
    assert!(!LabelInstMatcher { name: None }.is_match(&IrNode::new()));

    let mut argument = register_node("arg0");
    argument.value_kind = ValueKind::Argument;
    argument.ty = TypeNode::Int { width: 32 };
    assert!(ArgumentMatcher { name: None, type_matcher: None }.is_match(&argument));
    assert!(
        ArgumentMatcher {
            name: Some("arg0".to_owned()),
            type_matcher: Some(TypeMatcher::Int(IntTypeMatcher { size: IntTypeSize::Size32 })),
        }
        .is_match(&argument)
    );
    // A failing type matcher rejects the argument, with or without a name.
    assert!(
        !ArgumentMatcher {
            name: Some("arg0".to_owned()),
            type_matcher: Some(TypeMatcher::Int(IntTypeMatcher { size: IntTypeSize::Size64 })),
        }
        .is_match(&argument)
    );
    assert!(
        !ArgumentMatcher {
            name: None,
            type_matcher: Some(TypeMatcher::Int(IntTypeMatcher { size: IntTypeSize::Size64 })),
        }
        .is_match(&argument)
    );
    // A mismatched name rejects an argument node.
    assert!(
        !ArgumentMatcher {
            name: Some("other".to_owned()),
            type_matcher: None,
        }
        .is_match(&argument)
    );
}

#[test]
fn debug_bundle_and_node_type_matchers() {
    let mut inst = IrNode::new();
    inst.opcode = Opcode::Add;
    inst.debug_line = 12;
    inst.debug_column = 4;
    inst.ty = TypeNode::Int { width: 32 };
    inst.operand_bundles = vec!["funclet".to_owned(), "deopt".to_owned()];

    assert!(DebugInfoLineMatcher { line: 12 }.is_match(&inst));
    assert!(!DebugInfoLineMatcher { line: 13 }.is_match(&inst));
    assert!(DebugInfoColumnMatcher { column: 4 }.is_match(&inst));
    assert!(!DebugInfoColumnMatcher { column: 5 }.is_match(&inst));

    assert!(OperandBundleNameMatcher::create("deopt".to_owned()).is_match(&inst));
    assert!(OperandBundleNameMatcher::create("funclet".to_owned()).is_match(&inst));
    assert!(!OperandBundleNameMatcher::create("gc".to_owned()).is_match(&inst));

    let int32 = InstTypeMatcher {
        matcher: TypeMatcher::Int(IntTypeMatcher { size: IntTypeSize::Size32 }),
    };
    assert!(int32.is_match(&inst));
    let int64 = InstTypeMatcher {
        matcher: TypeMatcher::Int(IntTypeMatcher { size: IntTypeSize::Size64 }),
    };
    assert!(!int64.is_match(&inst));
}

#[test]
fn usage_counting_sees_only_the_use_list_length() {
    // Two thoroughly different nodes with equal use counts get equal
    // answers from a usage matcher wrapping the any-node matcher.
    let mut a = IrNode::new();
    a.opcode = Opcode::Add;
    a.use_count = 3;
    let mut b = IrNode::new();
    b.value_kind = ValueKind::ConstantFP;
    b.name = "something".to_owned();
    b.use_count = 3;

    for k in 0..5usize {
        let matcher = UsageInstMatcher::create_has_n_uses_matcher(any(), k);
        assert_eq!(matcher.is_match(&a), matcher.is_match(&b));
    }
}

#[test]
fn shift_matcher_follows_its_kind() {
    let mut shl = IrNode::new();
    shl.opcode = Opcode::Shl;
    shl.operands = vec![register_node("a"), const_int_node(1)];

    let shl_matcher = ShiftInstMatcher::create(ShiftKind::LogicalShiftLeft, false, any(), any());
    assert!(shl_matcher.is_match(&shl));
    let ashr_matcher =
        ShiftInstMatcher::create(ShiftKind::ArithmeticShiftRight, false, any(), any());
    assert!(!ashr_matcher.is_match(&shl));
}

#[test]
fn malformed_two_operand_nodes_fail_the_match() {
    // A node with the right opcode but too few operands fails rather than
    // faulting.
    let mut add = IrNode::new();
    add.opcode = Opcode::Add;
    add.operands = vec![register_node("a")];
    let matcher = ArithmeticInstMatcher::create_add(any(), any());
    assert!(!matcher.is_match(&add));
}

#[test]
fn value_kind_matchers_cover_every_documented_kind() {
    let mut poison = IrNode::new();
    poison.value_kind = ValueKind::Poison;
    assert!(PoisonValueMatcher.is_match(&poison));
    assert!(PoisonInstMatcher.is_match(&poison));
    assert!(!PoisonValueMatcher.is_match(&IrNode::new()));

    let mut expr = IrNode::new();
    expr.value_kind = ValueKind::ConstantExpr;
    assert!(ConstExprMatcher.is_match(&expr));
    assert!(!ConstExprMatcher.is_match(&poison));

    let mut resume = IrNode::new();
    resume.opcode = Opcode::Resume;
    assert!(ResumeInstMatcher.is_match(&resume));
    assert!(!ResumeInstMatcher.is_match(&poison));
}

#[test]
fn depth_measures_how_far_a_tree_reaches_into_operands() {
    // const-int leaf: reads only the node itself.
    assert_eq!(const_int().depth(), 0);
    // add(const, any): one operand level.
    let add = ArithmeticInstMatcher::create_add(const_int(), any());
    assert_eq!(add.depth(), 1);
    // return(add(const, any)): two levels.
    let ret = InstMatcher::Return(ReturnInstMatcher {
        matcher: Box::new(ArithmeticInstMatcher::create_add(const_int(), any())),
    });
    assert_eq!(ret.depth(), 2);
    // A combinator adds no level of its own.
    let not_ret = InstMatcher::CombineUnary(CombineUnaryInstMatcher::create_not(ret));
    assert_eq!(not_ret.depth(), 2);
    let one_of = InstMatcher::Combine(CombineInstMatcher::create_one_of(vec![
        const_int(),
        not_ret,
    ]));
    assert_eq!(one_of.depth(), 2);
    // The intrinsic matcher reads the callee.
    assert_eq!(
        InstMatcher::Intrinsic(IntrinsicInstMatcher::create_call(None)).depth(),
        1
    );
}
