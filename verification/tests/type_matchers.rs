use llql::ir::TypeNode;
use llql::matchers::types::AnyTypeMatcher;
use llql::matchers::types::ArrayTypeMatcher;
use llql::matchers::types::FloatTypeMatcher;
use llql::matchers::types::FloatTypeSize;
use llql::matchers::types::IntTypeMatcher;
use llql::matchers::types::IntTypeSize;
use llql::matchers::types::PointerTypeMatcher;
use llql::matchers::types::TypeMatcher;
use llql::matchers::types::VectorTypeMatcher;
use llql::matchers::types::VoidTypeMatcher;

#[test]
fn test_any_type_matcher() {
    let matcher = AnyTypeMatcher;

    let voidt = TypeNode::Void;
    let i64t = TypeNode::Int { width: 64 };

    assert!(matcher.is_match(&voidt));
    assert!(matcher.is_match(&i64t));
}

#[test]
fn test_void_type_matcher() {
    let voidt = TypeNode::Void;
    let i64t = TypeNode::Int { width: 64 };

    let matcher = VoidTypeMatcher;

    assert!(matcher.is_match(&voidt));
    assert!(!matcher.is_match(&i64t));
}

#[test]
fn test_int_type_matcher() {
    let voidt = TypeNode::Void;
    let i8t = TypeNode::Int { width: 8 };
    let i16t = TypeNode::Int { width: 16 };
    let i32t = TypeNode::Int { width: 32 };
    let i64t = TypeNode::Int { width: 64 };
    let f32t = TypeNode::Float;
    let f64t = TypeNode::Double;

    let i8_matcher: IntTypeMatcher = IntTypeMatcher {
        size: IntTypeSize::Size8,
    };

    let i16_matcher: IntTypeMatcher = IntTypeMatcher {
        size: IntTypeSize::Size16,
    };

    let i32_matcher: IntTypeMatcher = IntTypeMatcher {
        size: IntTypeSize::Size32,
    };

    let i64_matcher: IntTypeMatcher = IntTypeMatcher {
        size: IntTypeSize::Size64,
    };

    assert!(!i8_matcher.is_match(&voidt));
    assert!(i8_matcher.is_match(&i8t));
    assert!(!i8_matcher.is_match(&i16t));
    assert!(!i8_matcher.is_match(&i32t));
    assert!(!i8_matcher.is_match(&i64t));
    assert!(!i8_matcher.is_match(&f32t));
    assert!(!i8_matcher.is_match(&f64t));

    assert!(!i16_matcher.is_match(&voidt));
    assert!(!i16_matcher.is_match(&i8t));
    assert!(i16_matcher.is_match(&i16t));
    assert!(!i16_matcher.is_match(&i32t));
    assert!(!i16_matcher.is_match(&i64t));
    assert!(!i16_matcher.is_match(&f32t));
    assert!(!i16_matcher.is_match(&f64t));

    assert!(!i32_matcher.is_match(&voidt));
    assert!(!i32_matcher.is_match(&i8t));
    assert!(!i32_matcher.is_match(&i16t));
    assert!(i32_matcher.is_match(&i32t));
    assert!(!i32_matcher.is_match(&i64t));
    assert!(!i32_matcher.is_match(&f32t));
    assert!(!i32_matcher.is_match(&f64t));

    assert!(!i64_matcher.is_match(&voidt));
    assert!(!i64_matcher.is_match(&i8t));
    assert!(!i64_matcher.is_match(&i16t));
    assert!(!i64_matcher.is_match(&i32t));
    assert!(i64_matcher.is_match(&i64t));
    assert!(!i64_matcher.is_match(&f32t));
    assert!(!i64_matcher.is_match(&f64t));
}

#[test]
fn test_float_type_matcher() {
    let voidt = TypeNode::Void;
    let i32t = TypeNode::Int { width: 32 };
    let i64t = TypeNode::Int { width: 64 };
    let f32t = TypeNode::Float;
    let f64t = TypeNode::Double;

    let f32_matcher = FloatTypeMatcher {
        size: FloatTypeSize::Size32,
    };

    let f64_matcher = FloatTypeMatcher {
        size: FloatTypeSize::Size64,
    };

    assert!(!f32_matcher.is_match(&voidt));
    assert!(!f32_matcher.is_match(&i32t));
    assert!(!f32_matcher.is_match(&i64t));
    assert!(f32_matcher.is_match(&f32t));
    assert!(!f32_matcher.is_match(&f64t));

    assert!(!f64_matcher.is_match(&voidt));
    assert!(!f64_matcher.is_match(&i32t));
    assert!(!f64_matcher.is_match(&i64t));
    assert!(!f64_matcher.is_match(&f32t));
    assert!(f64_matcher.is_match(&f64t));
}

#[test]
fn test_pointer_type_matcher() {
    let voidt = TypeNode::Void;
    let void_ptr_ty = TypeNode::Pointer;

    let i32t = TypeNode::Int { width: 32 };
    let i32t_ptr_ty = TypeNode::Pointer;

    let i64t = TypeNode::Int { width: 64 };
    let i64t_ptr_ty = TypeNode::Pointer;

    let f32t = TypeNode::Float;
    let f32t_ptr_ty = TypeNode::Pointer;

    let f64t = TypeNode::Double;
    let f64t_ptr_ty = TypeNode::Pointer;

    let pointer_matcher = PointerTypeMatcher;

    assert!(!pointer_matcher.is_match(&voidt));
    assert!(pointer_matcher.is_match(&void_ptr_ty));
    assert!(!pointer_matcher.is_match(&i32t));
    assert!(pointer_matcher.is_match(&i32t_ptr_ty));
    assert!(!pointer_matcher.is_match(&i64t));
    assert!(pointer_matcher.is_match(&i64t_ptr_ty));
    assert!(!pointer_matcher.is_match(&f32t));
    assert!(pointer_matcher.is_match(&f32t_ptr_ty));
    assert!(!pointer_matcher.is_match(&f64t));
    assert!(pointer_matcher.is_match(&f64t_ptr_ty));
}

#[test]
fn test_array_type_matcher() {
    let i32t = TypeNode::Int { width: 32 };
    let i32t_array_10_n = TypeNode::Array {
        element: Box::new(i32t.clone()),
        length: 10,
    };
    let i32t_array_20_n = TypeNode::Array {
        element: Box::new(i32t),
        length: 20,
    };

    let i64t = TypeNode::Int { width: 64 };
    let i64t_array_10_n = TypeNode::Array {
        element: Box::new(i64t.clone()),
        length: 10,
    };
    let i64t_array_20_n = TypeNode::Array {
        element: Box::new(i64t),
        length: 20,
    };

    let i32_matcher = Box::new(TypeMatcher::Int(IntTypeMatcher {
        size: IntTypeSize::Size32,
    }));

    let un_sized_i32_array_matcher = ArrayTypeMatcher {
        base_matcher: i32_matcher,
        length: None,
    };

    let i64_matcher = Box::new(TypeMatcher::Int(IntTypeMatcher {
        size: IntTypeSize::Size64,
    }));

    let sized_i64_array_matcher = ArrayTypeMatcher {
        base_matcher: i64_matcher,
        length: Some(10),
    };

    assert!(un_sized_i32_array_matcher.is_match(&i32t_array_10_n));
    assert!(un_sized_i32_array_matcher.is_match(&i32t_array_20_n));
    assert!(!un_sized_i32_array_matcher.is_match(&i64t_array_10_n));
    assert!(!un_sized_i32_array_matcher.is_match(&i64t_array_20_n));

    assert!(!sized_i64_array_matcher.is_match(&i32t_array_10_n));
    assert!(!sized_i64_array_matcher.is_match(&i32t_array_20_n));
    assert!(sized_i64_array_matcher.is_match(&i64t_array_10_n));
    assert!(!sized_i64_array_matcher.is_match(&i64t_array_20_n));
}

#[test]
fn test_vector_type_matcher() {
    let i32t = TypeNode::Int { width: 32 };
    let i32t_vec_10_n = TypeNode::Vector {
        element: Box::new(i32t.clone()),
        length: 10,
    };
    let i32t_vec_20_n = TypeNode::Vector {
        element: Box::new(i32t),
        length: 20,
    };

    let i64t = TypeNode::Int { width: 64 };
    let i64t_vec_10_n = TypeNode::Vector {
        element: Box::new(i64t.clone()),
        length: 10,
    };
    let i64t_vec_20_n = TypeNode::Vector {
        element: Box::new(i64t),
        length: 20,
    };

    let i32_matcher = Box::new(TypeMatcher::Int(IntTypeMatcher {
        size: IntTypeSize::Size32,
    }));

    let un_sized_i32_vec_matcher = VectorTypeMatcher {
        base_matcher: i32_matcher,
        length: None,
    };

    let i64_matcher = Box::new(TypeMatcher::Int(IntTypeMatcher {
        size: IntTypeSize::Size64,
    }));

    let sized_i64_vec_matcher = VectorTypeMatcher {
        base_matcher: i64_matcher,
        length: Some(10),
    };

    assert!(un_sized_i32_vec_matcher.is_match(&i32t_vec_10_n));
    assert!(un_sized_i32_vec_matcher.is_match(&i32t_vec_20_n));
    assert!(!un_sized_i32_vec_matcher.is_match(&i64t_vec_10_n));
    assert!(!un_sized_i32_vec_matcher.is_match(&i64t_vec_20_n));

    assert!(!sized_i64_vec_matcher.is_match(&i32t_vec_10_n));
    assert!(!sized_i64_vec_matcher.is_match(&i32t_vec_20_n));
    assert!(sized_i64_vec_matcher.is_match(&i64t_vec_10_n));
    assert!(!sized_i64_vec_matcher.is_match(&i64t_vec_20_n));
}
