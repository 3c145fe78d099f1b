//! Predicates over the *type* of a value: void, integer widths, float widths,
//! half, pointer, array, vector and scalable vector shapes.

use vstd::prelude::*;

use crate::ir::TypeNode;

verus! {

/// Type matcher tree: a closed sum over every type shape the library can test.
pub enum TypeMatcher {
    Any(AnyTypeMatcher),
    Void(VoidTypeMatcher),
    Int(IntTypeMatcher),
    Float(FloatTypeMatcher),
    Half(HalfTypeMatcher),
    Pointer(PointerTypeMatcher),
    Array(ArrayTypeMatcher),
    Vector(VectorTypeMatcher),
    ScalableVector(ScalableVectorTypeMatcher),
}

impl TypeMatcher {
    /// What this matcher tree answers on a given type.
    pub open spec fn spec_match(self, ty: TypeNode) -> bool
        decreases self,
    {
        match self {
            TypeMatcher::Any(m) => m.spec_match(ty),
            TypeMatcher::Void(m) => m.spec_match(ty),
            TypeMatcher::Int(m) => m.spec_match(ty),
            TypeMatcher::Float(m) => m.spec_match(ty),
            TypeMatcher::Half(m) => m.spec_match(ty),
            TypeMatcher::Pointer(m) => m.spec_match(ty),
            TypeMatcher::Array(m) => m.spec_match(ty),
            TypeMatcher::Vector(m) => m.spec_match(ty),
            TypeMatcher::ScalableVector(m) => m.spec_match(ty),
        }
    }

    pub fn is_match(&self, ty: &TypeNode) -> (r: bool)
        ensures
            r == self.spec_match(*ty),
        decreases self,
    {
        match self {
            TypeMatcher::Any(m) => m.is_match(ty),
            TypeMatcher::Void(m) => m.is_match(ty),
            TypeMatcher::Int(m) => m.is_match(ty),
            TypeMatcher::Float(m) => m.is_match(ty),
            TypeMatcher::Half(m) => m.is_match(ty),
            TypeMatcher::Pointer(m) => m.is_match(ty),
            TypeMatcher::Array(m) => m.is_match(ty),
            TypeMatcher::Vector(m) => m.is_match(ty),
            TypeMatcher::ScalableVector(m) => m.is_match(ty),
        }
    }
}

/// Matches every type; the default where no type constraint was given.
#[derive(Clone, Copy, Debug)]
pub struct AnyTypeMatcher;

impl AnyTypeMatcher {
    pub open spec fn spec_match(self, ty: TypeNode) -> bool {
        true
    }

    pub fn is_match(&self, ty: &TypeNode) -> (r: bool)
        ensures
            r == self.spec_match(*ty),
    {
        true
    }
}

/// Matches exactly the void type.
#[derive(Clone, Copy, Debug)]
pub struct VoidTypeMatcher;

impl VoidTypeMatcher {
    pub open spec fn spec_match(self, ty: TypeNode) -> bool {
        ty matches TypeNode::Void
    }

    pub fn is_match(&self, ty: &TypeNode) -> (r: bool)
        ensures
            r == self.spec_match(*ty),
    {
        matches!(ty, TypeNode::Void)
    }
}

/// The integer widths a type matcher can ask for.
#[derive(Clone, Copy, PartialEq, Eq, Structural, Debug)]
pub enum IntTypeSize {
    Size1,
    Size8,
    Size16,
    Size32,
    Size64,
}

impl IntTypeSize {
    /// The bit width this size stands for.
    pub open spec fn spec_width(self) -> u32 {
        match self {
            IntTypeSize::Size1 => 1u32,
            IntTypeSize::Size8 => 8u32,
            IntTypeSize::Size16 => 16u32,
            IntTypeSize::Size32 => 32u32,
            IntTypeSize::Size64 => 64u32,
        }
    }

    pub fn width(&self) -> (w: u32)
        ensures
            w == self.spec_width(),
    {
        match self {
            IntTypeSize::Size1 => 1,
            IntTypeSize::Size8 => 8,
            IntTypeSize::Size16 => 16,
            IntTypeSize::Size32 => 32,
            IntTypeSize::Size64 => 64,
        }
    }
}

/// Matches an integer type of one specific width.
#[derive(Clone, Copy, Debug)]
pub struct IntTypeMatcher {
    pub size: IntTypeSize,
}

impl IntTypeMatcher {
    pub open spec fn spec_match(self, ty: TypeNode) -> bool {
        match ty {
            TypeNode::Int { width } => width == self.size.spec_width(),
            _ => false,
        }
    }

    pub fn is_match(&self, ty: &TypeNode) -> (r: bool)
        ensures
            r == self.spec_match(*ty),
    {
        match ty {
            TypeNode::Int { width } => *width == self.size.width(),
            _ => false,
        }
    }
}

/// The float widths a type matcher can ask for.
#[derive(Clone, Copy, PartialEq, Eq, Structural, Debug)]
pub enum FloatTypeSize {
    Size32,
    Size64,
}

/// Matches the thirty-two or sixty-four bit floating-point type.
#[derive(Clone, Copy, Debug)]
pub struct FloatTypeMatcher {
    pub size: FloatTypeSize,
}

impl FloatTypeMatcher {
    pub open spec fn spec_match(self, ty: TypeNode) -> bool {
        match self.size {
            FloatTypeSize::Size32 => ty matches TypeNode::Float,
            FloatTypeSize::Size64 => ty matches TypeNode::Double,
        }
    }

    pub fn is_match(&self, ty: &TypeNode) -> (r: bool)
        ensures
            r == self.spec_match(*ty),
    {
        match self.size {
            FloatTypeSize::Size32 => matches!(ty, TypeNode::Float),
            FloatTypeSize::Size64 => matches!(ty, TypeNode::Double),
        }
    }
}

/// Matches exactly the half-precision float type.
#[derive(Clone, Copy, Debug)]
pub struct HalfTypeMatcher;

impl HalfTypeMatcher {
    pub open spec fn spec_match(self, ty: TypeNode) -> bool {
        ty matches TypeNode::Half
    }

    pub fn is_match(&self, ty: &TypeNode) -> (r: bool)
        ensures
            r == self.spec_match(*ty),
    {
        matches!(ty, TypeNode::Half)
    }
}

/// Matches any pointer type; matching is shape-only because pointers are
/// opaque.
#[derive(Clone, Copy, Debug)]
pub struct PointerTypeMatcher;

impl PointerTypeMatcher {
    pub open spec fn spec_match(self, ty: TypeNode) -> bool {
        ty matches TypeNode::Pointer
    }

    pub fn is_match(&self, ty: &TypeNode) -> (r: bool)
        ensures
            r == self.spec_match(*ty),
    {
        matches!(ty, TypeNode::Pointer)
    }
}

/// Matches an array type whose element type matches the nested matcher and,
/// when a length is given, whose length equals it exactly.
pub struct ArrayTypeMatcher {
    pub base_matcher: Box<TypeMatcher>,
    pub length: Option<u32>,
}

impl ArrayTypeMatcher {
    pub open spec fn spec_match(self, ty: TypeNode) -> bool
        decreases self,
    {
        match ty {
            TypeNode::Array { element, length } => self.base_matcher.spec_match(*element)
                && match self.length {
                Some(target) => target == length,
                None => true,
            },
            _ => false,
        }
    }

    pub fn is_match(&self, ty: &TypeNode) -> (r: bool)
        ensures
            r == self.spec_match(*ty),
        decreases self,
    {
        match ty {
            TypeNode::Array { element, length } => {
                if !self.base_matcher.is_match(element) {
                    return false;
                }
                match self.length {
                    Some(target) => target == *length,
                    None => true,
                }
            },
            _ => false,
        }
    }
}

/// Matches a fixed-length vector type whose element type matches the nested
/// matcher and, when a length is given, whose length equals it exactly.
pub struct VectorTypeMatcher {
    pub base_matcher: Box<TypeMatcher>,
    pub length: Option<u32>,
}

impl VectorTypeMatcher {
    pub open spec fn spec_match(self, ty: TypeNode) -> bool
        decreases self,
    {
        match ty {
            TypeNode::Vector { element, length } => self.base_matcher.spec_match(*element)
                && match self.length {
                Some(target) => target == length,
                None => true,
            },
            _ => false,
        }
    }

    pub fn is_match(&self, ty: &TypeNode) -> (r: bool)
        ensures
            r == self.spec_match(*ty),
        decreases self,
    {
        match ty {
            TypeNode::Vector { element, length } => {
                if !self.base_matcher.is_match(element) {
                    return false;
                }
                match self.length {
                    Some(target) => target == *length,
                    None => true,
                }
            },
            _ => false,
        }
    }
}

/// Matches any scalable vector type.
#[derive(Clone, Copy, Debug)]
pub struct ScalableVectorTypeMatcher;

impl ScalableVectorTypeMatcher {
    pub open spec fn spec_match(self, ty: TypeNode) -> bool {
        ty matches TypeNode::ScalableVector { .. }
    }

    pub fn is_match(&self, ty: &TypeNode) -> (r: bool)
        ensures
            r == self.spec_match(*ty),
    {
        matches!(ty, TypeNode::ScalableVector { .. })
    }
}


impl Clone for TypeMatcher {
    /// A structural copy: the clone equals the original.
    fn clone(&self) -> (res: Self)
        ensures
            res == *self,
        decreases self,
    {
        match self {
            TypeMatcher::Any(_) => TypeMatcher::Any(AnyTypeMatcher),
            TypeMatcher::Void(_) => TypeMatcher::Void(VoidTypeMatcher),
            TypeMatcher::Int(m) => TypeMatcher::Int(IntTypeMatcher { size: m.size }),
            TypeMatcher::Float(m) => TypeMatcher::Float(FloatTypeMatcher { size: m.size }),
            TypeMatcher::Half(_) => TypeMatcher::Half(HalfTypeMatcher),
            TypeMatcher::Pointer(_) => TypeMatcher::Pointer(PointerTypeMatcher),
            TypeMatcher::Array(m) => TypeMatcher::Array(
                ArrayTypeMatcher {
                    base_matcher: Box::new((*m.base_matcher).clone()),
                    length: m.length,
                },
            ),
            TypeMatcher::Vector(m) => TypeMatcher::Vector(
                VectorTypeMatcher {
                    base_matcher: Box::new((*m.base_matcher).clone()),
                    length: m.length,
                },
            ),
            TypeMatcher::ScalableVector(_) => TypeMatcher::ScalableVector(
                ScalableVectorTypeMatcher,
            ),
        }
    }
}


} // verus!
