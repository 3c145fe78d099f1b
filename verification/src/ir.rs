//! A plain-value model of a single node inside an already-parsed IR module.
//!
//! A node carries, as ordinary data, everything the matcher engine may read
//! through the accessor interface: opcode, value kind, its type, operands,
//! comparison predicates, the sign-extended value of an integer constant, the
//! callee of a call, debug coordinates, the length of the use-list, operand
//! bundle tags and the literal index path of an `extractvalue` instruction.

pub mod data_provider;
pub mod schema;
pub mod values;

use vstd::prelude::*;

verus! {

/// The operation tag of an instruction.
#[derive(Clone, Copy, PartialEq, Eq, Structural, Debug)]
pub enum Opcode {
    Add,
    Sub,
    Mul,
    SDiv,
    SRem,
    FAdd,
    FSub,
    FMul,
    FDiv,
    FRem,
    And,
    Or,
    Xor,
    Shl,
    LShr,
    AShr,
    ICmp,
    FCmp,
    Trunc,
    ZExt,
    SExt,
    FPToUI,
    FPToSI,
    FPTrunc,
    FPExt,
    PtrToInt,
    IntToPtr,
    BitCast,
    AddrSpaceCast,
    Ret,
    Call,
    Invoke,
    LandingPad,
    Resume,
    Unreachable,
    ExtractValue,
    GetElementPtr,
    Other,
}

/// The kind discriminant of a value node.
#[derive(Clone, Copy, PartialEq, Eq, Structural, Debug)]
pub enum ValueKind {
    ConstantInt,
    ConstantFP,
    ConstantPointerNull,
    ConstantExpr,
    Poison,
    Argument,
    BasicBlock,
    Function,
    Other,
}

/// The predicate tag carried by an integer comparison instruction.
#[derive(Clone, Copy, PartialEq, Eq, Structural, Debug)]
pub enum IntPredicate {
    EQ,
    NE,
    UGT,
    UGE,
    ULT,
    ULE,
    SGT,
    SGE,
    SLT,
    SLE,
}

/// The predicate tag carried by a floating-point comparison instruction.
#[derive(Clone, Copy, PartialEq, Eq, Structural, Debug)]
pub enum FloatPredicate {
    OEQ,
    OGT,
    OGE,
    OLT,
    OLE,
    ONE,
    ORD,
    UNO,
    UEQ,
    UGT,
    UGE,
    ULT,
    ULE,
    UNE,
}

/// A plain-value model of an IR type handle.
pub enum TypeNode {
    Void,
    Int { width: u32 },
    Float,
    Double,
    Half,
    Pointer,
    Array { element: Box<TypeNode>, length: u32 },
    Vector { element: Box<TypeNode>, length: u32 },
    ScalableVector { element: Box<TypeNode>, length: u32 },
    Other,
}

/// A plain-value model of an IR value node.
///
/// Fields that only make sense for some node kinds (a comparison predicate, a
/// constant's integer value, a callee) carry a neutral value elsewhere; the
/// matcher engine always checks the opcode or value kind before reading them.
pub struct IrNode {
    pub opcode: Opcode,
    pub value_kind: ValueKind,
    pub ty: TypeNode,
    pub operands: Vec<IrNode>,
    /// The declared symbol name (of a label, argument or function).
    pub name: String,
    /// The sign-extended sixty-four-bit value of an integer constant.
    pub int_value: i64,
    pub int_predicate: IntPredicate,
    pub float_predicate: FloatPredicate,
    /// The called value of a call or invoke instruction.
    pub callee: Option<Box<IrNode>>,
    /// The intrinsic identifier of a function; zero when not an intrinsic.
    pub intrinsic_id: u32,
    /// Whether an `or` instruction carries the disjoint flag.
    pub is_or_disjoint: bool,
    pub debug_line: u32,
    pub debug_column: u32,
    /// The length of the node's use-list.
    pub use_count: usize,
    /// The tags of the operand bundles attached to the instruction.
    pub operand_bundles: Vec<String>,
    /// The literal index path of an `extractvalue` instruction.
    pub extract_indices: Vec<i64>,
}

impl IrNode {
    /// A neutral node: no operands, no uses, no names, kind and opcode `Other`.
    pub fn new() -> (r: IrNode)
        ensures
            r.opcode == Opcode::Other,
            r.value_kind == ValueKind::Other,
            r.ty matches TypeNode::Other,
            r.operands@ == Seq::<IrNode>::empty(),
            r.name@ == Seq::<char>::empty(),
            r.int_value == 0,
            r.int_predicate == IntPredicate::EQ,
            r.float_predicate == FloatPredicate::OEQ,
            r.callee is None,
            r.intrinsic_id == 0,
            !r.is_or_disjoint,
            r.debug_line == 0,
            r.debug_column == 0,
            r.use_count == 0,
            r.operand_bundles@ == Seq::<String>::empty(),
            r.extract_indices@ == Seq::<i64>::empty(),
    {
        IrNode {
            opcode: Opcode::Other,
            value_kind: ValueKind::Other,
            ty: TypeNode::Other,
            operands: Vec::new(),
            name: String::new(),
            int_value: 0,
            int_predicate: IntPredicate::EQ,
            float_predicate: FloatPredicate::OEQ,
            callee: None,
            intrinsic_id: 0,
            is_or_disjoint: false,
            debug_line: 0,
            debug_column: 0,
            use_count: 0,
            operand_bundles: Vec::new(),
            extract_indices: Vec::new(),
        }
    }
}

impl Clone for TypeNode {
    /// A structural copy: the clone equals the original.
    fn clone(&self) -> (res: Self)
        ensures
            res == *self,
        decreases self,
    {
        match self {
            TypeNode::Void => TypeNode::Void,
            TypeNode::Int { width } => TypeNode::Int { width: *width },
            TypeNode::Float => TypeNode::Float,
            TypeNode::Double => TypeNode::Double,
            TypeNode::Half => TypeNode::Half,
            TypeNode::Pointer => TypeNode::Pointer,
            TypeNode::Array { element, length } => TypeNode::Array {
                element: Box::new((**element).clone()),
                length: *length,
            },
            TypeNode::Vector { element, length } => TypeNode::Vector {
                element: Box::new((**element).clone()),
                length: *length,
            },
            TypeNode::ScalableVector { element, length } => TypeNode::ScalableVector {
                element: Box::new((**element).clone()),
                length: *length,
            },
            TypeNode::Other => TypeNode::Other,
        }
    }
}

/// Whether two nodes carry the same observable content: every field the
/// accessor interface exposes is equal, recursively through the operands and
/// the callee.  Two nodes related this way are indistinguishable to the
/// matcher engine.
pub open spec fn same_node(a: IrNode, b: IrNode) -> bool
    decreases a,
{
    &&& a.opcode == b.opcode
    &&& a.value_kind == b.value_kind
    &&& a.ty == b.ty
    &&& a.name@ == b.name@
    &&& a.int_value == b.int_value
    &&& a.int_predicate == b.int_predicate
    &&& a.float_predicate == b.float_predicate
    &&& match (a.callee, b.callee) {
        (Option::None, Option::None) => true,
        (Option::Some(ca), Option::Some(cb)) => same_node(*ca, *cb),
        _ => false,
    }
    &&& a.intrinsic_id == b.intrinsic_id
    &&& a.is_or_disjoint == b.is_or_disjoint
    &&& a.debug_line == b.debug_line
    &&& a.debug_column == b.debug_column
    &&& a.use_count == b.use_count
    &&& a.operand_bundles@.len() == b.operand_bundles@.len()
    &&& forall|i: int|
        0 <= i < a.operand_bundles@.len() ==> (#[trigger] a.operand_bundles@[i])@
            == b.operand_bundles@[i]@
    &&& a.extract_indices@ == b.extract_indices@
    &&& a.operands@.len() == b.operands@.len()
    &&& forall|i: int|
        0 <= i < a.operands@.len() ==> same_node(#[trigger] a.operands@[i], b.operands@[i])
}

/// An element-for-element copy of a list of nodes.
fn clone_node_vec(v: &Vec<IrNode>) -> (r: Vec<IrNode>)
    ensures
        r@.len() == v@.len(),
        forall|i: int| 0 <= i < v@.len() ==> same_node(#[trigger] r@[i], v@[i]),
    decreases v@,
{
    let mut r: Vec<IrNode> = Vec::new();
    let mut i: usize = 0;
    while i < v.len()
        invariant
            i <= v@.len(),
            r@.len() == i,
            forall|j: int| 0 <= j < i ==> same_node(#[trigger] r@[j], v@[j]),
        decreases v@.len() - i,
    {
        let copy = v[i].clone();
        r.push(copy);
        i = i + 1;
    }
    r
}

/// An element-for-element copy of a list of strings.
fn clone_string_vec(v: &Vec<String>) -> (r: Vec<String>)
    ensures
        r@ == v@,
{
    let mut r: Vec<String> = Vec::new();
    let mut i: usize = 0;
    while i < v.len()
        invariant
            i <= v@.len(),
            r@ =~= v@.subrange(0, i as int),
        decreases v@.len() - i,
    {
        r.push(v[i].clone());
        i = i + 1;
    }
    proof {
        assert(v@.subrange(0, v@.len() as int) =~= v@);
    }
    r
}

impl Clone for IrNode {
    /// A deep copy: the copy carries the same observable content as the
    /// original, so by the matcher engine's congruence law every matcher
    /// answers the same on both.
    fn clone(&self) -> (res: Self)
        ensures
            same_node(res, *self),
        decreases self,
    {
        let operands = clone_node_vec(&self.operands);
        let callee = match &self.callee {
            Option::Some(callee) => Option::Some(Box::new((**callee).clone())),
            Option::None => Option::None,
        };
        let operand_bundles = clone_string_vec(&self.operand_bundles);
        let res = IrNode {
            opcode: self.opcode,
            value_kind: self.value_kind,
            ty: self.ty.clone(),
            operands,
            name: self.name.clone(),
            int_value: self.int_value,
            int_predicate: self.int_predicate,
            float_predicate: self.float_predicate,
            callee,
            intrinsic_id: self.intrinsic_id,
            is_or_disjoint: self.is_or_disjoint,
            debug_line: self.debug_line,
            debug_column: self.debug_column,
            use_count: self.use_count,
            operand_bundles,
            extract_indices: clone_i64_vec(&self.extract_indices),
        };
        proof {
            assert(same_node(res, *self));
        }
        res
    }
}

/// An element-for-element copy of a list of integers.
pub(crate) fn clone_i64_vec(v: &Vec<i64>) -> (r: Vec<i64>)
    ensures
        r@ == v@,
{
    let mut r: Vec<i64> = Vec::new();
    let mut i: usize = 0;
    while i < v.len()
        invariant
            i <= v@.len(),
            r@ =~= v@.subrange(0, i as int),
        decreases v@.len() - i,
    {
        r.push(v[i]);
        i = i + 1;
    }
    proof {
        assert(v@.subrange(0, v@.len() as int) =~= v@);
    }
    r
}

} // verus!
