//! Abstract syntax of a PTX module: directives, functions, statements,
//! instructions, operands and the scalar/vector/pointer type model. Every
//! type has a well-defined byte size and alignment; both the code generator
//! and the kernel-argument metadata rely on them.

use vstd::prelude::*;

verus! {

/// A scalar PTX type: untyped bits, signed or unsigned integers, IEEE floats
/// of a fixed width, or a predicate register.
#[derive(Clone, Copy, PartialEq, Eq, Structural, Debug)]
pub enum ScalarType {
    B8,
    B16,
    B32,
    B64,
    U8,
    U16,
    U32,
    U64,
    S8,
    S16,
    S32,
    S64,
    F16,
    F32,
    F64,
    Pred,
}

/// The address space an operand or variable lives in.
#[derive(Clone, Copy, PartialEq, Eq, Structural, Debug)]
pub enum StateSpace {
    Reg,
    Const,
    Global,
    Local,
    Shared,
    Param,
    Generic,
}

impl ScalarType {
    /// Byte size of the scalar. A predicate occupies one byte when
    /// materialised.
    pub open spec fn spec_size_of(self) -> nat {
        match self {
            ScalarType::B8 => 1,
            ScalarType::B16 => 2,
            ScalarType::B32 => 4,
            ScalarType::B64 => 8,
            ScalarType::U8 => 1,
            ScalarType::U16 => 2,
            ScalarType::U32 => 4,
            ScalarType::U64 => 8,
            ScalarType::S8 => 1,
            ScalarType::S16 => 2,
            ScalarType::S32 => 4,
            ScalarType::S64 => 8,
            ScalarType::F16 => 2,
            ScalarType::F32 => 4,
            ScalarType::F64 => 8,
            ScalarType::Pred => 1,
        }
    }

    /// Byte size of the scalar.
    pub fn size_of(self) -> (r: usize)
        ensures
            r == self.spec_size_of(),
    {
        match self {
            ScalarType::B8 => 1,
            ScalarType::B16 => 2,
            ScalarType::B32 => 4,
            ScalarType::B64 => 8,
            ScalarType::U8 => 1,
            ScalarType::U16 => 2,
            ScalarType::U32 => 4,
            ScalarType::U64 => 8,
            ScalarType::S8 => 1,
            ScalarType::S16 => 2,
            ScalarType::S32 => 4,
            ScalarType::S64 => 8,
            ScalarType::F16 => 2,
            ScalarType::F32 => 4,
            ScalarType::F64 => 8,
            ScalarType::Pred => 1,
        }
    }

    /// Whether the scalar is one of the float types.
    pub open spec fn spec_is_float(self) -> bool {
        self == ScalarType::F16 || self == ScalarType::F32 || self == ScalarType::F64
    }

    /// Whether the scalar is one of the float types.
    pub fn is_float(self) -> (r: bool)
        ensures
            r == self.spec_is_float(),
    {
        match self {
            ScalarType::F16 => true,
            ScalarType::F32 => true,
            ScalarType::F64 => true,
            _ => false,
        }
    }

    /// Whether the scalar is a signed integer type.
    pub open spec fn spec_is_signed(self) -> bool {
        self == ScalarType::S8 || self == ScalarType::S16 || self == ScalarType::S32 || self
            == ScalarType::S64
    }

    /// Whether the scalar is a signed integer type.
    pub fn is_signed(self) -> (r: bool)
        ensures
            r == self.spec_is_signed(),
    {
        match self {
            ScalarType::S8 => true,
            ScalarType::S16 => true,
            ScalarType::S32 => true,
            ScalarType::S64 => true,
            _ => false,
        }
    }
}

/// A PTX value type: a scalar, a short vector of scalars, or a pointer into
/// an address space. With a 64-bit `.address_size` every pointer is 8 bytes.
#[derive(Clone, PartialEq, Eq, Structural, Debug)]
pub enum Type {
    Scalar(ScalarType),
    Vector(ScalarType, u8),
    Pointer(ScalarType, StateSpace),
}

/// Size in bytes of the pointers of this module; the module header fixes
/// `.address_size 64`.
pub open spec fn spec_pointer_size() -> nat {
    8
}

impl Type {
    /// Byte size of the type: a vector is its element count times the
    /// element size, and a pointer has the module's address size.
    pub open spec fn spec_size_of(self) -> nat {
        match self {
            Type::Scalar(t) => t.spec_size_of(),
            Type::Vector(t, n) => t.spec_size_of() * (n as nat),
            Type::Pointer(_, _) => spec_pointer_size(),
        }
    }

    /// Byte size of the type.
    pub fn size_of(&self) -> (r: usize)
        ensures
            r == self.spec_size_of(),
    {
        match self {
            Type::Scalar(t) => t.size_of(),
            Type::Vector(t, n) => {
                let e = t.size_of();
                proof {
                    assert(e * (*n as nat) <= 8 * 255) by (nonlinear_arith)
                        requires
                            e <= 8,
                    ;
                }
                e * (*n as usize)
            },
            Type::Pointer(_, _) => 8,
        }
    }

    /// Alignment in bytes: scalars and pointers align to their size, a
    /// vector aligns to its full byte size.
    pub open spec fn spec_align_of(self) -> nat {
        self.spec_size_of()
    }

    /// Alignment in bytes.
    pub fn align_of(&self) -> (r: usize)
        ensures
            r == self.spec_align_of(),
    {
        self.size_of()
    }
}

/// The four explicit rounding modes a conversion or float operation can
/// carry.
#[derive(Clone, Copy, PartialEq, Eq, Structural, Debug)]
pub enum RoundingMode {
    NearestEven,
    Zero,
    PositiveInf,
    NegativeInf,
}

/// Float comparison predicates. The `unordered` flag selects the variant
/// that is true when either operand is NaN; without it the comparison is
/// false on NaN operands, as IEEE 754 mandates.
#[derive(Clone, Copy, PartialEq, Eq, Structural, Debug)]
pub enum CmpOp {
    Eq,
    NotEq,
    Lt,
    Le,
    Gt,
    Ge,
}

/// A full comparison: the predicate plus the ordered/unordered choice.
#[derive(Clone, Copy, PartialEq, Eq, Structural, Debug)]
pub struct Comparison {
    pub op: CmpOp,
    pub unordered: bool,
}

/// The atomic operations the translator lowers.
#[derive(Clone, Copy, PartialEq, Eq, Structural, Debug)]
pub enum AtomOp {
    Add,
    Cas,
    Inc,
}

/// Approximate or precise math intrinsics lowered to the extended
/// instruction set.
#[derive(Clone, Copy, PartialEq, Eq, Structural, Debug)]
pub enum MathOp {
    Rcp,
    Sqrt,
    Rsqrt,
    Sin,
    Cos,
    Lg2,
    Ex2,
}

/// Integer and bit operations that share one binary shape.
#[derive(Clone, Copy, PartialEq, Eq, Structural, Debug)]
pub enum BitOp {
    And,
    Or,
    Xor,
    Shl,
    Shr,
}

/// A plain operand: a register by name or an immediate value.
#[derive(Clone, PartialEq, Eq, Debug)]
pub enum Operand {
    Reg(String),
    Imm(i64),
}

/// A memory operand: a base register or parameter name plus a constant byte
/// offset.
#[derive(Clone, Debug)]
pub struct AddressOperand {
    pub base: String,
    pub offset: i64,
}

/// A predicate guard on an instruction: the guard register and whether the
/// guard is negated.
#[derive(Clone, Debug)]
pub struct PredAt {
    pub not: bool,
    pub reg: String,
}

/// One PTX instruction of the supported subset, with its modifiers.
#[derive(Clone, Debug)]
pub enum Instruction {
    /// Load a value of type `typ` from `space` at `addr` into `dst`.
    Ld { space: StateSpace, typ: ScalarType, dst: String, addr: AddressOperand },
    /// Store `src` of type `typ` to `space` at `addr`.
    St { space: StateSpace, typ: ScalarType, addr: AddressOperand, src: Operand },
    /// Copy `src` into `dst`.
    Mov { typ: ScalarType, dst: String, src: Operand },
    /// Integer or float addition.
    Add { typ: ScalarType, dst: String, a: Operand, b: Operand },
    /// Integer or float subtraction.
    Sub { typ: ScalarType, dst: String, a: Operand, b: Operand },
    /// Multiplication. Integer multiplies keep the low half unless `wide`;
    /// float multiplies may carry the flush-to-zero modifier.
    Mul { typ: ScalarType, ftz: bool, wide: bool, dst: String, a: Operand, b: Operand },
    /// Conversion between scalar types, with optional explicit rounding,
    /// flush-to-zero and saturation.
    Cvt {
        rounding: Option<RoundingMode>,
        ftz: bool,
        saturate: bool,
        dst_type: ScalarType,
        src_type: ScalarType,
        dst: String,
        src: Operand,
    },
    /// Convert a pointer between the generic and a concrete address space.
    Cvta { space: StateSpace, dst: String, src: Operand },
    /// Compare and set a predicate register.
    Setp { cmp: Comparison, typ: ScalarType, dst: String, a: Operand, b: Operand },
    /// Select one of two values by a predicate register.
    Selp { typ: ScalarType, dst: String, a: Operand, b: Operand, pred: String },
    /// Unconditional branch to a label (conditional under a guard).
    Bra { target: String },
    /// Return from the kernel.
    Ret,
    /// Bitwise complement.
    Not { typ: ScalarType, dst: String, src: Operand },
    /// Bitwise and shift operations.
    Bit { op: BitOp, typ: ScalarType, dst: String, a: Operand, b: Operand },
    /// Atomic read-modify-write on memory.
    Atom {
        op: AtomOp,
        space: StateSpace,
        typ: ScalarType,
        dst: String,
        addr: AddressOperand,
        a: Operand,
        b: Option<Operand>,
    },
    /// Math intrinsic; `approx` keeps the approximate-precision variant.
    Math { op: MathOp, approx: bool, ftz: bool, typ: ScalarType, dst: String, src: Operand },
    /// Fused multiply-add with mandatory rounding mode.
    Fma {
        rounding: RoundingMode,
        ftz: bool,
        typ: ScalarType,
        dst: String,
        a: Operand,
        b: Operand,
        c: Operand,
    },
}

/// A statement of a function body: a block label, a register declaration or
/// a possibly guarded instruction.
#[derive(Clone, Debug)]
pub enum Statement {
    Label(String),
    Variable(VariableDecl),
    Instr(Option<PredAt>, Instruction),
}

/// A declared variable: its address space, type, name and, for parameterised
/// register declarations such as `%r<4>`, the instance count.
#[derive(Clone, Debug)]
pub struct VariableDecl {
    pub space: StateSpace,
    pub v_type: Type,
    pub name: String,
    pub count: Option<u32>,
}

/// One kernel input parameter, ordered as declared.
#[derive(Clone, Debug)]
pub struct KernelParam {
    pub name: String,
    pub v_type: Type,
}

/// The header of a function: an externally callable kernel entry point with
/// its input parameters, or a device-only function.
#[derive(Clone, Debug)]
pub enum MethodDecl {
    Kernel { name: String, in_args: Vec<KernelParam> },
    Func { name: String },
}

/// A function: its header and its body statements.
#[derive(Clone, Debug)]
pub struct PtxFunction {
    pub func_directive: MethodDecl,
    pub body: Vec<Statement>,
}

/// A module-level directive: a global/shared variable or a function.
#[derive(Clone, Debug)]
pub enum Directive {
    Variable(VariableDecl),
    Method(PtxFunction),
}

/// A parsed PTX module: the header triple (version, target, address size)
/// and the ordered directives. Exactly one header governs the whole module.
#[derive(Clone, Debug)]
pub struct PtxModule {
    pub version_major: u32,
    pub version_minor: u32,
    pub target: String,
    pub address_size: u32,
    pub directives: Vec<Directive>,
}

} // verus!
