//! Code generation: a deterministic, total mapping from the typed AST to a
//! SPIR-V module. Types and constants are interned once and referenced by
//! id everywhere; labels delimit basic blocks one-to-one; a block without a
//! terminator falls through by an inserted branch; conversions carry their
//! explicit rounding mode; flush-to-zero marks the kernel's float-control
//! mode; ordered and unordered comparisons keep their IEEE NaN behaviour by
//! opcode choice. Translation is all-or-nothing: any unsupported construct
//! is an error and no partial module is handed back.

use vstd::prelude::*;
use vstd::string::StringSliceAdditionalSpecFns;

use crate::ast::AtomOp;
use crate::ast::BitOp;
use crate::ast::CmpOp;
use crate::ast::Instruction;
use crate::ast::Comparison;
use crate::ast::MathOp;
use crate::ast::RoundingMode;
use crate::ast::ScalarType;
use crate::ast::Operand;
use crate::ast::StateSpace;
use crate::ast::Statement;
use crate::spirv::SpirvBlock;
use crate::spirv::SpirvInstruction;
use crate::spirv::SpirvOperand;
use crate::pool::ConstPool;
use crate::pool::FnTypePool;
use crate::pool::TypeKey;
use crate::pool::TypePool;

verus! {

/// Why a translation failed. Translation is all-or-nothing: any of these
/// means no artifact.
#[derive(Clone, Copy, PartialEq, Eq, Structural, Debug)]
pub enum TranslateError {
    /// A register or symbol is referenced without a prior declaration.
    UnknownSymbol,
    /// An opcode, modifier or construct outside the supported subset.
    Unsupported,
    /// An address space cannot be paired with this operation or type.
    InvalidAddressSpace,
    /// A branch names a label that the function does not define.
    UnresolvedLabel,
    /// The module needs more result ids than exist.
    IdOverflow,
}

pub const OP_EXTENSION: u16 = 10;

pub const OP_EXT_INST_IMPORT: u16 = 11;

pub const OP_EXT_INST: u16 = 12;

pub const OP_MEMORY_MODEL: u16 = 14;

pub const OP_ENTRY_POINT: u16 = 15;

pub const OP_EXECUTION_MODE: u16 = 16;

pub const OP_CAPABILITY: u16 = 17;

pub const OP_TYPE_VOID: u16 = 19;

pub const OP_TYPE_BOOL: u16 = 20;

pub const OP_TYPE_INT: u16 = 21;

pub const OP_TYPE_FLOAT: u16 = 22;

pub const OP_TYPE_VECTOR: u16 = 23;

pub const OP_TYPE_POINTER: u16 = 32;

pub const OP_TYPE_FUNCTION: u16 = 33;

pub const OP_CONSTANT: u16 = 43;

pub const OP_FUNCTION: u16 = 54;

pub const OP_FUNCTION_PARAMETER: u16 = 55;

pub const OP_FUNCTION_END: u16 = 56;

pub const OP_VARIABLE: u16 = 59;

pub const OP_LOAD: u16 = 61;

pub const OP_STORE: u16 = 62;

pub const OP_DECORATE: u16 = 71;

pub const OP_COMPOSITE_EXTRACT: u16 = 81;

pub const OP_COPY_OBJECT: u16 = 83;

pub const OP_CONVERT_F_TO_U: u16 = 109;

pub const OP_CONVERT_F_TO_S: u16 = 110;

pub const OP_CONVERT_S_TO_F: u16 = 111;

pub const OP_CONVERT_U_TO_F: u16 = 112;

pub const OP_U_CONVERT: u16 = 113;

pub const OP_S_CONVERT: u16 = 114;

pub const OP_F_CONVERT: u16 = 115;

pub const OP_CONVERT_PTR_TO_U: u16 = 117;

pub const OP_CONVERT_U_TO_PTR: u16 = 120;

pub const OP_BITCAST: u16 = 124;

pub const OP_I_ADD: u16 = 128;

pub const OP_F_ADD: u16 = 129;

pub const OP_I_SUB: u16 = 130;

pub const OP_F_SUB: u16 = 131;

pub const OP_I_MUL: u16 = 132;

pub const OP_F_MUL: u16 = 133;

pub const OP_F_DIV: u16 = 136;

pub const OP_LOGICAL_NOT: u16 = 168;

pub const OP_SELECT: u16 = 169;

pub const OP_I_EQUAL: u16 = 170;

pub const OP_I_NOT_EQUAL: u16 = 171;

pub const OP_U_GREATER_THAN: u16 = 172;

pub const OP_S_GREATER_THAN: u16 = 173;

pub const OP_U_GREATER_THAN_EQUAL: u16 = 174;

pub const OP_S_GREATER_THAN_EQUAL: u16 = 175;

pub const OP_U_LESS_THAN: u16 = 176;

pub const OP_S_LESS_THAN: u16 = 177;

pub const OP_U_LESS_THAN_EQUAL: u16 = 178;

pub const OP_S_LESS_THAN_EQUAL: u16 = 179;

pub const OP_F_ORD_EQUAL: u16 = 180;

pub const OP_F_UNORD_EQUAL: u16 = 181;

pub const OP_F_ORD_NOT_EQUAL: u16 = 182;

pub const OP_F_UNORD_NOT_EQUAL: u16 = 183;

pub const OP_F_ORD_LESS_THAN: u16 = 184;

pub const OP_F_UNORD_LESS_THAN: u16 = 185;

pub const OP_F_ORD_GREATER_THAN: u16 = 186;

pub const OP_F_UNORD_GREATER_THAN: u16 = 187;

pub const OP_F_ORD_LESS_THAN_EQUAL: u16 = 188;

pub const OP_F_UNORD_LESS_THAN_EQUAL: u16 = 189;

pub const OP_F_ORD_GREATER_THAN_EQUAL: u16 = 190;

pub const OP_F_UNORD_GREATER_THAN_EQUAL: u16 = 191;

pub const OP_SHIFT_RIGHT_LOGICAL: u16 = 194;

pub const OP_SHIFT_RIGHT_ARITHMETIC: u16 = 195;

pub const OP_SHIFT_LEFT_LOGICAL: u16 = 196;

pub const OP_BITWISE_OR: u16 = 197;

pub const OP_BITWISE_XOR: u16 = 198;

pub const OP_BITWISE_AND: u16 = 199;

pub const OP_NOT: u16 = 200;

pub const OP_ATOMIC_COMPARE_EXCHANGE: u16 = 230;

pub const OP_ATOMIC_I_INCREMENT: u16 = 232;

pub const OP_ATOMIC_I_ADD: u16 = 234;

pub const OP_LABEL: u16 = 248;

pub const OP_BRANCH: u16 = 249;

pub const OP_BRANCH_CONDITIONAL: u16 = 250;

pub const OP_RETURN: u16 = 253;

/// Storage classes of the kernel flavour of SPIR-V.
pub const SC_CROSS_WORKGROUP: u32 = 5;

pub const SC_WORKGROUP: u32 = 4;

pub const SC_UNIFORM_CONSTANT: u32 = 0;

pub const SC_INPUT: u32 = 1;

pub const SC_FUNCTION: u32 = 7;

pub const SC_GENERIC: u32 = 8;

/// Extended-instruction numbers of the OpenCL.std set used by the
/// generator. The `NAT_` entries are the approximate-precision variants:
/// an approximate PTX operation must stay approximate.
pub const CL_CEIL: u32 = 12;

pub const CL_COS: u32 = 14;

pub const CL_EXP2: u32 = 20;

pub const CL_FLOOR: u32 = 25;

pub const CL_FMA: u32 = 26;

pub const CL_LOG2: u32 = 38;

pub const CL_RINT: u32 = 53;

pub const CL_RSQRT: u32 = 56;

pub const CL_SIN: u32 = 57;

pub const CL_SQRT: u32 = 61;

pub const CL_TRUNC: u32 = 66;

pub const CL_NAT_COS: u32 = 81;

pub const CL_NAT_EXP2: u32 = 84;

pub const CL_NAT_LOG2: u32 = 87;

pub const CL_NAT_RECIP: u32 = 90;

pub const CL_NAT_RSQRT: u32 = 91;

pub const CL_NAT_SIN: u32 = 92;

pub const CL_NAT_SQRT: u32 = 93;

pub const CL_S_CLAMP: u32 = 149;

pub const CL_U_MIN: u32 = 159;

/// The comparison opcode a setp lowers to. Floats distinguish ordered from
/// unordered: the ordered form is false when an operand is NaN, the
/// unordered form is true, exactly as IEEE 754 asks of each variant;
/// integers ignore the flag.
pub open spec fn spec_comparison_opcode(cmp: Comparison, typ: ScalarType) -> u16 {
    if typ.spec_is_float() {
        match (cmp.op, cmp.unordered) {
            (CmpOp::Eq, false) => OP_F_ORD_EQUAL,
            (CmpOp::Eq, true) => OP_F_UNORD_EQUAL,
            (CmpOp::NotEq, false) => OP_F_ORD_NOT_EQUAL,
            (CmpOp::NotEq, true) => OP_F_UNORD_NOT_EQUAL,
            (CmpOp::Lt, false) => OP_F_ORD_LESS_THAN,
            (CmpOp::Lt, true) => OP_F_UNORD_LESS_THAN,
            (CmpOp::Le, false) => OP_F_ORD_LESS_THAN_EQUAL,
            (CmpOp::Le, true) => OP_F_UNORD_LESS_THAN_EQUAL,
            (CmpOp::Gt, false) => OP_F_ORD_GREATER_THAN,
            (CmpOp::Gt, true) => OP_F_UNORD_GREATER_THAN,
            (CmpOp::Ge, false) => OP_F_ORD_GREATER_THAN_EQUAL,
            (CmpOp::Ge, true) => OP_F_UNORD_GREATER_THAN_EQUAL,
        }
    } else {
        let signed = typ.spec_is_signed();
        match cmp.op {
            CmpOp::Eq => OP_I_EQUAL,
            CmpOp::NotEq => OP_I_NOT_EQUAL,
            CmpOp::Lt => if signed {
                OP_S_LESS_THAN
            } else {
                OP_U_LESS_THAN
            },
            CmpOp::Le => if signed {
                OP_S_LESS_THAN_EQUAL
            } else {
                OP_U_LESS_THAN_EQUAL
            },
            CmpOp::Gt => if signed {
                OP_S_GREATER_THAN
            } else {
                OP_U_GREATER_THAN
            },
            CmpOp::Ge => if signed {
                OP_S_GREATER_THAN_EQUAL
            } else {
                OP_U_GREATER_THAN_EQUAL
            },
        }
    }
}

/// The comparison opcode a setp lowers to; see `spec_comparison_opcode`.
pub fn comparison_opcode(cmp: Comparison, typ: ScalarType) -> (r: u16)
    ensures
        r == spec_comparison_opcode(cmp, typ),
{
    if typ.is_float() {
        match (cmp.op, cmp.unordered) {
            (CmpOp::Eq, false) => OP_F_ORD_EQUAL,
            (CmpOp::Eq, true) => OP_F_UNORD_EQUAL,
            (CmpOp::NotEq, false) => OP_F_ORD_NOT_EQUAL,
            (CmpOp::NotEq, true) => OP_F_UNORD_NOT_EQUAL,
            (CmpOp::Lt, false) => OP_F_ORD_LESS_THAN,
            (CmpOp::Lt, true) => OP_F_UNORD_LESS_THAN,
            (CmpOp::Le, false) => OP_F_ORD_LESS_THAN_EQUAL,
            (CmpOp::Le, true) => OP_F_UNORD_LESS_THAN_EQUAL,
            (CmpOp::Gt, false) => OP_F_ORD_GREATER_THAN,
            (CmpOp::Gt, true) => OP_F_UNORD_GREATER_THAN,
            (CmpOp::Ge, false) => OP_F_ORD_GREATER_THAN_EQUAL,
            (CmpOp::Ge, true) => OP_F_UNORD_GREATER_THAN_EQUAL,
        }
    } else {
        let signed = typ.is_signed();
        match cmp.op {
            CmpOp::Eq => OP_I_EQUAL,
            CmpOp::NotEq => OP_I_NOT_EQUAL,
            CmpOp::Lt => if signed {
                OP_S_LESS_THAN
            } else {
                OP_U_LESS_THAN
            },
            CmpOp::Le => if signed {
                OP_S_LESS_THAN_EQUAL
            } else {
                OP_U_LESS_THAN_EQUAL
            },
            CmpOp::Gt => if signed {
                OP_S_GREATER_THAN
            } else {
                OP_U_GREATER_THAN
            },
            CmpOp::Ge => if signed {
                OP_S_GREATER_THAN_EQUAL
            } else {
                OP_U_GREATER_THAN_EQUAL
            },
        }
    }
}

/// The extended instruction a math intrinsic lowers to. The approximate
/// variant maps to the `native_` entry and the precise variant to the full
/// one; an approximate operation is never silently upgraded. A precise
/// reciprocal has no entry: it lowers to a division instead.
pub open spec fn spec_math_extinst(op: MathOp, approx: bool) -> Option<u32> {
    match (op, approx) {
        (MathOp::Rcp, true) => Some(CL_NAT_RECIP),
        (MathOp::Rcp, false) => None,
        (MathOp::Sqrt, true) => Some(CL_NAT_SQRT),
        (MathOp::Sqrt, false) => Some(CL_SQRT),
        (MathOp::Rsqrt, true) => Some(CL_NAT_RSQRT),
        (MathOp::Rsqrt, false) => Some(CL_RSQRT),
        (MathOp::Sin, true) => Some(CL_NAT_SIN),
        (MathOp::Sin, false) => Some(CL_SIN),
        (MathOp::Cos, true) => Some(CL_NAT_COS),
        (MathOp::Cos, false) => Some(CL_COS),
        (MathOp::Lg2, true) => Some(CL_NAT_LOG2),
        (MathOp::Lg2, false) => Some(CL_LOG2),
        (MathOp::Ex2, true) => Some(CL_NAT_EXP2),
        (MathOp::Ex2, false) => Some(CL_EXP2),
    }
}

/// The extended instruction a math intrinsic lowers to; see
/// `spec_math_extinst`.
pub fn math_extinst(op: MathOp, approx: bool) -> (r: Option<u32>)
    ensures
        r == spec_math_extinst(op, approx),
{
    match (op, approx) {
        (MathOp::Rcp, true) => Some(CL_NAT_RECIP),
        (MathOp::Rcp, false) => None,
        (MathOp::Sqrt, true) => Some(CL_NAT_SQRT),
        (MathOp::Sqrt, false) => Some(CL_SQRT),
        (MathOp::Rsqrt, true) => Some(CL_NAT_RSQRT),
        (MathOp::Rsqrt, false) => Some(CL_RSQRT),
        (MathOp::Sin, true) => Some(CL_NAT_SIN),
        (MathOp::Sin, false) => Some(CL_SIN),
        (MathOp::Cos, true) => Some(CL_NAT_COS),
        (MathOp::Cos, false) => Some(CL_COS),
        (MathOp::Lg2, true) => Some(CL_NAT_LOG2),
        (MathOp::Lg2, false) => Some(CL_LOG2),
        (MathOp::Ex2, true) => Some(CL_NAT_EXP2),
        (MathOp::Ex2, false) => Some(CL_EXP2),
    }
}

/// The round-to-integral extended instruction of each rounding mode:
/// nearest-even rounds half to even, zero truncates, and the two directed
/// modes take the ceiling and the floor.
pub open spec fn spec_rounding_extinst(r: RoundingMode) -> u32 {
    match r {
        RoundingMode::NearestEven => CL_RINT,
        RoundingMode::Zero => CL_TRUNC,
        RoundingMode::PositiveInf => CL_CEIL,
        RoundingMode::NegativeInf => CL_FLOOR,
    }
}

/// The round-to-integral extended instruction of each rounding mode; see
/// `spec_rounding_extinst`.
pub fn rounding_extinst(r: RoundingMode) -> (n: u32)
    ensures
        n == spec_rounding_extinst(r),
{
    match r {
        RoundingMode::NearestEven => CL_RINT,
        RoundingMode::Zero => CL_TRUNC,
        RoundingMode::PositiveInf => CL_CEIL,
        RoundingMode::NegativeInf => CL_FLOOR,
    }
}

/// The storage class an address space maps to.
pub open spec fn spec_storage_class(space: StateSpace) -> u32 {
    match space {
        StateSpace::Reg => SC_FUNCTION,
        StateSpace::Const => SC_UNIFORM_CONSTANT,
        StateSpace::Global => SC_CROSS_WORKGROUP,
        StateSpace::Local => SC_FUNCTION,
        StateSpace::Shared => SC_WORKGROUP,
        StateSpace::Param => SC_FUNCTION,
        StateSpace::Generic => SC_GENERIC,
    }
}

/// The storage class an address space maps to; see `spec_storage_class`.
pub fn storage_class(space: StateSpace) -> (r: u32)
    ensures
        r == spec_storage_class(space),
{
    match space {
        StateSpace::Reg => SC_FUNCTION,
        StateSpace::Const => SC_UNIFORM_CONSTANT,
        StateSpace::Global => SC_CROSS_WORKGROUP,
        StateSpace::Local => SC_FUNCTION,
        StateSpace::Shared => SC_WORKGROUP,
        StateSpace::Param => SC_FUNCTION,
        StateSpace::Generic => SC_GENERIC,
    }
}

/// The flat type key of a scalar: predicates become booleans, integers
/// keep their width and PTX signedness, floats their width.
pub open spec fn spec_scalar_key(t: ScalarType) -> TypeKey {
    match t {
        ScalarType::Pred => TypeKey::Bool,
        ScalarType::F16 => TypeKey::Float { width: 16 },
        ScalarType::F32 => TypeKey::Float { width: 32 },
        ScalarType::F64 => TypeKey::Float { width: 64 },
        ScalarType::S8 => TypeKey::Int { width: 8, signed: true },
        ScalarType::S16 => TypeKey::Int { width: 16, signed: true },
        ScalarType::S32 => TypeKey::Int { width: 32, signed: true },
        ScalarType::S64 => TypeKey::Int { width: 64, signed: true },
        ScalarType::B8 => TypeKey::Int { width: 8, signed: false },
        ScalarType::B16 => TypeKey::Int { width: 16, signed: false },
        ScalarType::B32 => TypeKey::Int { width: 32, signed: false },
        ScalarType::B64 => TypeKey::Int { width: 64, signed: false },
        ScalarType::U8 => TypeKey::Int { width: 8, signed: false },
        ScalarType::U16 => TypeKey::Int { width: 16, signed: false },
        ScalarType::U32 => TypeKey::Int { width: 32, signed: false },
        ScalarType::U64 => TypeKey::Int { width: 64, signed: false },
    }
}

/// The flat type key of a scalar; see `spec_scalar_key`.
pub fn scalar_key(t: ScalarType) -> (r: TypeKey)
    ensures
        r == spec_scalar_key(t),
{
    match t {
        ScalarType::Pred => TypeKey::Bool,
        ScalarType::F16 => TypeKey::Float { width: 16 },
        ScalarType::F32 => TypeKey::Float { width: 32 },
        ScalarType::F64 => TypeKey::Float { width: 64 },
        ScalarType::S8 => TypeKey::Int { width: 8, signed: true },
        ScalarType::S16 => TypeKey::Int { width: 16, signed: true },
        ScalarType::S32 => TypeKey::Int { width: 32, signed: true },
        ScalarType::S64 => TypeKey::Int { width: 64, signed: true },
        ScalarType::B8 => TypeKey::Int { width: 8, signed: false },
        ScalarType::B16 => TypeKey::Int { width: 16, signed: false },
        ScalarType::B32 => TypeKey::Int { width: 32, signed: false },
        ScalarType::B64 => TypeKey::Int { width: 64, signed: false },
        ScalarType::U8 => TypeKey::Int { width: 8, signed: false },
        ScalarType::U16 => TypeKey::Int { width: 16, signed: false },
        ScalarType::U32 => TypeKey::Int { width: 32, signed: false },
        ScalarType::U64 => TypeKey::Int { width: 64, signed: false },
    }
}

/// The truncation mask of a scalar's byte size.
pub open spec fn spec_imm_mask(t: ScalarType) -> u64 {
    if t.spec_size_of() == 1 {
        0xffu64
    } else if t.spec_size_of() == 2 {
        0xffffu64
    } else if t.spec_size_of() == 4 {
        0xffff_ffffu64
    } else {
        0xffff_ffff_ffff_ffffu64
    }
}

/// The raw constant bits of an immediate: its two's-complement image
/// truncated to the byte size of its type.
pub fn imm_bits(v: i64, t: ScalarType) -> (r: u64)
    ensures
        r == (v as u64) & spec_imm_mask(t),
{
    let raw = #[verifier::truncate] (v as u64);
    let size = t.size_of();
    if size == 1 {
        raw & 0xff
    } else if size == 2 {
        raw & 0xffff
    } else if size == 4 {
        raw & 0xffff_ffff
    } else {
        raw & 0xffff_ffff_ffff_ffff
    }
}

/// The id allocator with the three interning pools. Every id it has handed
/// out is below `next_id`, so a pool is never asked to intern under an id
/// it already holds.
pub struct ModuleBuilder {
    pub next_id: u32,
    pub types: TypePool,
    pub consts: ConstPool,
    pub fn_types: FnTypePool,
}

impl ModuleBuilder {
    /// Ids handed out so far are below `next_id`, and each pool is well
    /// formed and uses only such ids.
    pub open spec fn wf(&self) -> bool {
        &&& 1 <= self.bound()
        &&& self.types.wf()
        &&& self.consts.wf()
        &&& self.fn_types.wf()
        &&& forall|i: int|
            0 <= i < self.types@.len() ==> (#[trigger] self.types@[i]).1 < self.bound()
        &&& forall|i: int|
            0 <= i < self.consts@.len() ==> (#[trigger] self.consts@[i]).1 < self.bound()
        &&& forall|i: int|
            0 <= i < self.fn_types@.len() ==> (#[trigger] self.fn_types@[i]).2 < self.bound()
        &&& forall|i: int, j: int|
            0 <= i < self.types@.len() && 0 <= j < self.consts@.len() ==> (
            #[trigger] self.types@[i]).1 != (#[trigger] self.consts@[j]).1
        &&& forall|i: int, j: int|
            0 <= i < self.types@.len() && 0 <= j < self.fn_types@.len() ==> (
            #[trigger] self.types@[i]).1 != (#[trigger] self.fn_types@[j]).2
        &&& forall|i: int, j: int|
            0 <= i < self.consts@.len() && 0 <= j < self.fn_types@.len() ==> (
            #[trigger] self.consts@[i]).1 != (#[trigger] self.fn_types@[j]).2
    }

    /// The first id not handed out yet: the id bound of the module.
    pub closed spec fn bound(&self) -> u32 {
        self.next_id
    }

    /// A fresh builder whose first id is 1, as the SPIR-V id namespace asks.
    pub fn new() -> (r: ModuleBuilder)
        ensures
            r.wf(),
            r.bound() == 1,
    {
        ModuleBuilder {
            next_id: 1,
            types: TypePool::new(),
            consts: ConstPool::new(),
            fn_types: FnTypePool::new(),
        }
    }

    /// The id bound of the module so far.
    pub fn id_bound(&self) -> (r: u32)
        ensures
            r == self.bound(),
    {
        self.next_id
    }

    /// Allocates a fresh id, or fails when the id space is exhausted.
    pub fn fresh_id(&mut self) -> (r: Result<u32, TranslateError>)
        requires
            old(self).wf(),
        ensures
            final(self).wf(),
            final(self).types@ == old(self).types@,
            final(self).consts@ == old(self).consts@,
            final(self).fn_types@ == old(self).fn_types@,
            r is Ok ==> r.unwrap() == old(self).bound() && final(self).bound() == old(self).bound() + 1,
            r is Err ==> *final(self) == *old(self),
            old(self).bound() < 0xffff_ffff ==> r is Ok,
    {
        if self.next_id == 0xffff_ffff {
            return Err(TranslateError::IdOverflow);
        }
        let id = self.next_id;
        self.next_id = self.next_id + 1;
        Ok(id)
    }

    /// The id of the given type, interning it on first use: one declaration
    /// per logical type, shared by every use site.
    pub fn type_id(&mut self, key: TypeKey) -> (r: Result<u32, TranslateError>)
        requires
            old(self).wf(),
        ensures
            final(self).wf(),
            final(self).consts@ == old(self).consts@,
            final(self).fn_types@ == old(self).fn_types@,
            r is Ok ==> crate::pool::pool_has(final(self).types@, key) && r.unwrap()
                == crate::pool::pool_id_of(final(self).types@, key),
            r is Ok && crate::pool::pool_has(old(self).types@, key) ==> final(self).types@ == old(self).types@,
            r is Ok && !crate::pool::pool_has(old(self).types@, key) ==> final(self).types@ == old(self).types@.push((key, old(self).bound())),
            crate::pool::pool_has(old(self).types@, key) ==> r is Ok && *final(self) == *old(self),
    {
        let probe = self.types.intern_probe(key);
        match probe {
            Some(id) => Ok(id),
            None => {
                let fresh = self.fresh_id()?;
                let (id, _added) = self.types.intern(key, fresh);
                Ok(id)
            },
        }
    }

    /// The id of the given scalar constant, interning it on first use.
    pub fn const_id(&mut self, type_id: u32, bits: u64) -> (r: Result<u32, TranslateError>)
        requires
            old(self).wf(),
        ensures
            final(self).wf(),
            final(self).types@ == old(self).types@,
            final(self).fn_types@ == old(self).fn_types@,
            r is Ok ==> crate::pool::cpool_has(final(self).consts@, (type_id, bits)) && r.unwrap()
                == crate::pool::cpool_id_of(final(self).consts@, (type_id, bits)),
            r is Ok && crate::pool::cpool_has(old(self).consts@, (type_id, bits)) ==> final(self).consts@ == old(self).consts@,
            r is Ok && !crate::pool::cpool_has(old(self).consts@, (type_id, bits)) ==> final(self).consts@ == old(self).consts@.push(((type_id, bits), old(self).bound())),
    {
        let probe = self.consts.intern_probe((type_id, bits));
        match probe {
            Some(id) => Ok(id),
            None => {
                let fresh = self.fresh_id()?;
                let (id, _added) = self.consts.intern((type_id, bits), fresh);
                Ok(id)
            },
        }
    }

    /// The id of the given function type, interning it on first use.
    pub fn fn_type_id(&mut self, params: Vec<u32>, ret: u32) -> (r: Result<u32, TranslateError>)
        requires
            old(self).wf(),
        ensures
            final(self).wf(),
            final(self).types@ == old(self).types@,
            final(self).consts@ == old(self).consts@,
            r is Ok ==> crate::pool::fpool_has(final(self).fn_types@, (params@, ret)) && r.unwrap()
                == crate::pool::fpool_id_of(final(self).fn_types@, (params@, ret)),
            r is Ok && crate::pool::fpool_has(old(self).fn_types@, (params@, ret)) ==> final(self).fn_types@ == old(self).fn_types@,
            r is Ok && !crate::pool::fpool_has(old(self).fn_types@, (params@, ret)) ==> final(self).fn_types@ == old(self).fn_types@.push((params, ret, old(self).bound())),
            crate::pool::fpool_has(old(self).fn_types@, (params@, ret)) ==> r is Ok,
    {
        let probe = self.fn_types.intern_probe(&params, ret);
        match probe {
            Some(id) => Ok(id),
            None => {
                let fresh = self.fresh_id()?;
                let (id, _added) = self.fn_types.intern(params, ret, fresh);
                Ok(id)
            },
        }
    }
}

/// One named value the generator knows: a register, a parameter or a
/// module variable, with the id of the pointer that holds it.
pub struct SymEntry {
    pub name: String,
    pub var_id: u32,
    pub typ: ScalarType,
    pub space: StateSpace,
}

/// The symbol is declared.
pub open spec fn sym_declared(entries: Seq<SymEntry>, name: Seq<char>) -> bool {
    exists|i: int| 0 <= i < entries.len() && (#[trigger] entries[i]).name@ == name
}

/// The symbol table of one kernel: registers, parameters and the module
/// variables in scope. Resolution fails exactly on names that were never
/// declared.
pub struct Symbols {
    pub entries: Vec<SymEntry>,
}

impl Symbols {
    /// The declared symbols in declaration order.
    pub open spec fn view(&self) -> Seq<SymEntry> {
        self.entries@
    }

    /// An empty table.
    pub fn new() -> (r: Symbols)
        ensures
            r@.len() == 0,
    {
        Symbols { entries: Vec::new() }
    }

    /// Declares a symbol.
    pub fn insert(&mut self, name: String, var_id: u32, typ: ScalarType, space: StateSpace)
        ensures
            final(self)@.len() == old(self)@.len() + 1,
            sym_declared(final(self)@, name@),
            forall|n: Seq<char>| sym_declared(old(self)@, n) ==> sym_declared(final(self)@, n),
    {
        let ghost pre = self@;
        self.entries.push(SymEntry { name, var_id, typ, space });
        proof {
            assert(self@[self@.len() - 1].name@ == name@);
            assert forall|n: Seq<char>| sym_declared(pre, n) implies sym_declared(self@, n) by {
                let i = choose|i: int| 0 <= i < pre.len() && (#[trigger] pre[i]).name@ == n;
                assert(self@[i].name@ == n);
            }
        }
    }

    /// Resolves a name to its pointer id, type and address space; the last
    /// declaration of the name wins. It succeeds exactly when the name was
    /// declared: a reference to an undeclared register resolves to nothing.
    #[verifier::loop_isolation(false)]
    pub fn lookup(&self, name: &str) -> (r: Option<(u32, ScalarType, StateSpace)>)
        ensures
            r is Some <==> sym_declared(self@, name@),
    {
        let n = self.entries.len();
        let mut i: usize = n;
        while i > 0
            invariant
                i <= n,
                forall|j: int| i <= j < n ==> (#[trigger] self@[j]).name@ != name@,
            decreases i,
        {
            i -= 1;
            if str_eq_chars(self.entries[i].name.as_str(), name) {
                proof {
                    assert(self@[i as int].name@ == name@);
                }
                return Some((self.entries[i].var_id, self.entries[i].typ, self.entries[i].space));
            }
        }
        proof {
            if sym_declared(self@, name@) {
                let j = choose|j: int| 0 <= j < self@.len() && (#[trigger] self@[j]).name@ == name@;
                assert(self@[j].name@ != name@);
            }
        }
        None
    }
}

/// Character-for-character equality of two ASCII-checked strings, at the
/// level of their character views.
fn str_eq_chars(a: &str, b: &str) -> (r: bool)
    ensures
        r == (a@ == b@),
{
    let ab = a.as_bytes();
    let bb = b.as_bytes();
    if ab.len() != bb.len() {
        proof {
            if a@ == b@ {
                assert(a.spec_bytes() == b.spec_bytes());
            }
        }
        return false;
    }
    let n = ab.len();
    let mut i: usize = 0;
    while i < n
        invariant
            i <= n,
            n == ab@.len() == bb@.len(),
            ab@ == a.spec_bytes(),
            bb@ == b.spec_bytes(),
            forall|k: int| 0 <= k < i ==> ab@[k] == bb@[k],
        decreases n - i,
    {
        if ab[i] != bb[i] {
            proof {
                if a@ == b@ {
                    assert(a.spec_bytes() == b.spec_bytes());
                    assert(a.spec_bytes()[i as int] == b.spec_bytes()[i as int]);
                }
            }
            return false;
        }
        i += 1;
    }
    proof {
        assert(a.spec_bytes() =~= b.spec_bytes());
        vstd::utf8::encode_utf8_decode_utf8(a@);
        vstd::utf8::encode_utf8_decode_utf8(b@);
        assert(a@ == vstd::utf8::decode_utf8(vstd::utf8::encode_utf8(a@)));
        assert(a@ == b@);
    }
    true
}

/// Scope and memory-semantics values used by the atomics.
pub const SCOPE_DEVICE: u32 = 1;

pub const SEMANTICS_RELAXED: u32 = 0;

/// Decoration and builtin numbers used for the special registers.
pub const DEC_BUILTIN: u32 = 11;

pub const BI_NUM_WORKGROUPS: u32 = 24;

pub const BI_WORKGROUP_SIZE: u32 = 25;

pub const BI_WORKGROUP_ID: u32 = 26;

pub const BI_LOCAL_INVOCATION_ID: u32 = 27;

/// Per-kernel state gathered while its body is lowered: the entry-block
/// variables, module-scope variables created for builtin registers, their
/// decorations, the entry-point interface, and what the kernel was seen to
/// use.
pub struct KernelState {
    pub ext_set: u32,
    pub vars: Vec<SpirvInstruction>,
    pub global_vars: Vec<SpirvInstruction>,
    pub decorations: Vec<SpirvInstruction>,
    pub builtins: Vec<(u32, u32)>,
    pub interface: Vec<u32>,
    pub uses_shared: bool,
    pub ftz32: bool,
    pub ftz64: bool,
}

impl KernelState {
    /// A fresh state for one kernel; `ext_set` is the id of the imported
    /// extended instruction set.
    pub fn new(ext_set: u32) -> (r: KernelState) {
        KernelState {
            ext_set,
            vars: Vec::new(),
            global_vars: Vec::new(),
            decorations: Vec::new(),
            builtins: Vec::new(),
            interface: Vec::new(),
            uses_shared: false,
            ftz32: false,
            ftz64: false,
        }
    }
}

/// The operands of the extended-set import: the set's name packed into
/// words, four bytes each, little-endian, zero-terminated.
fn ext_import_ops() -> (r: Vec<SpirvOperand>)
    ensures
        r@.len() == 3,
{
    let mut ops: Vec<SpirvOperand> = Vec::new();
    ops.push(SpirvOperand::LiteralU32(0x6E65704F));
    ops.push(SpirvOperand::LiteralU32(0x732E4C43));
    ops.push(SpirvOperand::LiteralU32(0x0000_6474));
    ops
}

/// Builds one instruction value.
fn instr(opcode: u16, result_type: Option<u32>, result_id: Option<u32>, operands: Vec<
    SpirvOperand,
>) -> (r: SpirvInstruction)
    ensures
        r.opcode == opcode,
        r.result_type == result_type,
        r.result_id == result_id,
        r.operands == operands,
{
    SpirvInstruction { opcode, result_type, result_id, operands }
}

/// The builtin input a special register reads, and which component: the
/// thread index reads the local invocation id, the block dimensions the
/// workgroup size, the block index the workgroup id, and the grid
/// dimensions the number of workgroups.
fn builtin_of(name: &str) -> (r: Option<(u32, u32)>) {
    let pieces: [(u32, u32); 12] = [
        (BI_LOCAL_INVOCATION_ID, 0),
        (BI_LOCAL_INVOCATION_ID, 1),
        (BI_LOCAL_INVOCATION_ID, 2),
        (BI_WORKGROUP_SIZE, 0),
        (BI_WORKGROUP_SIZE, 1),
        (BI_WORKGROUP_SIZE, 2),
        (BI_WORKGROUP_ID, 0),
        (BI_WORKGROUP_ID, 1),
        (BI_WORKGROUP_ID, 2),
        (BI_NUM_WORKGROUPS, 0),
        (BI_NUM_WORKGROUPS, 1),
        (BI_NUM_WORKGROUPS, 2),
    ];
    if str_eq(name, "%tid.x") {
        Some(pieces[0])
    } else if str_eq(name, "%tid.y") {
        Some(pieces[1])
    } else if str_eq(name, "%tid.z") {
        Some(pieces[2])
    } else if str_eq(name, "%ntid.x") {
        Some(pieces[3])
    } else if str_eq(name, "%ntid.y") {
        Some(pieces[4])
    } else if str_eq(name, "%ntid.z") {
        Some(pieces[5])
    } else if str_eq(name, "%ctaid.x") {
        Some(pieces[6])
    } else if str_eq(name, "%ctaid.y") {
        Some(pieces[7])
    } else if str_eq(name, "%ctaid.z") {
        Some(pieces[8])
    } else if str_eq(name, "%nctaid.x") {
        Some(pieces[9])
    } else if str_eq(name, "%nctaid.y") {
        Some(pieces[10])
    } else if str_eq(name, "%nctaid.z") {
        Some(pieces[11])
    } else {
        None
    }
}

/// Byte-for-byte equality of two ASCII strings (shared with the parser's
/// modifier matching).
fn str_eq(a: &str, b: &str) -> (r: bool) {
    let ab = a.as_bytes();
    let bb = b.as_bytes();
    if ab.len() != bb.len() {
        return false;
    }
    let n = ab.len();
    let mut i: usize = 0;
    while i < n
        invariant
            i <= n,
            n == ab@.len() == bb@.len(),
        decreases n - i,
    {
        if ab[i] != bb[i] {
            return false;
        }
        i += 1;
    }
    true
}

/// Reads one component of a builtin input: declares the decorated input
/// variable on first use, loads the three-component vector, extracts the
/// component and narrows it to the asked-for integer type.
fn builtin_value(
    b: &mut ModuleBuilder,
    ks: &mut KernelState,
    code: u32,
    comp: u32,
    typ: ScalarType,
    out: &mut Vec<SpirvInstruction>,
) -> (r: Result<u32, TranslateError>)
    requires
        old(b).wf(),
    ensures
        final(b).wf(),
{
    if typ.is_float() {
        return Err(TranslateError::Unsupported);
    }
    let u64_t = b.type_id(scalar_key(ScalarType::U64))?;
    let vec_t = b.type_id(TypeKey::Vector { elem: u64_t, count: 3 })?;
    let ptr_t = b.type_id(TypeKey::Pointer { storage: SC_INPUT, pointee: vec_t })?;
    // find or create the input variable of this builtin
    let mut var: Option<u32> = None;
    let nb = ks.builtins.len();
    let mut i: usize = 0;
    while i < nb
        invariant
            i <= nb,
            nb == ks.builtins@.len(),
        decreases nb - i,
    {
        if ks.builtins[i].0 == code {
            var = Some(ks.builtins[i].1);
        }
        i += 1;
    }
    let var_id = match var {
        Some(v) => v,
        None => {
            let v = b.fresh_id()?;
            let mut ops: Vec<SpirvOperand> = Vec::new();
            ops.push(SpirvOperand::LiteralU32(SC_INPUT));
            ks.global_vars.push(instr(OP_VARIABLE, Some(ptr_t), Some(v), ops));
            let mut dec_ops: Vec<SpirvOperand> = Vec::new();
            dec_ops.push(SpirvOperand::IdRef(v));
            dec_ops.push(SpirvOperand::LiteralU32(DEC_BUILTIN));
            dec_ops.push(SpirvOperand::LiteralU32(code));
            ks.decorations.push(instr(OP_DECORATE, None, None, dec_ops));
            ks.builtins.push((code, v));
            ks.interface.push(v);
            v
        },
    };
    let vec_val = b.fresh_id()?;
    let mut load_ops: Vec<SpirvOperand> = Vec::new();
    load_ops.push(SpirvOperand::IdRef(var_id));
    out.push(instr(OP_LOAD, Some(vec_t), Some(vec_val), load_ops));
    let comp_val = b.fresh_id()?;
    let mut ext_ops: Vec<SpirvOperand> = Vec::new();
    ext_ops.push(SpirvOperand::IdRef(vec_val));
    ext_ops.push(SpirvOperand::LiteralU32(comp));
    out.push(instr(OP_COMPOSITE_EXTRACT, Some(u64_t), Some(comp_val), ext_ops));
    if typ.size_of() == 8 {
        if matches!(scalar_key(typ), TypeKey::Int { width: 64, signed: false }) {
            return Ok(comp_val);
        }
        let t = b.type_id(scalar_key(typ))?;
        let cast = b.fresh_id()?;
        let mut cast_ops: Vec<SpirvOperand> = Vec::new();
        cast_ops.push(SpirvOperand::IdRef(comp_val));
        out.push(instr(OP_BITCAST, Some(t), Some(cast), cast_ops));
        return Ok(cast);
    }
    let t = b.type_id(scalar_key(typ))?;
    let narrow = b.fresh_id()?;
    let mut conv_ops: Vec<SpirvOperand> = Vec::new();
    conv_ops.push(SpirvOperand::IdRef(comp_val));
    out.push(instr(OP_U_CONVERT, Some(t), Some(narrow), conv_ops));
    Ok(narrow)
}

/// Loads the value of one operand as the given scalar type: a register is
/// loaded from its variable (and bit-cast when its declared type differs
/// in name but not in size), a module variable's address is taken, a
/// builtin register is read, and an immediate becomes an interned constant.
/// An undeclared name is an error.
fn load_operand(
    b: &mut ModuleBuilder,
    ks: &mut KernelState,
    syms: &Symbols,
    op: &Operand,
    typ: ScalarType,
    out: &mut Vec<SpirvInstruction>,
) -> (r: Result<u32, TranslateError>)
    requires
        old(b).wf(),
    ensures
        final(b).wf(),
{
    match op {
        Operand::Imm(v) => {
            if matches!(typ, ScalarType::Pred) {
                return Err(TranslateError::Unsupported);
            }
            let t = b.type_id(scalar_key(typ))?;
            let c = b.const_id(t, imm_bits(*v, typ))?;
            Ok(c)
        },
        Operand::Reg(name) => {
            if let Some((code, comp)) = builtin_of(name.as_str()) {
                return builtin_value(b, ks, code, comp, typ, out);
            }
            let (var, dtyp, space) = match syms.lookup(name.as_str()) {
                Some(entry) => entry,
                None => {
                    return Err(TranslateError::UnknownSymbol);
                },
            };
            match space {
                StateSpace::Reg | StateSpace::Param => {
                    let dt = b.type_id(scalar_key(dtyp))?;
                    let val = b.fresh_id()?;
                    let mut load_ops: Vec<SpirvOperand> = Vec::new();
                    load_ops.push(SpirvOperand::IdRef(var));
                    out.push(instr(OP_LOAD, Some(dt), Some(val), load_ops));
                    if scalar_key(dtyp) == scalar_key(typ) {
                        Ok(val)
                    } else if dtyp.size_of() == typ.size_of() {
                        let t = b.type_id(scalar_key(typ))?;
                        let cast = b.fresh_id()?;
                        let mut cast_ops: Vec<SpirvOperand> = Vec::new();
                        cast_ops.push(SpirvOperand::IdRef(val));
                        out.push(instr(OP_BITCAST, Some(t), Some(cast), cast_ops));
                        Ok(cast)
                    } else {
                        Err(TranslateError::Unsupported)
                    }
                },
                _ => {
                    // the name denotes a module or local variable: its
                    // address is the value
                    if typ.size_of() != 8 || typ.is_float() {
                        return Err(TranslateError::Unsupported);
                    }
                    let t = b.type_id(scalar_key(typ))?;
                    let val = b.fresh_id()?;
                    let mut conv_ops: Vec<SpirvOperand> = Vec::new();
                    conv_ops.push(SpirvOperand::IdRef(var));
                    out.push(instr(OP_CONVERT_PTR_TO_U, Some(t), Some(val), conv_ops));
                    Ok(val)
                },
            }
        },
    }
}

/// Stores a computed value into a destination register. Under a guard the
/// register's old value is kept on the inactive side of a select, so a
/// guarded instruction is masked rather than branched.
fn value_store(
    b: &mut ModuleBuilder,
    syms: &Symbols,
    name: &str,
    typ: ScalarType,
    val: u32,
    pred_cond: Option<u32>,
    out: &mut Vec<SpirvInstruction>,
) -> (r: Result<(), TranslateError>)
    requires
        old(b).wf(),
    ensures
        final(b).wf(),
{
    let (var, dtyp, space) = match syms.lookup(name) {
        Some(entry) => entry,
        None => {
            return Err(TranslateError::UnknownSymbol);
        },
    };
    if !matches!(space, StateSpace::Reg) {
        return Err(TranslateError::InvalidAddressSpace);
    }
    let mut value = val;
    if !(scalar_key(dtyp) == scalar_key(typ)) {
        if dtyp.size_of() != typ.size_of() || dtyp.is_float() != typ.is_float() {
            return Err(TranslateError::Unsupported);
        }
        let dt = b.type_id(scalar_key(dtyp))?;
        let cast = b.fresh_id()?;
        let mut cast_ops: Vec<SpirvOperand> = Vec::new();
        cast_ops.push(SpirvOperand::IdRef(value));
        out.push(instr(OP_BITCAST, Some(dt), Some(cast), cast_ops));
        value = cast;
    }
    let stored = match pred_cond {
        Some(cond) => {
            let dt = b.type_id(scalar_key(dtyp))?;
            let old_val = b.fresh_id()?;
            let mut load_ops: Vec<SpirvOperand> = Vec::new();
            load_ops.push(SpirvOperand::IdRef(var));
            out.push(instr(OP_LOAD, Some(dt), Some(old_val), load_ops));
            let sel = b.fresh_id()?;
            let mut sel_ops: Vec<SpirvOperand> = Vec::new();
            sel_ops.push(SpirvOperand::IdRef(cond));
            sel_ops.push(SpirvOperand::IdRef(value));
            sel_ops.push(SpirvOperand::IdRef(old_val));
            out.push(instr(OP_SELECT, Some(dt), Some(sel), sel_ops));
            sel
        },
        None => value,
    };
    let mut st_ops: Vec<SpirvOperand> = Vec::new();
    st_ops.push(SpirvOperand::IdRef(var));
    st_ops.push(SpirvOperand::IdRef(stored));
    out.push(instr(OP_STORE, None, None, st_ops));
    Ok(())
}

/// Resolves a memory operand to a typed pointer: a register base holds the
/// byte address as a 64-bit value, to which the constant offset is added
/// before it is converted to a pointer of the instruction's address space;
/// a declared variable base is its own pointer and allows no offset.
fn address_ptr(
    b: &mut ModuleBuilder,
    ks: &mut KernelState,
    syms: &Symbols,
    addr: &crate::ast::AddressOperand,
    space: StateSpace,
    typ: ScalarType,
    out: &mut Vec<SpirvInstruction>,
) -> (r: Result<u32, TranslateError>)
    requires
        old(b).wf(),
    ensures
        final(b).wf(),
{
    if matches!(space, StateSpace::Shared) {
        ks.uses_shared = true;
    }
    let (var, dtyp, bspace) = match syms.lookup(addr.base.as_str()) {
        Some(entry) => entry,
        None => {
            return Err(TranslateError::UnknownSymbol);
        },
    };
    match bspace {
        StateSpace::Reg => {
            if dtyp.size_of() != 8 || dtyp.is_float() {
                return Err(TranslateError::InvalidAddressSpace);
            }
            let u64_t = b.type_id(scalar_key(ScalarType::U64))?;
            let dt = b.type_id(scalar_key(dtyp))?;
            let mut base_val = b.fresh_id()?;
            let mut load_ops: Vec<SpirvOperand> = Vec::new();
            load_ops.push(SpirvOperand::IdRef(var));
            out.push(instr(OP_LOAD, Some(dt), Some(base_val), load_ops));
            if !(scalar_key(dtyp) == scalar_key(ScalarType::U64)) {
                let cast = b.fresh_id()?;
                let mut cast_ops: Vec<SpirvOperand> = Vec::new();
                cast_ops.push(SpirvOperand::IdRef(base_val));
                out.push(instr(OP_BITCAST, Some(u64_t), Some(cast), cast_ops));
                base_val = cast;
            }
            if addr.offset != 0 {
                let c = b.const_id(u64_t, imm_bits(addr.offset, ScalarType::U64))?;
                let sum = b.fresh_id()?;
                let mut add_ops: Vec<SpirvOperand> = Vec::new();
                add_ops.push(SpirvOperand::IdRef(base_val));
                add_ops.push(SpirvOperand::IdRef(c));
                out.push(instr(OP_I_ADD, Some(u64_t), Some(sum), add_ops));
                base_val = sum;
            }
            let elem_t = b.type_id(scalar_key(typ))?;
            let ptr_t = b.type_id(
                TypeKey::Pointer { storage: storage_class(space), pointee: elem_t },
            )?;
            let ptr = b.fresh_id()?;
            let mut conv_ops: Vec<SpirvOperand> = Vec::new();
            conv_ops.push(SpirvOperand::IdRef(base_val));
            out.push(instr(OP_CONVERT_U_TO_PTR, Some(ptr_t), Some(ptr), conv_ops));
            Ok(ptr)
        },
        StateSpace::Shared | StateSpace::Global | StateSpace::Local | StateSpace::Const => {
            if addr.offset != 0 {
                return Err(TranslateError::Unsupported);
            }
            if matches!(bspace, StateSpace::Shared) {
                ks.uses_shared = true;
            }
            if !(scalar_key(dtyp) == scalar_key(typ)) {
                return Err(TranslateError::Unsupported);
            }
            Ok(var)
        },
        _ => Err(TranslateError::InvalidAddressSpace),
    }
}

/// The (min, max) bounds of an integer scalar, as raw 64-bit patterns in
/// the two's-complement sense of the type.
fn int_bounds(t: ScalarType) -> (r: (i64, u64)) {
    match t {
        ScalarType::S8 => (-128i64, 127u64),
        ScalarType::S16 => (-32768i64, 32767u64),
        ScalarType::S32 => (-2147483648i64, 2147483647u64),
        ScalarType::S64 => (i64::MIN, 0x7fff_ffff_ffff_ffff),
        ScalarType::U8 | ScalarType::B8 => (0i64, 0xff),
        ScalarType::U16 | ScalarType::B16 => (0i64, 0xffff),
        ScalarType::U32 | ScalarType::B32 => (0i64, 0xffff_ffff),
        _ => (0i64, 0xffff_ffff_ffff_ffff),
    }
}

/// Emits one extended instruction of the imported set.
fn emit_ext(
    b: &mut ModuleBuilder,
    ks: &KernelState,
    number: u32,
    rtype: u32,
    args: &Vec<u32>,
    out: &mut Vec<SpirvInstruction>,
) -> (r: Result<u32, TranslateError>)
    requires
        old(b).wf(),
    ensures
        final(b).wf(),
{
    let rid = b.fresh_id()?;
    let mut ops: Vec<SpirvOperand> = Vec::new();
    ops.push(SpirvOperand::IdRef(ks.ext_set));
    ops.push(SpirvOperand::LiteralU32(number));
    let n = args.len();
    let mut i: usize = 0;
    while i < n
        invariant
            i <= n,
            n == args@.len(),
        decreases n - i,
    {
        ops.push(SpirvOperand::IdRef(args[i]));
        i += 1;
    }
    out.push(instr(OP_EXT_INST, Some(rtype), Some(rid), ops));
    Ok(rid)
}

/// Emits one binary operation.
fn emit_bin(
    b: &mut ModuleBuilder,
    opcode: u16,
    rtype: u32,
    a: u32,
    c: u32,
    out: &mut Vec<SpirvInstruction>,
) -> (r: Result<u32, TranslateError>)
    requires
        old(b).wf(),
    ensures
        final(b).wf(),
{
    let rid = b.fresh_id()?;
    let mut ops: Vec<SpirvOperand> = Vec::new();
    ops.push(SpirvOperand::IdRef(a));
    ops.push(SpirvOperand::IdRef(c));
    out.push(instr(opcode, Some(rtype), Some(rid), ops));
    Ok(rid)
}

/// Emits one unary operation.
fn emit_un(
    b: &mut ModuleBuilder,
    opcode: u16,
    rtype: u32,
    a: u32,
    out: &mut Vec<SpirvInstruction>,
) -> (r: Result<u32, TranslateError>)
    requires
        old(b).wf(),
    ensures
        final(b).wf(),
{
    let rid = b.fresh_id()?;
    let mut ops: Vec<SpirvOperand> = Vec::new();
    ops.push(SpirvOperand::IdRef(a));
    out.push(instr(opcode, Some(rtype), Some(rid), ops));
    Ok(rid)
}

/// The widened form of an integer scalar, for wide multiplies.
fn widened(t: ScalarType) -> (r: Option<ScalarType>) {
    match t {
        ScalarType::U8 | ScalarType::B8 => Some(ScalarType::U16),
        ScalarType::U16 | ScalarType::B16 => Some(ScalarType::U32),
        ScalarType::U32 | ScalarType::B32 => Some(ScalarType::U64),
        ScalarType::S8 => Some(ScalarType::S16),
        ScalarType::S16 => Some(ScalarType::S32),
        ScalarType::S32 => Some(ScalarType::S64),
        _ => None,
    }
}

/// Lowers one non-terminator instruction into the current block. Under a
/// guard (`pred_cond` is the loaded, possibly negated, guard value) the
/// result is masked into the destination with a select; guarded stores and
/// atomics are not representable that way and are rejected.
#[verifier::loop_isolation(false)]
#[verifier::rlimit(60)]
#[verifier::spinoff_prover]
fn gen_instruction(
    b: &mut ModuleBuilder,
    ks: &mut KernelState,
    syms: &Symbols,
    inst: &Instruction,
    pred_cond: Option<u32>,
    out: &mut Vec<SpirvInstruction>,
) -> (r: Result<(), TranslateError>)
    requires
        old(b).wf(),
    ensures
        final(b).wf(),
{
    match inst {
        Instruction::Ld { space, typ, dst, addr } => gen_ld(
            b,
            ks,
            syms,
            *space,
            *typ,
            dst,
            addr,
            pred_cond,
            out,
        ),
        Instruction::St { space, typ, addr, src } => {
            if matches!(pred_cond, Some(_)) {
                return Err(TranslateError::Unsupported);
            }
            if matches!(space, StateSpace::Param) {
                return Err(TranslateError::InvalidAddressSpace);
            }
            let val = load_operand(b, ks, syms, src, *typ, out)?;
            let ptr = address_ptr(b, ks, syms, addr, *space, *typ, out)?;
            let mut st_ops: Vec<SpirvOperand> = Vec::new();
            st_ops.push(SpirvOperand::IdRef(ptr));
            st_ops.push(SpirvOperand::IdRef(val));
            out.push(instr(OP_STORE, None, None, st_ops));
            Ok(())
        },
        Instruction::Mov { typ, dst, src } => {
            let val = load_operand(b, ks, syms, src, *typ, out)?;
            value_store(b, syms, dst.as_str(), *typ, val, pred_cond, out)
        },
        Instruction::Add { typ, dst, a, b: c } => {
            if matches!(typ, ScalarType::Pred) {
                return Err(TranslateError::Unsupported);
            }
            let av = load_operand(b, ks, syms, a, *typ, out)?;
            let cv = load_operand(b, ks, syms, c, *typ, out)?;
            let t = b.type_id(scalar_key(*typ))?;
            let opcode = if typ.is_float() {
                OP_F_ADD
            } else {
                OP_I_ADD
            };
            let rid = emit_bin(b, opcode, t, av, cv, out)?;
            value_store(b, syms, dst.as_str(), *typ, rid, pred_cond, out)
        },
        Instruction::Sub { typ, dst, a, b: c } => {
            if matches!(typ, ScalarType::Pred) {
                return Err(TranslateError::Unsupported);
            }
            let av = load_operand(b, ks, syms, a, *typ, out)?;
            let cv = load_operand(b, ks, syms, c, *typ, out)?;
            let t = b.type_id(scalar_key(*typ))?;
            let opcode = if typ.is_float() {
                OP_F_SUB
            } else {
                OP_I_SUB
            };
            let rid = emit_bin(b, opcode, t, av, cv, out)?;
            value_store(b, syms, dst.as_str(), *typ, rid, pred_cond, out)
        },
        Instruction::Mul { typ, ftz, wide, dst, a, b: c } => {
            if matches!(typ, ScalarType::Pred) {
                return Err(TranslateError::Unsupported);
            }
            let av = load_operand(b, ks, syms, a, *typ, out)?;
            let cv = load_operand(b, ks, syms, c, *typ, out)?;
            if typ.is_float() {
                if *wide {
                    return Err(TranslateError::Unsupported);
                }
                if *ftz {
                    if matches!(typ, ScalarType::F32) {
                        ks.ftz32 = true;
                    } else {
                        ks.ftz64 = true;
                    }
                }
                let t = b.type_id(scalar_key(*typ))?;
                let rid = emit_bin(b, OP_F_MUL, t, av, cv, out)?;
                value_store(b, syms, dst.as_str(), *typ, rid, pred_cond, out)
            } else if *wide {
                let wtyp = match widened(*typ) {
                    Some(w) => w,
                    None => {
                        return Err(TranslateError::Unsupported);
                    },
                };
                let wt = b.type_id(scalar_key(wtyp))?;
                let conv = if typ.is_signed() {
                    OP_S_CONVERT
                } else {
                    OP_U_CONVERT
                };
                let aw = emit_un(b, conv, wt, av, out)?;
                let cw = emit_un(b, conv, wt, cv, out)?;
                let rid = emit_bin(b, OP_I_MUL, wt, aw, cw, out)?;
                value_store(b, syms, dst.as_str(), wtyp, rid, pred_cond, out)
            } else {
                let t = b.type_id(scalar_key(*typ))?;
                let rid = emit_bin(b, OP_I_MUL, t, av, cv, out)?;
                value_store(b, syms, dst.as_str(), *typ, rid, pred_cond, out)
            }
        },
        Instruction::Not { typ, dst, src } => {
            let sv = load_operand(b, ks, syms, src, *typ, out)?;
            let t = b.type_id(scalar_key(*typ))?;
            let opcode = if matches!(typ, ScalarType::Pred) {
                OP_LOGICAL_NOT
            } else {
                OP_NOT
            };
            let rid = emit_un(b, opcode, t, sv, out)?;
            value_store(b, syms, dst.as_str(), *typ, rid, pred_cond, out)
        },
        Instruction::Bit { op, typ, dst, a, b: c } => {
            if matches!(typ, ScalarType::Pred) || typ.is_float() {
                return Err(TranslateError::Unsupported);
            }
            let av = load_operand(b, ks, syms, a, *typ, out)?;
            let cv = load_operand(b, ks, syms, c, *typ, out)?;
            let t = b.type_id(scalar_key(*typ))?;
            let opcode = match op {
                BitOp::And => OP_BITWISE_AND,
                BitOp::Or => OP_BITWISE_OR,
                BitOp::Xor => OP_BITWISE_XOR,
                BitOp::Shl => OP_SHIFT_LEFT_LOGICAL,
                BitOp::Shr => if typ.is_signed() {
                    OP_SHIFT_RIGHT_ARITHMETIC
                } else {
                    OP_SHIFT_RIGHT_LOGICAL
                },
            };
            let rid = emit_bin(b, opcode, t, av, cv, out)?;
            value_store(b, syms, dst.as_str(), *typ, rid, pred_cond, out)
        },
        Instruction::Setp { cmp, typ, dst, a, b: c } => {
            let av = load_operand(b, ks, syms, a, *typ, out)?;
            let cv = load_operand(b, ks, syms, c, *typ, out)?;
            let bool_t = b.type_id(TypeKey::Bool)?;
            let opcode = comparison_opcode(*cmp, *typ);
            let rid = emit_bin(b, opcode, bool_t, av, cv, out)?;
            value_store(b, syms, dst.as_str(), ScalarType::Pred, rid, pred_cond, out)
        },
        Instruction::Selp { typ, dst, a, b: c, pred } => {
            let av = load_operand(b, ks, syms, a, *typ, out)?;
            let cv = load_operand(b, ks, syms, c, *typ, out)?;
            let (pvar, ptyp, pspace) = match syms.lookup(pred.as_str()) {
                Some(entry) => entry,
                None => {
                    return Err(TranslateError::UnknownSymbol);
                },
            };
            if !matches!(ptyp, ScalarType::Pred) || !matches!(pspace, StateSpace::Reg) {
                return Err(TranslateError::Unsupported);
            }
            let bool_t = b.type_id(TypeKey::Bool)?;
            let cond = b.fresh_id()?;
            let mut load_ops: Vec<SpirvOperand> = Vec::new();
            load_ops.push(SpirvOperand::IdRef(pvar));
            out.push(instr(OP_LOAD, Some(bool_t), Some(cond), load_ops));
            let t = b.type_id(scalar_key(*typ))?;
            let rid = b.fresh_id()?;
            let mut sel_ops: Vec<SpirvOperand> = Vec::new();
            sel_ops.push(SpirvOperand::IdRef(cond));
            sel_ops.push(SpirvOperand::IdRef(av));
            sel_ops.push(SpirvOperand::IdRef(cv));
            out.push(instr(OP_SELECT, Some(t), Some(rid), sel_ops));
            value_store(b, syms, dst.as_str(), *typ, rid, pred_cond, out)
        },
        Instruction::Cvta { space: _, dst, src } => {
            let val = load_operand(b, ks, syms, src, ScalarType::U64, out)?;
            let t = b.type_id(scalar_key(ScalarType::U64))?;
            let rid = emit_un(b, OP_COPY_OBJECT, t, val, out)?;
            value_store(b, syms, dst.as_str(), ScalarType::U64, rid, pred_cond, out)
        },
        Instruction::Cvt { rounding, ftz, saturate, dst_type, src_type, dst, src } => gen_cvt(
            b,
            ks,
            syms,
            *rounding,
            *ftz,
            *saturate,
            *dst_type,
            *src_type,
            dst,
            src,
            pred_cond,
            out,
        ),
        Instruction::Atom { op, space, typ, dst, addr, a, b: c } => gen_atom(
            b,
            ks,
            syms,
            *op,
            *space,
            *typ,
            dst,
            addr,
            a,
            c,
            pred_cond,
            out,
        ),
        Instruction::Math { op, approx, ftz, typ, dst, src } => {
            if !typ.is_float() {
                return Err(TranslateError::Unsupported);
            }
            if *ftz {
                if matches!(typ, ScalarType::F32) {
                    ks.ftz32 = true;
                } else {
                    ks.ftz64 = true;
                }
            }
            let sv = load_operand(b, ks, syms, src, *typ, out)?;
            let t = b.type_id(scalar_key(*typ))?;
            let rid = match math_extinst(*op, *approx) {
                Some(number) => {
                    let mut args: Vec<u32> = Vec::new();
                    args.push(sv);
                    emit_ext(b, ks, number, t, &args, out)?
                },
                None => {
                    // a precise reciprocal is an exact division of one
                    let one_bits: u64 = if matches!(typ, ScalarType::F64) {
                        0x3ff0_0000_0000_0000
                    } else {
                        0x3f80_0000
                    };
                    let one_c = b.const_id(t, one_bits)?;
                    emit_bin(b, OP_F_DIV, t, one_c, sv, out)?
                },
            };
            value_store(b, syms, dst.as_str(), *typ, rid, pred_cond, out)
        },
        Instruction::Fma { rounding, ftz, typ, dst, a, b: c, c: d } => {
            if !typ.is_float() || !matches!(rounding, RoundingMode::NearestEven) {
                return Err(TranslateError::Unsupported);
            }
            if *ftz {
                if matches!(typ, ScalarType::F32) {
                    ks.ftz32 = true;
                } else {
                    ks.ftz64 = true;
                }
            }
            let av = load_operand(b, ks, syms, a, *typ, out)?;
            let cv = load_operand(b, ks, syms, c, *typ, out)?;
            let dv = load_operand(b, ks, syms, d, *typ, out)?;
            let t = b.type_id(scalar_key(*typ))?;
            let mut args: Vec<u32> = Vec::new();
            args.push(av);
            args.push(cv);
            args.push(dv);
            let rid = emit_ext(b, ks, CL_FMA, t, &args, out)?;
            value_store(b, syms, dst.as_str(), *typ, rid, pred_cond, out)
        },
        Instruction::Bra { .. } | Instruction::Ret => Err(TranslateError::Unsupported),
    }
}

/// The truncation mask of a scalar's byte size.
fn imm_mask(t: ScalarType) -> (r: u64)
    ensures
        r == spec_imm_mask(t),
{
    let size = t.size_of();
    if size == 1 {
        0xff
    } else if size == 2 {
        0xffff
    } else if size == 4 {
        0xffff_ffff
    } else {
        0xffff_ffff_ffff_ffff
    }
}

/// Lowers a load: parameter loads read the parameter's variable, other
/// spaces resolve the memory operand to a typed pointer first.
#[verifier::loop_isolation(false)]
#[verifier::rlimit(60)]
#[verifier::spinoff_prover]
fn gen_ld(
    b: &mut ModuleBuilder,
    ks: &mut KernelState,
    syms: &Symbols,
    space: StateSpace,
    typ: ScalarType,
    dst: &String,
    addr: &crate::ast::AddressOperand,
    pred_cond: Option<u32>,
    out: &mut Vec<SpirvInstruction>,
) -> (r: Result<(), TranslateError>)
    requires
        old(b).wf(),
    ensures
        final(b).wf(),
{

            if matches!(space, StateSpace::Param) {
                let (var, dtyp, bspace) = match syms.lookup(addr.base.as_str()) {
                    Some(entry) => entry,
                    None => {
                        return Err(TranslateError::UnknownSymbol);
                    },
                };
                if !matches!(bspace, StateSpace::Param) {
                    return Err(TranslateError::InvalidAddressSpace);
                }
                if addr.offset != 0 {
                    return Err(TranslateError::Unsupported);
                }
                let dt = b.type_id(scalar_key(dtyp))?;
                let val = b.fresh_id()?;
                let mut load_ops: Vec<SpirvOperand> = Vec::new();
                load_ops.push(SpirvOperand::IdRef(var));
                out.push(instr(OP_LOAD, Some(dt), Some(val), load_ops));
                let mut value = val;
                if !(scalar_key(dtyp) == scalar_key(typ)) {
                    if dtyp.size_of() != typ.size_of() {
                        return Err(TranslateError::Unsupported);
                    }
                    let t = b.type_id(scalar_key(typ))?;
                    let cast = b.fresh_id()?;
                    let mut cast_ops: Vec<SpirvOperand> = Vec::new();
                    cast_ops.push(SpirvOperand::IdRef(value));
                    out.push(instr(OP_BITCAST, Some(t), Some(cast), cast_ops));
                    value = cast;
                }
                return value_store(b, syms, dst.as_str(), typ, value, pred_cond, out);
            }
            if matches!(pred_cond, Some(_)) {
                return Err(TranslateError::Unsupported);
            }
            let ptr = address_ptr(b, ks, syms, addr, space, typ, out)?;
            let t = b.type_id(scalar_key(typ))?;
            let val = b.fresh_id()?;
            let mut load_ops: Vec<SpirvOperand> = Vec::new();
            load_ops.push(SpirvOperand::IdRef(ptr));
            out.push(instr(OP_LOAD, Some(t), Some(val), load_ops));
            value_store(b, syms, dst.as_str(), typ, val, None, out)
}

/// Lowers a conversion: explicit rounding for float conversions, clamping
/// for saturated integer conversions, and the matching convert opcode for
/// each source/destination class.
#[verifier::loop_isolation(false)]
#[verifier::rlimit(60)]
#[verifier::spinoff_prover]
fn gen_cvt(
    b: &mut ModuleBuilder,
    ks: &mut KernelState,
    syms: &Symbols,
    rounding: Option<RoundingMode>,
    ftz: bool,
    saturate: bool,
    dst_type: ScalarType,
    src_type: ScalarType,
    dst: &String,
    src: &Operand,
    pred_cond: Option<u32>,
    out: &mut Vec<SpirvInstruction>,
) -> (r: Result<(), TranslateError>)
    requires
        old(b).wf(),
    ensures
        final(b).wf(),
{

            if matches!(dst_type, ScalarType::Pred) || matches!(src_type, ScalarType::Pred) {
                return Err(TranslateError::Unsupported);
            }
            if ftz {
                if matches!(src_type, ScalarType::F32) || matches!(dst_type, ScalarType::F32) {
                    ks.ftz32 = true;
                }
            }
            let sv = load_operand(b, ks, syms, src, src_type, out)?;
            let st = b.type_id(scalar_key(src_type))?;
            let dt = b.type_id(scalar_key(dst_type))?;
            let sf = src_type.is_float();
            let df = dst_type.is_float();
            if sf && df {
                if saturate {
                    return Err(TranslateError::Unsupported);
                }
                if src_type.size_of() == dst_type.size_of() {
                    let rid = match rounding {
                        Some(rm) => {
                            let mut args: Vec<u32> = Vec::new();
                            args.push(sv);
                            emit_ext(b, ks, rounding_extinst(rm), dt, &args, out)?
                        },
                        None => emit_un(b, OP_COPY_OBJECT, dt, sv, out)?,
                    };
                    value_store(b, syms, dst.as_str(), dst_type, rid, pred_cond, out)
                } else {
                    let rid = emit_un(b, OP_F_CONVERT, dt, sv, out)?;
                    value_store(b, syms, dst.as_str(), dst_type, rid, pred_cond, out)
                }
            } else if sf {
                // float to integer: round explicitly unless truncation is
                // wanted, then convert (the conversion itself truncates)
                if saturate {
                    return Err(TranslateError::Unsupported);
                }
                let rounded = match rounding {
                    Some(RoundingMode::Zero) | None => sv,
                    Some(rm) => {
                        let mut args: Vec<u32> = Vec::new();
                        args.push(sv);
                        emit_ext(b, ks, rounding_extinst(rm), st, &args, out)?
                    },
                };
                let opcode = if dst_type.is_signed() {
                    OP_CONVERT_F_TO_S
                } else {
                    OP_CONVERT_F_TO_U
                };
                let rid = emit_un(b, opcode, dt, rounded, out)?;
                value_store(b, syms, dst.as_str(), dst_type, rid, pred_cond, out)
            } else if df {
                if saturate {
                    return Err(TranslateError::Unsupported);
                }
                let opcode = if src_type.is_signed() {
                    OP_CONVERT_S_TO_F
                } else {
                    OP_CONVERT_U_TO_F
                };
                let rid = emit_un(b, opcode, dt, sv, out)?;
                value_store(b, syms, dst.as_str(), dst_type, rid, pred_cond, out)
            } else {
                // integer to integer
                let mut value = sv;
                if saturate {
                    let (dmin, dmax) = int_bounds(dst_type);
                    let (smin, smax) = int_bounds(src_type);
                    if src_type.is_signed() {
                        let lo: i64 = if dmin > smin {
                            dmin
                        } else {
                            smin
                        };
                        let hi: u64 = if dmax < smax {
                            dmax
                        } else {
                            smax
                        };
                        let lo_c = b.const_id(st, imm_bits(lo, src_type))?;
                        let hi_c = b.const_id(st, hi & imm_mask(src_type))?;
                        let mut args: Vec<u32> = Vec::new();
                        args.push(value);
                        args.push(lo_c);
                        args.push(hi_c);
                        value = emit_ext(b, ks, CL_S_CLAMP, st, &args, out)?;
                    } else {
                        let hi: u64 = if dmax < smax {
                            dmax
                        } else {
                            smax
                        };
                        let hi_c = b.const_id(st, hi)?;
                        let mut args: Vec<u32> = Vec::new();
                        args.push(value);
                        args.push(hi_c);
                        value = emit_ext(b, ks, CL_U_MIN, st, &args, out)?;
                    }
                }
                let rid = if src_type.size_of() == dst_type.size_of() {
                    if scalar_key(src_type) == scalar_key(dst_type) {
                        value
                    } else {
                        emit_un(b, OP_BITCAST, dt, value, out)?
                    }
                } else if dst_type.is_signed() && src_type.is_signed() {
                    emit_un(b, OP_S_CONVERT, dt, value, out)?
                } else {
                    emit_un(b, OP_U_CONVERT, dt, value, out)?
                };
                value_store(b, syms, dst.as_str(), dst_type, rid, pred_cond, out)
            }
}

/// Lowers an atomic operation with device scope and relaxed semantics.
#[verifier::loop_isolation(false)]
#[verifier::rlimit(60)]
#[verifier::spinoff_prover]
fn gen_atom(
    b: &mut ModuleBuilder,
    ks: &mut KernelState,
    syms: &Symbols,
    op: AtomOp,
    space: StateSpace,
    typ: ScalarType,
    dst: &String,
    addr: &crate::ast::AddressOperand,
    a: &Operand,
    c: &Option<Operand>,
    pred_cond: Option<u32>,
    out: &mut Vec<SpirvInstruction>,
) -> (r: Result<(), TranslateError>)
    requires
        old(b).wf(),
    ensures
        final(b).wf(),
{

            if matches!(pred_cond, Some(_)) {
                return Err(TranslateError::Unsupported);
            }
            if typ.is_float() || matches!(typ, ScalarType::Pred) {
                return Err(TranslateError::Unsupported);
            }
            let ptr = address_ptr(b, ks, syms, addr, space, typ, out)?;
            let t = b.type_id(scalar_key(typ))?;
            let u32_t = b.type_id(scalar_key(ScalarType::U32))?;
            let scope_c = b.const_id(u32_t, SCOPE_DEVICE as u64)?;
            let sem_c = b.const_id(u32_t, SEMANTICS_RELAXED as u64)?;
            let rid = b.fresh_id()?;
            match op {
                AtomOp::Add => {
                    let av = load_operand(b, ks, syms, a, typ, out)?;
                    let mut ops: Vec<SpirvOperand> = Vec::new();
                    ops.push(SpirvOperand::IdRef(ptr));
                    ops.push(SpirvOperand::IdScope(scope_c));
                    ops.push(SpirvOperand::IdMemorySemantics(sem_c));
                    ops.push(SpirvOperand::IdRef(av));
                    out.push(instr(OP_ATOMIC_I_ADD, Some(t), Some(rid), ops));
                },
                AtomOp::Inc => {
                    // a bounded increment wraps to zero at its bound; only
                    // a bound equal to the type's maximum behaves like the
                    // plain atomic increment this lowers to
                    let bound_is_max = match a {
                        Operand::Imm(v) => imm_bits(*v, typ) == imm_mask(typ),
                        Operand::Reg(_) => false,
                    };
                    if !bound_is_max {
                        return Err(TranslateError::Unsupported);
                    }
                    let mut ops: Vec<SpirvOperand> = Vec::new();
                    ops.push(SpirvOperand::IdRef(ptr));
                    ops.push(SpirvOperand::IdScope(scope_c));
                    ops.push(SpirvOperand::IdMemorySemantics(sem_c));
                    out.push(instr(OP_ATOMIC_I_INCREMENT, Some(t), Some(rid), ops));
                },
                AtomOp::Cas => {
                    let compare = load_operand(b, ks, syms, a, typ, out)?;
                    let new_val = match c {
                        Some(cc) => load_operand(b, ks, syms, cc, typ, out)?,
                        None => {
                            return Err(TranslateError::Unsupported);
                        },
                    };
                    let mut ops: Vec<SpirvOperand> = Vec::new();
                    ops.push(SpirvOperand::IdRef(ptr));
                    ops.push(SpirvOperand::IdScope(scope_c));
                    ops.push(SpirvOperand::IdMemorySemantics(sem_c));
                    ops.push(SpirvOperand::IdMemorySemantics(sem_c));
                    ops.push(SpirvOperand::IdRef(new_val));
                    ops.push(SpirvOperand::IdRef(compare));
                    out.push(instr(OP_ATOMIC_COMPARE_EXCHANGE, Some(t), Some(rid), ops));
                },
            }
            value_store(b, syms, dst.as_str(), typ, rid, None, out)
}

/// Appends every element of `src` to `dst`, in order.
fn append_vec(dst: &mut Vec<SpirvInstruction>, src: Vec<SpirvInstruction>) {
    let mut src = src;
    while src.len() > 0
        decreases src@.len(),
    {
        let taken = src.remove(0);
        dst.push(taken);
    }
}

/// Appends the decimal digits of `v` to `s`.
fn push_decimal(s: &mut String, v: u32) {
    let mut digits: Vec<u32> = Vec::new();
    let mut x = v;
    loop
        invariant
            true,
        decreases x,
    {
        digits.push(x % 10);
        x = x / 10;
        if x == 0 {
            break ;
        }
    }
    let n = digits.len();
    let mut i: usize = n;
    while i > 0
        invariant
            i <= n,
            n == digits@.len(),
        decreases i,
    {
        i -= 1;
        let d = digits[i];
        let piece: &str = if d == 0 {
            "0"
        } else if d == 1 {
            "1"
        } else if d == 2 {
            "2"
        } else if d == 3 {
            "3"
        } else if d == 4 {
            "4"
        } else if d == 5 {
            "5"
        } else if d == 6 {
            "6"
        } else if d == 7 {
            "7"
        } else if d == 8 {
            "8"
        } else {
            "9"
        };
        s.append(piece);
    }
}

/// Packs an ASCII string into SPIR-V literal words: four bytes per word,
/// little-endian, always ending with at least one terminating zero byte.
fn pack_string(s: &str) -> (r: Result<Vec<SpirvOperand>, TranslateError>) {
    let bytes = s.as_bytes();
    let n = bytes.len();
    if n > 0xffff {
        return Err(TranslateError::Unsupported);
    }
    let mut ops: Vec<SpirvOperand> = Vec::new();
    let mut i: usize = 0;
    while i <= n
        invariant
            i <= n + 4,
            n <= 0xffff,
            n == bytes@.len(),
        decreases n + 4 - i,
    {
        let mut w: u32 = 0;
        let mut k: usize = 0;
        while k < 4
            invariant
                k <= 4,
                i <= n,
                n <= 0xffff,
                n == bytes@.len(),
            decreases 4 - k,
        {
            let byte: u8 = if i + k < n {
                bytes[i + k]
            } else {
                0
            };
            w = w | ((byte as u32) << (8 * (k as u32)));
            k += 1;
        }
        ops.push(SpirvOperand::LiteralU32(w));
        i += 4;
    }
    Ok(ops)
}

/// Loads a guard predicate: the guard register's boolean value, negated
/// when the guard is written `@!p`.
fn load_pred(
    b: &mut ModuleBuilder,
    syms: &Symbols,
    pred: &crate::ast::PredAt,
    out: &mut Vec<SpirvInstruction>,
) -> (r: Result<u32, TranslateError>)
    requires
        old(b).wf(),
    ensures
        final(b).wf(),
{
    let (var, typ, space) = match syms.lookup(pred.reg.as_str()) {
        Some(entry) => entry,
        None => {
            return Err(TranslateError::UnknownSymbol);
        },
    };
    if !matches!(typ, ScalarType::Pred) || !matches!(space, StateSpace::Reg) {
        return Err(TranslateError::Unsupported);
    }
    let bool_t = b.type_id(TypeKey::Bool)?;
    let val = b.fresh_id()?;
    let mut load_ops: Vec<SpirvOperand> = Vec::new();
    load_ops.push(SpirvOperand::IdRef(var));
    out.push(instr(OP_LOAD, Some(bool_t), Some(val), load_ops));
    if pred.not {
        let neg = b.fresh_id()?;
        let mut not_ops: Vec<SpirvOperand> = Vec::new();
        not_ops.push(SpirvOperand::IdRef(val));
        out.push(instr(OP_LOGICAL_NOT, Some(bool_t), Some(neg), not_ops));
        Ok(neg)
    } else {
        Ok(val)
    }
}

/// Declares the registers of one in-body variable statement: each expands
/// a `%r<4>` group into numbered registers, every register backed by an
/// entry-block variable; a shared declaration becomes a module variable.
fn declare_var(
    b: &mut ModuleBuilder,
    ks: &mut KernelState,
    syms: &mut Symbols,
    decl: &crate::ast::VariableDecl,
) -> (r: Result<(), TranslateError>)
    requires
        old(b).wf(),
    ensures
        final(b).wf(),
{
    let typ = match &decl.v_type {
        crate::ast::Type::Scalar(t) => *t,
        _ => {
            return Err(TranslateError::Unsupported);
        },
    };
    let count: u32 = match decl.count {
        Some(c) => {
            if c > 4096 {
                return Err(TranslateError::Unsupported);
            }
            c
        },
        None => 0,
    };
    let t_id = b.type_id(scalar_key(typ))?;
    let storage = match decl.space {
        StateSpace::Reg | StateSpace::Local => SC_FUNCTION,
        StateSpace::Shared => SC_WORKGROUP,
        _ => {
            return Err(TranslateError::InvalidAddressSpace);
        },
    };
    let ptr_t = b.type_id(TypeKey::Pointer { storage, pointee: t_id })?;
    if count == 0 {
        let vid = b.fresh_id()?;
        let mut ops: Vec<SpirvOperand> = Vec::new();
        ops.push(SpirvOperand::LiteralU32(storage));
        if storage == SC_WORKGROUP {
            ks.global_vars.push(instr(OP_VARIABLE, Some(ptr_t), Some(vid), ops));
        } else {
            ks.vars.push(instr(OP_VARIABLE, Some(ptr_t), Some(vid), ops));
        }
        syms.insert(decl.name.clone(), vid, typ, decl.space);
        return Ok(());
    }
    let mut k: u32 = 0;
    while k < count
        invariant
            b.wf(),
            k <= count,
        decreases count - k,
    {
        let mut nm = decl.name.clone();
        push_decimal(&mut nm, k);
        let vid = b.fresh_id()?;
        let mut ops: Vec<SpirvOperand> = Vec::new();
        ops.push(SpirvOperand::LiteralU32(storage));
        if storage == SC_WORKGROUP {
            ks.global_vars.push(instr(OP_VARIABLE, Some(ptr_t), Some(vid), ops));
        } else {
            ks.vars.push(instr(OP_VARIABLE, Some(ptr_t), Some(vid), ops));
        }
        syms.insert(nm, vid, typ, decl.space);
        k += 1;
    }
    Ok(())
}

/// The label instruction that opens a block.
fn label_instr(id: u32) -> (r: SpirvInstruction) {
    instr(OP_LABEL, None, Some(id), Vec::new())
}

/// Finds a label's block id.
fn label_find(labels: &Vec<(String, u32)>, name: &str) -> (r: Option<u32>) {
    let n = labels.len();
    let mut i: usize = 0;
    while i < n
        invariant
            i <= n,
            n == labels@.len(),
        decreases n - i,
    {
        if str_eq_chars(labels[i].0.as_str(), name) {
            return Some(labels[i].1);
        }
        i += 1;
    }
    None
}

/// Lowers a kernel body into basic blocks. Labels open blocks one-to-one;
/// a block that reaches the next label without a terminator falls through
/// by an inserted branch; a guarded branch becomes a conditional branch
/// whose false edge opens the continuation block; a body that ends without
/// a terminator returns.
#[verifier::loop_isolation(false)]
#[verifier::rlimit(60)]
#[verifier::spinoff_prover]
fn lower_body(
    b: &mut ModuleBuilder,
    ks: &mut KernelState,
    syms: &mut Symbols,
    stmts: &Vec<Statement>,
) -> (r: Result<Vec<SpirvBlock>, TranslateError>)
    requires
        old(b).wf(),
    ensures
        final(b).wf(),
        r is Ok ==> r.unwrap()@.len() > 0,
{
    // assign a block id to every label first, so forward branches resolve
    let mut labels: Vec<(String, u32)> = Vec::new();
    let n = stmts.len();
    let mut i: usize = 0;
    while i < n
        invariant
            b.wf(),
            i <= n,
            n == stmts@.len(),
        decreases n - i,
    {
        if let Statement::Label(name) = &stmts[i] {
            let id = b.fresh_id()?;
            labels.push((name.clone(), id));
        }
        i += 1;
    }
    let entry_label = b.fresh_id()?;
    let mut blocks: Vec<SpirvBlock> = Vec::new();
    let mut cur_label = entry_label;
    let mut cur: Vec<SpirvInstruction> = Vec::new();
    let mut terminated = false;
    let mut j: usize = 0;
    while j < n
        invariant
            b.wf(),
            j <= n,
            n == stmts@.len(),
        decreases n - j,
    {
        match &stmts[j] {
            Statement::Variable(decl) => {
                declare_var(b, ks, syms, decl)?;
            },
            Statement::Label(name) => {
                let id = match label_find(&labels, name.as_str()) {
                    Some(id) => id,
                    None => {
                        return Err(TranslateError::UnresolvedLabel);
                    },
                };
                if !terminated {
                    let mut br_ops: Vec<SpirvOperand> = Vec::new();
                    br_ops.push(SpirvOperand::IdRef(id));
                    cur.push(instr(OP_BRANCH, None, None, br_ops));
                }
                blocks.push(SpirvBlock { label: Some(label_instr(cur_label)), instructions: cur });
                cur = Vec::new();
                cur_label = id;
                terminated = false;
            },
            Statement::Instr(pred, inst) => {
                if terminated {
                    // an instruction after a terminator opens its own
                    // unlabeled continuation block
                    blocks.push(
                        SpirvBlock { label: Some(label_instr(cur_label)), instructions: cur },
                    );
                    cur = Vec::new();
                    cur_label = b.fresh_id()?;
                    terminated = false;
                }
                match inst {
                    Instruction::Bra { target } => {
                        let tid = match label_find(&labels, target.as_str()) {
                            Some(id) => id,
                            None => {
                                return Err(TranslateError::UnresolvedLabel);
                            },
                        };
                        match pred {
                            None => {
                                let mut br_ops: Vec<SpirvOperand> = Vec::new();
                                br_ops.push(SpirvOperand::IdRef(tid));
                                cur.push(instr(OP_BRANCH, None, None, br_ops));
                                terminated = true;
                            },
                            Some(p) => {
                                let cond = load_pred(b, syms, p, &mut cur)?;
                                let next = b.fresh_id()?;
                                let mut br_ops: Vec<SpirvOperand> = Vec::new();
                                br_ops.push(SpirvOperand::IdRef(cond));
                                br_ops.push(SpirvOperand::IdRef(tid));
                                br_ops.push(SpirvOperand::IdRef(next));
                                cur.push(instr(OP_BRANCH_CONDITIONAL, None, None, br_ops));
                                blocks.push(
                                    SpirvBlock {
                                        label: Some(label_instr(cur_label)),
                                        instructions: cur,
                                    },
                                );
                                cur = Vec::new();
                                cur_label = next;
                            },
                        }
                    },
                    Instruction::Ret => {
                        if matches!(pred, Some(_)) {
                            return Err(TranslateError::Unsupported);
                        }
                        cur.push(instr(OP_RETURN, None, None, Vec::new()));
                        terminated = true;
                    },
                    _ => {
                        let cond = match pred {
                            Some(p) => Some(load_pred(b, syms, p, &mut cur)?),
                            None => None,
                        };
                        gen_instruction(b, ks, syms, inst, cond, &mut cur)?;
                    },
                }
            },
        }
        j += 1;
    }
    if !terminated {
        cur.push(instr(OP_RETURN, None, None, Vec::new()));
    }
    blocks.push(SpirvBlock { label: Some(label_instr(cur_label)), instructions: cur });
    Ok(blocks)
}

/// Per-kernel metadata of the artifact: what the caller needs to launch
/// the kernel.
#[derive(Clone, Copy, PartialEq, Eq, Structural, Debug)]
pub struct KernelInfo {
    pub uses_shared_mem: bool,
}

/// The translation artifact: the SPIR-V module, the per-kernel metadata
/// table, the build options handed to the downstream module build, and
/// whether a precompiled support binary must be linked in. This generator
/// inlines everything it accepts (the one construct that would need the
/// support library, a wrapping bounded increment, is refused), so the
/// link flag is always off and the option string always empty; translation
/// is all-or-nothing and this exists only when every construct lowered.
#[derive(Debug)]
pub struct Translated {
    pub spirv: crate::spirv::SpirvModule,
    pub kernel_info: Vec<(String, KernelInfo)>,
    pub build_options: String,
    pub should_link_ptx_impl: bool,
}

/// Whether a directive declares a device-only function, which this
/// generator does not translate.
pub open spec fn spec_is_device_fn(d: crate::ast::Directive) -> bool {
    match d {
        crate::ast::Directive::Method(f) => f.func_directive is Func,
        _ => false,
    }
}

/// Whether the module holds a device-only function.
pub open spec fn spec_has_device_fn(dirs: Seq<crate::ast::Directive>) -> bool {
    exists|i: int| 0 <= i < dirs.len() && spec_is_device_fn(#[trigger] dirs[i])
}

/// The names of a module's kernel directives, in declaration order.
pub open spec fn spec_kernel_names(dirs: Seq<crate::ast::Directive>) -> Seq<Seq<char>>
    decreases dirs.len(),
{
    if dirs.len() == 0 {
        Seq::<Seq<char>>::empty()
    } else {
        spec_kernel_names(dirs.drop_last()) + (match dirs.last() {
            crate::ast::Directive::Method(f) => match f.func_directive {
                crate::ast::MethodDecl::Kernel { name, .. } => seq![name@],
                _ => Seq::<Seq<char>>::empty(),
            },
            _ => Seq::<Seq<char>>::empty(),
        })
    }
}

/// The named kernel's metadata records shared-memory use.
pub open spec fn spec_kernel_uses_shared(infos: Seq<(String, KernelInfo)>, name: Seq<char>) -> bool {
    exists|i: int|
        0 <= i < infos.len() && (#[trigger] infos[i]).0@ == name && infos[i].1.uses_shared_mem
}

impl Translated {
    /// Whether the named kernel was seen to touch shared memory; a name
    /// with no metadata entry reports no shared-memory use.
    #[verifier::loop_isolation(false)]
    pub fn kernel_uses_shared_mem(&self, name: &str) -> (r: bool)
        ensures
            r == spec_kernel_uses_shared(self.kernel_info@, name@),
    {
        let n = self.kernel_info.len();
        let mut i: usize = 0;
        while i < n
            invariant
                i <= n,
                n == self.kernel_info@.len(),
                forall|k: int|
                    0 <= k < i ==> !((#[trigger] self.kernel_info@[k]).0@ == name@
                        && self.kernel_info@[k].1.uses_shared_mem),
            decreases n - i,
        {
            if str_eq_chars(self.kernel_info[i].0.as_str(), name) && self.kernel_info[i].1.uses_shared_mem {
                proof {
                    assert(self.kernel_info@[i as int].0@ == name@);
                }
                return true;
            }
            i += 1;
        }
        false
    }
}

/// What one generated kernel contributes to the module.
struct KernelOut {
    function: crate::spirv::SpirvFunction,
    fn_id: u32,
    name: String,
    interface: Vec<u32>,
    global_vars: Vec<SpirvInstruction>,
    decorations: Vec<SpirvInstruction>,
    uses_shared: bool,
    ftz32: bool,
    ftz64: bool,
}

/// A copy of the module-level symbols, so each kernel scopes its own
/// declarations over them.
fn clone_symbols(src: &Symbols) -> (r: Symbols) {
    let mut out = Symbols::new();
    let n = src.entries.len();
    let mut i: usize = 0;
    while i < n
        invariant
            i <= n,
            n == src.entries@.len(),
        decreases n - i,
    {
        let e = &src.entries[i];
        out.insert(e.name.clone(), e.var_id, e.typ, e.space);
        i += 1;
    }
    out
}

/// Generates one kernel: its parameters arrive as function parameters,
/// each backed by an entry-block variable so parameter loads read them
/// like declared registers; the body is lowered into blocks; the entry
/// block opens with all variables and the parameter stores.
#[verifier::loop_isolation(false)]
#[verifier::rlimit(60)]
#[verifier::spinoff_prover]
fn gen_kernel(
    b: &mut ModuleBuilder,
    ext_set: u32,
    module_syms: &Symbols,
    name: &String,
    in_args: &Vec<crate::ast::KernelParam>,
    body: &Vec<Statement>,
) -> (r: Result<KernelOut, TranslateError>)
    requires
        old(b).wf(),
    ensures
        final(b).wf(),
        r is Ok ==> r.unwrap().name@ == name@,
{
    let mut ks = KernelState::new(ext_set);
    let mut syms = clone_symbols(module_syms);
    let void_t = b.type_id(TypeKey::Void)?;
    let mut param_type_ids: Vec<u32> = Vec::new();
    let mut parameters: Vec<SpirvInstruction> = Vec::new();
    let mut param_setup: Vec<SpirvInstruction> = Vec::new();
    let na = in_args.len();
    let mut i: usize = 0;
    while i < na
        invariant
            b.wf(),
            i <= na,
            na == in_args@.len(),
        decreases na - i,
    {
        let arg = &in_args[i];
        let typ = match &arg.v_type {
            crate::ast::Type::Scalar(t) => *t,
            _ => {
                return Err(TranslateError::Unsupported);
            },
        };
        let t_id = b.type_id(scalar_key(typ))?;
        param_type_ids.push(t_id);
        let pid = b.fresh_id()?;
        parameters.push(instr(OP_FUNCTION_PARAMETER, Some(t_id), Some(pid), Vec::new()));
        let ptr_t = b.type_id(TypeKey::Pointer { storage: SC_FUNCTION, pointee: t_id })?;
        let vid = b.fresh_id()?;
        let mut var_ops: Vec<SpirvOperand> = Vec::new();
        var_ops.push(SpirvOperand::LiteralU32(SC_FUNCTION));
        ks.vars.push(instr(OP_VARIABLE, Some(ptr_t), Some(vid), var_ops));
        let mut st_ops: Vec<SpirvOperand> = Vec::new();
        st_ops.push(SpirvOperand::IdRef(vid));
        st_ops.push(SpirvOperand::IdRef(pid));
        param_setup.push(instr(OP_STORE, None, None, st_ops));
        syms.insert(arg.name.clone(), vid, typ, StateSpace::Param);
        i += 1;
    }
    let fn_t = b.fn_type_id(param_type_ids, void_t)?;
    let fn_id = b.fresh_id()?;
    let mut blocks = lower_body(b, &mut ks, &mut syms, body)?;
    // the entry block must open with the variables and parameter stores
    let first = blocks.remove(0);
    let mut entry_instrs: Vec<SpirvInstruction> = Vec::new();
    let vars = ks.vars;
    ks.vars = Vec::new();
    append_vec(&mut entry_instrs, vars);
    append_vec(&mut entry_instrs, param_setup);
    append_vec(&mut entry_instrs, first.instructions);
    let mut final_blocks: Vec<crate::spirv::SpirvBlock> = Vec::new();
    final_blocks.push(
        crate::spirv::SpirvBlock { label: first.label, instructions: entry_instrs },
    );
    append_blocks(&mut final_blocks, blocks);
    let mut def_ops: Vec<SpirvOperand> = Vec::new();
    def_ops.push(SpirvOperand::LiteralU32(0));
    def_ops.push(SpirvOperand::IdRef(fn_t));
    let function = crate::spirv::SpirvFunction {
        def: Some(instr(OP_FUNCTION, Some(void_t), Some(fn_id), def_ops)),
        parameters,
        blocks: final_blocks,
        end: Some(instr(OP_FUNCTION_END, None, None, Vec::new())),
    };
    Ok(
        KernelOut {
            function,
            fn_id,
            name: name.clone(),
            interface: ks.interface,
            global_vars: ks.global_vars,
            decorations: ks.decorations,
            uses_shared: ks.uses_shared,
            ftz32: ks.ftz32,
            ftz64: ks.ftz64,
        },
    )
}

/// Appends every block of `src` to `dst`, in order.
fn append_blocks(dst: &mut Vec<crate::spirv::SpirvBlock>, src: Vec<crate::spirv::SpirvBlock>) {
    let mut src = src;
    while src.len() > 0
        decreases src@.len(),
    {
        let taken = src.remove(0);
        dst.push(taken);
    }
}

/// The opcode of one interned type's declaration.
pub open spec fn spec_type_opcode(key: TypeKey) -> u16 {
    match key {
        TypeKey::Void => OP_TYPE_VOID,
        TypeKey::Bool => OP_TYPE_BOOL,
        TypeKey::Int { .. } => OP_TYPE_INT,
        TypeKey::Float { .. } => OP_TYPE_FLOAT,
        TypeKey::Vector { .. } => OP_TYPE_VECTOR,
        TypeKey::Pointer { .. } => OP_TYPE_POINTER,
    }
}

/// The operands of one interned type's declaration.
pub open spec fn spec_type_operands(key: TypeKey) -> Seq<SpirvOperand> {
    match key {
        TypeKey::Void => Seq::<SpirvOperand>::empty(),
        TypeKey::Bool => Seq::<SpirvOperand>::empty(),
        TypeKey::Int { width, signed } => seq![
            SpirvOperand::LiteralU32(width),
            SpirvOperand::LiteralU32(if signed {
                1u32
            } else {
                0u32
            }),
        ],
        TypeKey::Float { width } => seq![SpirvOperand::LiteralU32(width)],
        TypeKey::Vector { elem, count } => seq![
            SpirvOperand::IdRef(elem),
            SpirvOperand::LiteralU32(count),
        ],
        TypeKey::Pointer { storage, pointee } => seq![
            SpirvOperand::LiteralU32(storage),
            SpirvOperand::IdRef(pointee),
        ],
    }
}

/// Distinct type keys declare distinct content: a second declaration of
/// the same logical type can never appear under another id.
pub proof fn lemma_type_decl_distinct(k1: TypeKey, k2: TypeKey)
    requires
        k1 != k2,
    ensures
        spec_type_opcode(k1) != spec_type_opcode(k2) || spec_type_operands(k1)
            != spec_type_operands(k2),
{
    if spec_type_opcode(k1) == spec_type_opcode(k2) && spec_type_operands(k1)
        == spec_type_operands(k2) {
        match (k1, k2) {
            (TypeKey::Int { width: w1, signed: s1 }, TypeKey::Int { width: w2, signed: s2 }) => {
                assert(spec_type_operands(k1)[0] == spec_type_operands(k2)[0]);
                assert(spec_type_operands(k1)[1] == spec_type_operands(k2)[1]);
            },
            (TypeKey::Float { width: w1 }, TypeKey::Float { width: w2 }) => {
                assert(spec_type_operands(k1)[0] == spec_type_operands(k2)[0]);
            },
            (
                TypeKey::Vector { elem: e1, count: c1 },
                TypeKey::Vector { elem: e2, count: c2 },
            ) => {
                assert(spec_type_operands(k1)[0] == spec_type_operands(k2)[0]);
                assert(spec_type_operands(k1)[1] == spec_type_operands(k2)[1]);
            },
            (
                TypeKey::Pointer { storage: g1, pointee: p1 },
                TypeKey::Pointer { storage: g2, pointee: p2 },
            ) => {
                assert(spec_type_operands(k1)[0] == spec_type_operands(k2)[0]);
                assert(spec_type_operands(k1)[1] == spec_type_operands(k2)[1]);
            },
            _ => {},
        }
    }
}

/// The operands of one function type's declaration: the return type id,
/// then the parameter type ids.
pub open spec fn spec_fn_type_operands(params: Seq<u32>, ret: u32) -> Seq<SpirvOperand> {
    seq![SpirvOperand::IdRef(ret)] + params.map(|i: int, p: u32| SpirvOperand::IdRef(p))
}

/// Distinct function-type keys declare distinct operand lists.
pub proof fn lemma_fn_type_decl_distinct(p1: Seq<u32>, r1: u32, p2: Seq<u32>, r2: u32)
    requires
        (p1, r1) != (p2, r2),
    ensures
        spec_fn_type_operands(p1, r1) != spec_fn_type_operands(p2, r2),
{
    if spec_fn_type_operands(p1, r1) == spec_fn_type_operands(p2, r2) {
        assert(p1.map(|i: int, p: u32| SpirvOperand::IdRef(p)).len() == p1.len());
        assert(p2.map(|i: int, p: u32| SpirvOperand::IdRef(p)).len() == p2.len());
        assert(spec_fn_type_operands(p1, r1).len() == 1 + p1.len());
        assert(spec_fn_type_operands(p2, r2).len() == 1 + p2.len());
        assert(spec_fn_type_operands(p1, r1)[0] == spec_fn_type_operands(p2, r2)[0]);
        assert(r1 == r2);
        assert(p1.len() == p2.len());
        assert forall|k: int| 0 <= k < p1.len() implies p1[k] == p2[k] by {
            assert(spec_fn_type_operands(p1, r1)[1 + k] == spec_fn_type_operands(p2, r2)[1 + k]);
            assert(spec_fn_type_operands(p1, r1)[1 + k] == SpirvOperand::IdRef(p1[k]));
            assert(spec_fn_type_operands(p2, r2)[1 + k] == SpirvOperand::IdRef(p2[k]));
        }
        assert(p1 =~= p2);
    }
}

/// The declaration instruction of one interned type.
fn type_instruction(key: TypeKey, id: u32) -> (r: SpirvInstruction)
    ensures
        r.result_id == Some(id),
        r.result_type == None::<u32>,
        r.opcode == spec_type_opcode(key),
        r.operands@ == spec_type_operands(key),
{
    match key {
        TypeKey::Void => {
            let ops: Vec<SpirvOperand> = Vec::new();
            proof {
                assert(ops@ =~= spec_type_operands(key));
            }
            instr(OP_TYPE_VOID, None, Some(id), ops)
        },
        TypeKey::Bool => {
            let ops: Vec<SpirvOperand> = Vec::new();
            proof {
                assert(ops@ =~= spec_type_operands(key));
            }
            instr(OP_TYPE_BOOL, None, Some(id), ops)
        },
        TypeKey::Int { width, signed } => {
            let mut ops: Vec<SpirvOperand> = Vec::new();
            ops.push(SpirvOperand::LiteralU32(width));
            ops.push(SpirvOperand::LiteralU32(if signed {
                1
            } else {
                0
            }));
            proof {
                assert(ops@ =~= spec_type_operands(key));
            }
            instr(OP_TYPE_INT, None, Some(id), ops)
        },
        TypeKey::Float { width } => {
            let mut ops: Vec<SpirvOperand> = Vec::new();
            ops.push(SpirvOperand::LiteralU32(width));
            proof {
                assert(ops@ =~= spec_type_operands(key));
            }
            instr(OP_TYPE_FLOAT, None, Some(id), ops)
        },
        TypeKey::Vector { elem, count } => {
            let mut ops: Vec<SpirvOperand> = Vec::new();
            ops.push(SpirvOperand::IdRef(elem));
            ops.push(SpirvOperand::LiteralU32(count));
            proof {
                assert(ops@ =~= spec_type_operands(key));
            }
            instr(OP_TYPE_VECTOR, None, Some(id), ops)
        },
        TypeKey::Pointer { storage, pointee } => {
            let mut ops: Vec<SpirvOperand> = Vec::new();
            ops.push(SpirvOperand::LiteralU32(storage));
            ops.push(SpirvOperand::IdRef(pointee));
            proof {
                assert(ops@ =~= spec_type_operands(key));
            }
            instr(OP_TYPE_POINTER, None, Some(id), ops)
        },
    }
}

/// The bit width of the interned type with the given id, for sizing
/// constant literals.
fn width_of_type(b: &ModuleBuilder, type_id: u32) -> (r: u32)
    requires
        b.wf(),
{
    let n = b.types.len();
    let mut i: usize = 0;
    while i < n
        invariant
            i <= n,
            n == b.types@.len(),
            b.types.wf(),
        decreases n - i,
    {
        let (key, id) = b.types.entry_at(i);
        if id == type_id {
            return match key {
                TypeKey::Int { width, .. } => width,
                TypeKey::Float { width } => width,
                _ => 32,
            };
        }
        i += 1;
    }
    32
}

/// Translates a parsed module into the SPIR-V artifact. Every identical
/// type and constant is declared once; kernels become entry points with
/// their interface; a kernel that used flush-to-zero float operations gets
/// the matching denormal execution mode for that width; device functions
/// and other unsupported constructs fail the whole translation, and on any
/// error no artifact is produced.
#[verifier::loop_isolation(false)]
#[verifier::rlimit(100)]
#[verifier::spinoff_prover]
pub fn to_spirv_module(ast: &crate::ast::PtxModule) -> (r: Result<Translated, TranslateError>)
    ensures
        r is Ok ==> r.unwrap().kernel_info@.len() == spec_kernel_names(ast.directives@).len()
            && forall|k: int|
            0 <= k < r.unwrap().kernel_info@.len() ==> (#[trigger] r.unwrap().kernel_info@[k]).0@
                == spec_kernel_names(ast.directives@)[k],
        r is Ok ==> r.unwrap().spirv.functions@.len() == spec_kernel_names(ast.directives@).len(),
        spec_has_device_fn(ast.directives@) ==> r is Err,
        ast.directives@.len() == 0 ==> r is Ok,
        r is Ok ==> forall|i: int|
            0 <= i < r.unwrap().spirv.decls@.len() ==> (
            #[trigger] r.unwrap().spirv.decls@[i]).result_id is Some,
        r is Ok ==> forall|i: int, j: int|
            0 <= i < r.unwrap().spirv.decls@.len() && 0 <= j < r.unwrap().spirv.decls@.len() && i
                != j ==> (#[trigger] r.unwrap().spirv.decls@[i]).result_id != (
            #[trigger] r.unwrap().spirv.decls@[j]).result_id,
        r is Ok ==> forall|i: int, j: int|
            0 <= i < r.unwrap().spirv.decls@.len() && 0 <= j < r.unwrap().spirv.decls@.len() && i
                != j && (#[trigger] r.unwrap().spirv.decls@[i]).opcode != OP_CONSTANT && (
            #[trigger] r.unwrap().spirv.decls@[j]).opcode != OP_CONSTANT ==> r.unwrap().spirv.decls@[i].opcode
                != r.unwrap().spirv.decls@[j].opcode || r.unwrap().spirv.decls@[i].operands@
                != r.unwrap().spirv.decls@[j].operands@,
        r is Ok ==> r.unwrap().build_options@ == Seq::<char>::empty(),
        r is Ok ==> r.unwrap().should_link_ptx_impl == false,
{
    let mut b = ModuleBuilder::new();
    let ext_set = match b.fresh_id() {
        Ok(id) => id,
        Err(e) => {
            return Err(e);
        },
    };
    // module-scope variables first, so kernels see them
    let mut module_syms = Symbols::new();
    let mut module_vars: Vec<SpirvInstruction> = Vec::new();
    let nd = ast.directives.len();
    let mut i: usize = 0;
    while i < nd
        invariant
            b.wf(),
            i <= nd,
            nd == ast.directives@.len(),
        decreases nd - i,
    {
        if let crate::ast::Directive::Variable(decl) = &ast.directives[i] {
            let typ = match &decl.v_type {
                crate::ast::Type::Scalar(t) => *t,
                _ => {
                    return Err(TranslateError::Unsupported);
                },
            };
            let storage = match decl.space {
                StateSpace::Global => SC_CROSS_WORKGROUP,
                StateSpace::Shared => SC_WORKGROUP,
                StateSpace::Const => SC_UNIFORM_CONSTANT,
                _ => {
                    return Err(TranslateError::InvalidAddressSpace);
                },
            };
            let t_id = b.type_id(scalar_key(typ))?;
            let ptr_t = b.type_id(TypeKey::Pointer { storage, pointee: t_id })?;
            let vid = b.fresh_id()?;
            let mut ops: Vec<SpirvOperand> = Vec::new();
            ops.push(SpirvOperand::LiteralU32(storage));
            module_vars.push(instr(OP_VARIABLE, Some(ptr_t), Some(vid), ops));
            module_syms.insert(decl.name.clone(), vid, typ, decl.space);
        }
        i += 1;
    }
    // kernels
    let ghost names = spec_kernel_names(ast.directives@);
    let mut kernels: Vec<KernelOut> = Vec::new();
    let mut j: usize = 0;
    while j < nd
        invariant
            b.wf(),
            j <= nd,
            nd == ast.directives@.len(),
            kernels@.len() == spec_kernel_names(ast.directives@.take(j as int)).len(),
            forall|k: int|
                0 <= k < kernels@.len() ==> (#[trigger] kernels@[k]).name@ == spec_kernel_names(
                    ast.directives@.take(j as int),
                )[k],
            forall|k: int| 0 <= k < j ==> !spec_is_device_fn(#[trigger] ast.directives@[k]),
        decreases nd - j,
    {
        let ghost pre = ast.directives@.take(j as int);
        proof {
            assert(ast.directives@.take(j + 1).drop_last() =~= pre);
            assert(ast.directives@.take(j + 1).last() == ast.directives@[j as int]);
        }
        if let crate::ast::Directive::Method(f) = &ast.directives[j] {
            match &f.func_directive {
                crate::ast::MethodDecl::Kernel { name, in_args } => {
                    let out = gen_kernel(&mut b, ext_set, &module_syms, name, in_args, &f.body)?;
                    kernels.push(out);
                },
                crate::ast::MethodDecl::Func { .. } => {
                    return Err(TranslateError::Unsupported);
                },
            }
        }
        j += 1;
    }
    proof {
        assert(ast.directives@.take(nd as int) =~= ast.directives@);
    }
    // header section
    let mut header: Vec<SpirvInstruction> = Vec::new();
    let caps: [u32; 7] = [4, 6, 11, 22, 39, 9, 10];
    let mut c: usize = 0;
    while c < 7
        invariant
            c <= 7,
        decreases 7 - c,
    {
        let mut ops: Vec<SpirvOperand> = Vec::new();
        ops.push(SpirvOperand::LiteralU32(caps[c]));
        header.push(instr(OP_CAPABILITY, None, None, ops));
        c += 1;
    }
    let mut any_ftz = false;
    let nk = kernels.len();
    let mut k: usize = 0;
    while k < nk
        invariant
            k <= nk,
            nk == kernels@.len(),
            any_ftz ==> nk > 0,
        decreases nk - k,
    {
        if kernels[k].ftz32 || kernels[k].ftz64 {
            any_ftz = true;
        }
        k += 1;
    }
    if any_ftz {
        let ext_name = pack_string("SPV_KHR_float_controls")?;
        header.push(instr(OP_EXTENSION, None, None, ext_name));
    }
    let import_ops = ext_import_ops();
    header.push(instr(OP_EXT_INST_IMPORT, None, Some(ext_set), import_ops));
    let mut mm_ops: Vec<SpirvOperand> = Vec::new();
    mm_ops.push(SpirvOperand::LiteralU32(2));
    mm_ops.push(SpirvOperand::LiteralU32(2));
    header.push(instr(OP_MEMORY_MODEL, None, None, mm_ops));
    let mut k2: usize = 0;
    while k2 < nk
        invariant
            k2 <= nk,
            nk == kernels@.len(),
        decreases nk - k2,
    {
        let mut ep_ops: Vec<SpirvOperand> = Vec::new();
        ep_ops.push(SpirvOperand::LiteralU32(6));
        ep_ops.push(SpirvOperand::IdRef(kernels[k2].fn_id));
        let name_ops = pack_string(kernels[k2].name.as_str())?;
        let mut name_ops = name_ops;
        while name_ops.len() > 0
            decreases name_ops@.len(),
        {
            let w = name_ops.remove(0);
            ep_ops.push(w);
        }
        let ni = kernels[k2].interface.len();
        let mut ii: usize = 0;
        while ii < ni
            invariant
                ii <= ni,
                k2 < nk,
                nk == kernels@.len(),
                ni == kernels@[k2 as int].interface@.len(),
            decreases ni - ii,
        {
            ep_ops.push(SpirvOperand::IdRef(kernels[k2].interface[ii]));
            ii += 1;
        }
        header.push(instr(OP_ENTRY_POINT, None, None, ep_ops));
        k2 += 1;
    }
    let mut k3: usize = 0;
    while k3 < nk
        invariant
            k3 <= nk,
            nk == kernels@.len(),
        decreases nk - k3,
    {
        if kernels[k3].ftz32 {
            let mut em_ops: Vec<SpirvOperand> = Vec::new();
            em_ops.push(SpirvOperand::IdRef(kernels[k3].fn_id));
            em_ops.push(SpirvOperand::LiteralU32(4460));
            em_ops.push(SpirvOperand::LiteralU32(32));
            header.push(instr(OP_EXECUTION_MODE, None, None, em_ops));
        }
        if kernels[k3].ftz64 {
            let mut em_ops: Vec<SpirvOperand> = Vec::new();
            em_ops.push(SpirvOperand::IdRef(kernels[k3].fn_id));
            em_ops.push(SpirvOperand::LiteralU32(4460));
            em_ops.push(SpirvOperand::LiteralU32(64));
            header.push(instr(OP_EXECUTION_MODE, None, None, em_ops));
        }
        k3 += 1;
    }
    // declarations: types, function types, constants — one instruction per
    // interned entry, so no logical type or constant is declared twice
    let mut decls: Vec<SpirvInstruction> = Vec::new();
    let nt = b.types.len();
    let mut t: usize = 0;
    while t < nt
        invariant
            b.wf(),
            t <= nt,
            nt == b.types@.len(),
            decls@.len() == t,
            forall|k: int|
                0 <= k < t ==> (#[trigger] decls@[k]).result_id == Some(b.types@[k].1),
            forall|k: int|
                0 <= k < t ==> (#[trigger] decls@[k]).opcode == spec_type_opcode(b.types@[k].0)
                    && decls@[k].operands@ == spec_type_operands(b.types@[k].0),
        decreases nt - t,
    {
        let (key, id) = b.types.entry_at(t);
        decls.push(type_instruction(key, id));
        t += 1;
    }
    let nf = b.fn_types.len();
    let mut ft: usize = 0;
    while ft < nf
        invariant
            b.wf(),
            ft <= nf,
            nt == b.types@.len(),
            nf == b.fn_types@.len(),
            decls@.len() == nt + ft,
            forall|k: int|
                0 <= k < nt ==> (#[trigger] decls@[k]).result_id == Some(b.types@[k].1),
            forall|k: int|
                0 <= k < nt ==> (#[trigger] decls@[k]).opcode == spec_type_opcode(b.types@[k].0)
                    && decls@[k].operands@ == spec_type_operands(b.types@[k].0),
            forall|k: int|
                0 <= k < ft ==> (#[trigger] decls@[nt + k]).result_id == Some(b.fn_types@[k].2),
            forall|k: int|
                0 <= k < ft ==> (#[trigger] decls@[nt + k]).opcode == OP_TYPE_FUNCTION
                    && decls@[nt + k].operands@ == spec_fn_type_operands(
                    b.fn_types@[k].0@,
                    b.fn_types@[k].1,
                ),
        decreases nf - ft,
    {
        let mut ops: Vec<SpirvOperand> = Vec::new();
        let ret = b.fn_types.entry_at(ft).1;
        let id = b.fn_types.entry_at(ft).2;
        ops.push(SpirvOperand::IdRef(ret));
        let np = b.fn_types.entry_at(ft).0.len();
        let mut p: usize = 0;
        while p < np
            invariant
                b.wf(),
                ft < nf,
                nf == b.fn_types@.len(),
                p <= np,
                np == b.fn_types@[ft as int].0@.len(),
                ret == b.fn_types@[ft as int].1,
                ops@ == seq![SpirvOperand::IdRef(ret)] + b.fn_types@[ft as int].0@.take(
                    p as int,
                ).map(|i: int, q: u32| SpirvOperand::IdRef(q)),
            decreases np - p,
        {
            ops.push(SpirvOperand::IdRef(b.fn_types.entry_at(ft).0[p]));
            proof {
                assert(ops@ =~= seq![SpirvOperand::IdRef(ret)] + b.fn_types@[ft as int].0@.take(
                    p + 1,
                ).map(|i: int, q: u32| SpirvOperand::IdRef(q)));
            }
            p += 1;
        }
        proof {
            assert(b.fn_types@[ft as int].0@.take(np as int) =~= b.fn_types@[ft as int].0@);
            assert(ops@ =~= spec_fn_type_operands(b.fn_types@[ft as int].0@, ret));
        }
        decls.push(instr(OP_TYPE_FUNCTION, None, Some(id), ops));
        ft += 1;
    }
    let nc = b.consts.len();
    let mut ci: usize = 0;
    while ci < nc
        invariant
            b.wf(),
            ci <= nc,
            nt == b.types@.len(),
            nf == b.fn_types@.len(),
            nc == b.consts@.len(),
            decls@.len() == nt + nf + ci,
            forall|k: int|
                0 <= k < nt ==> (#[trigger] decls@[k]).result_id == Some(b.types@[k].1),
            forall|k: int|
                0 <= k < nf ==> (#[trigger] decls@[nt + k]).result_id == Some(b.fn_types@[k].2),
            forall|k: int|
                0 <= k < ci ==> (#[trigger] decls@[nt + nf + k]).result_id == Some(
                    b.consts@[k].1,
                ),
            forall|k: int|
                0 <= k < nt ==> (#[trigger] decls@[k]).opcode == spec_type_opcode(b.types@[k].0)
                    && decls@[k].operands@ == spec_type_operands(b.types@[k].0),
            forall|k: int|
                0 <= k < nf ==> (#[trigger] decls@[nt + k]).opcode == OP_TYPE_FUNCTION
                    && decls@[nt + k].operands@ == spec_fn_type_operands(
                    b.fn_types@[k].0@,
                    b.fn_types@[k].1,
                ),
            forall|k: int|
                0 <= k < ci ==> (#[trigger] decls@[nt + nf + k]).opcode == OP_CONSTANT,
        decreases nc - ci,
    {
        let ((type_id, bits), id) = b.consts.entry_at(ci);
        let width = width_of_type(&b, type_id);
        let mut ops: Vec<SpirvOperand> = Vec::new();
        if width > 32 {
            ops.push(SpirvOperand::LiteralU64(bits));
        } else {
            ops.push(SpirvOperand::LiteralU32(#[verifier::truncate] (bits as u32)));
        }
        decls.push(instr(OP_CONSTANT, Some(type_id), Some(id), ops));
        ci += 1;
    }
    proof {
        let ghost tps = b.types@;
        let ghost fns_p = b.fn_types@;
        let ghost cns = b.consts@;
        let ghost id_of = |i: int|
            if i < nt {
                tps[i].1
            } else if i < nt + nf {
                fns_p[i - nt].2
            } else {
                cns[i - nt - nf].1
            };
        assert forall|i: int| 0 <= i < decls@.len() implies (#[trigger] decls@[i]).result_id
            == Some(id_of(i)) by {
            if i < nt {
                assert(decls@[i].result_id == Some(tps[i].1));
            } else if i < nt + nf {
                assert(decls@[nt + (i - nt)].result_id == Some(fns_p[i - nt].2));
            } else {
                assert(decls@[nt + nf + (i - nt - nf)].result_id == Some(cns[i - nt - nf].1));
            }
        }
        assert forall|i: int, j: int|
            0 <= i < decls@.len() && 0 <= j < decls@.len() && i != j implies (
        #[trigger] decls@[i]).result_id != (#[trigger] decls@[j]).result_id by {
            assert(decls@[i].result_id == Some(id_of(i)));
            assert(decls@[j].result_id == Some(id_of(j)));
            if i < nt && j < nt {
                assert(tps[i].1 != tps[j].1);
            } else if i < nt && j < nt + nf {
                assert(tps[i].1 != fns_p[j - nt].2);
            } else if i < nt {
                assert(tps[i].1 != cns[j - nt - nf].1);
            } else if i < nt + nf && j < nt {
                assert(tps[j].1 != fns_p[i - nt].2);
            } else if i < nt + nf && j < nt + nf {
                assert(crate::pool::fkey_of(fns_p[i - nt]) != crate::pool::fkey_of(fns_p[j - nt])
                    && fns_p[i - nt].2 != fns_p[j - nt].2);
            } else if i < nt + nf {
                assert(cns[j - nt - nf].1 != fns_p[i - nt].2);
            } else if j < nt {
                assert(tps[j].1 != cns[i - nt - nf].1);
            } else if j < nt + nf {
                assert(cns[i - nt - nf].1 != fns_p[j - nt].2);
            } else {
                assert(cns[i - nt - nf].1 != cns[j - nt - nf].1);
            }
        }
        assert forall|i: int, j: int|
            0 <= i < decls@.len() && 0 <= j < decls@.len() && i != j && (
        #[trigger] decls@[i]).opcode != OP_CONSTANT && (#[trigger] decls@[j]).opcode
            != OP_CONSTANT implies decls@[i].opcode != decls@[j].opcode || decls@[i].operands@
            != decls@[j].operands@ by {
            if nt + nf <= i {
                assert(decls@[nt + nf + (i - nt - nf)].opcode == OP_CONSTANT);
            } else if nt + nf <= j {
                assert(decls@[nt + nf + (j - nt - nf)].opcode == OP_CONSTANT);
            } else if i < nt && j < nt {
                assert(decls@[i].opcode == spec_type_opcode(tps[i].0) && decls@[i].operands@
                    == spec_type_operands(tps[i].0));
                assert(decls@[j].opcode == spec_type_opcode(tps[j].0) && decls@[j].operands@
                    == spec_type_operands(tps[j].0));
                assert(tps[i].0 != tps[j].0);
                lemma_type_decl_distinct(tps[i].0, tps[j].0);
            } else if i < nt {
                assert(decls@[i].opcode == spec_type_opcode(tps[i].0));
                assert(decls@[nt + (j - nt)].opcode == OP_TYPE_FUNCTION);
                assert(spec_type_opcode(tps[i].0) != OP_TYPE_FUNCTION);
            } else if j < nt {
                assert(decls@[j].opcode == spec_type_opcode(tps[j].0));
                assert(decls@[nt + (i - nt)].opcode == OP_TYPE_FUNCTION);
                assert(spec_type_opcode(tps[j].0) != OP_TYPE_FUNCTION);
            } else {
                assert(decls@[nt + (i - nt)].operands@ == spec_fn_type_operands(
                    fns_p[i - nt].0@,
                    fns_p[i - nt].1,
                ));
                assert(decls@[nt + (j - nt)].operands@ == spec_fn_type_operands(
                    fns_p[j - nt].0@,
                    fns_p[j - nt].1,
                ));
                assert(crate::pool::fkey_of(fns_p[i - nt]) != crate::pool::fkey_of(
                    fns_p[j - nt],
                ));
                lemma_fn_type_decl_distinct(
                    fns_p[i - nt].0@,
                    fns_p[i - nt].1,
                    fns_p[j - nt].0@,
                    fns_p[j - nt].1,
                );
            }
        }
    }
    // module-scope variables, then the per-kernel contributions: builtin
    // variables into globals, decorations into the header, functions and
    // metadata out
    let mut globals: Vec<SpirvInstruction> = Vec::new();
    append_vec(&mut globals, module_vars);
    let mut functions: Vec<crate::spirv::SpirvFunction> = Vec::new();
    let mut kernel_info: Vec<(String, KernelInfo)> = Vec::new();
    let ghost decls_snapshot = decls@;
    let mut kernels = kernels;
    while kernels.len() > 0
        invariant
            kernel_info@.len() + kernels@.len() == names.len(),
            functions@.len() == kernel_info@.len(),
            decls@ == decls_snapshot,
            forall|k: int|
                0 <= k < kernel_info@.len() ==> (#[trigger] kernel_info@[k]).0@ == names[k],
            forall|k: int|
                0 <= k < kernels@.len() ==> (#[trigger] kernels@[k]).name@ == names[kernel_info@.len()
                    + k],
        decreases kernels@.len(),
    {
        let ghost pre = kernels@;
        let kout = kernels.remove(0);
        proof {
            assert(kout.name@ == names[kernel_info@.len() as int]);
            assert forall|k: int| 0 <= k < kernels@.len() implies (#[trigger] kernels@[k]).name@
                == names[kernel_info@.len() + 1 + k] by {
                assert(kernels@[k] == pre[k + 1]);
            }
        }
        append_vec(&mut header, kout.decorations);
        append_vec(&mut globals, kout.global_vars);
        kernel_info.push((kout.name, KernelInfo { uses_shared_mem: kout.uses_shared }));
        functions.push(kout.function);
    }
    let spirv = crate::spirv::SpirvModule {
        bound: b.id_bound(),
        header,
        decls,
        globals,
        functions,
    };
    Ok(
        Translated {
            spirv,
            kernel_info,
            build_options: String::new(),
            should_link_ptx_impl: false,
        },
    )
}

} // verus!
