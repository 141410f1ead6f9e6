use zluda::ast::ScalarType;
use zluda::ast::Type;
use zluda::codegen::to_spirv_module;
use zluda::codegen::TranslateError;
use zluda::equiv::is_spirv_fns_equal;
use zluda::parser::parse_ptx_module;
use zluda::spirv::assemble;
use zluda::spirv::SpirvInstruction;
use zluda::spirv::SpirvModule;

fn parse_ok(text: &str) -> zluda::ast::PtxModule {
    let mut errors = Vec::new();
    let ast = parse_ptx_module(text, &mut errors);
    assert!(errors.is_empty(), "unexpected syntax errors");
    ast.unwrap()
}

fn translate_ok(text: &str) -> zluda::codegen::Translated {
    to_spirv_module(&parse_ok(text)).unwrap()
}

fn all_function_instrs(m: &SpirvModule) -> Vec<&SpirvInstruction> {
    let mut out = Vec::new();
    for f in &m.functions {
        for b in &f.blocks {
            for i in &b.instructions {
                out.push(i);
            }
        }
    }
    out
}

fn count_opcode(instrs: &[&SpirvInstruction], opcode: u16) -> usize {
    instrs.iter().filter(|i| i.opcode == opcode).count()
}

fn has_ext_inst(instrs: &[&SpirvInstruction], number: u32) -> bool {
    instrs.iter().any(|i| {
        i.opcode == zluda::codegen::OP_EXT_INST
            && i.operands.len() >= 2
            && matches!(i.operands[1], zluda::spirv::SpirvOperand::LiteralU32(n) if n == number)
    })
}

const LD_ST: &str = "
.version 6.5
.target sm_30
.address_size 64

.visible .entry ld_st(.param .u64 input, .param .u64 output)
{
    .reg .u64 %rd<3>;
    ld.param.u64 %rd0, [input];
    ld.param.u64 %rd1, [output];
    ld.global.u64 %rd2, [%rd0];
    st.global.u64 [%rd1], %rd2;
    ret;
}
";

#[test]
fn ld_st_translates() {
    let t = translate_ok(LD_ST);
    assert_eq!(t.kernel_info.len(), 1);
    assert_eq!(t.kernel_info[0].0, "ld_st");
    assert!(!t.kernel_info[0].1.uses_shared_mem);
    assert!(!t.should_link_ptx_impl);
    assert!(t.build_options.is_empty());
    let instrs = all_function_instrs(&t.spirv);
    assert!(count_opcode(&instrs, zluda::codegen::OP_LOAD) >= 3);
    assert_eq!(count_opcode(&instrs, zluda::codegen::OP_RETURN), 1);
}

#[test]
fn assembled_words_start_with_magic() {
    let t = translate_ok(LD_ST);
    let words = assemble(&t.spirv).unwrap();
    assert_eq!(words[0], zluda::spirv::SPIRV_MAGIC);
    assert_eq!(words[1], zluda::spirv::SPIRV_VERSION);
    assert_eq!(words[2], 0);
    assert_eq!(words[3], t.spirv.bound);
    assert_eq!(words[4], 0);
    // the first instruction after the header words encodes OpCapability
    // with word count 2
    assert_eq!(words[5], (2u32 << 16) | (zluda::codegen::OP_CAPABILITY as u32));
}

#[test]
fn renamed_registers_are_structurally_equal() {
    let renamed = LD_ST.replace("%rd0", "%a").replace("%rd1", "%b").replace("%rd2", "%c").replace(
        ".reg .u64 %rd<3>;",
        ".reg .u64 %a;\n    .reg .u64 %b;\n    .reg .u64 %c;",
    );
    let t1 = translate_ok(LD_ST);
    let t2 = translate_ok(&renamed);
    assert!(is_spirv_fns_equal(&t1.spirv.functions, &t2.spirv.functions));
}

#[test]
fn different_programs_are_not_structurally_equal() {
    let other = LD_ST.replace("st.global.u64 [%rd1], %rd2;", "st.global.u64 [%rd1], %rd0;");
    let t1 = translate_ok(LD_ST);
    let t2 = translate_ok(&other);
    assert!(!is_spirv_fns_equal(&t1.spirv.functions, &t2.spirv.functions));
}

#[test]
fn cvt_rni_lowers_to_rint() {
    let t = translate_ok(
        "
.version 6.5
.target sm_30
.address_size 64
.visible .entry cvt_rni(.param .u64 input, .param .u64 output)
{
    .reg .u64 %rd<2>;
    .reg .f32 %f<2>;
    ld.param.u64 %rd0, [input];
    ld.param.u64 %rd1, [output];
    ld.global.f32 %f0, [%rd0];
    cvt.rni.f32.f32 %f1, %f0;
    st.global.f32 [%rd1], %f1;
    ret;
}
",
    );
    let instrs = all_function_instrs(&t.spirv);
    assert!(has_ext_inst(&instrs, zluda::codegen::CL_RINT));
    assert!(!has_ext_inst(&instrs, zluda::codegen::CL_TRUNC));
}

#[test]
fn cvt_rzi_lowers_to_trunc() {
    let t = translate_ok(
        "
.version 6.5
.target sm_30
.address_size 64
.visible .entry cvt_rzi(.param .u64 input, .param .u64 output)
{
    .reg .u64 %rd<2>;
    .reg .f32 %f<2>;
    ld.param.u64 %rd0, [input];
    ld.param.u64 %rd1, [output];
    ld.global.f32 %f0, [%rd0];
    cvt.rzi.f32.f32 %f1, %f0;
    st.global.f32 [%rd1], %f1;
    ret;
}
",
    );
    let instrs = all_function_instrs(&t.spirv);
    assert!(has_ext_inst(&instrs, zluda::codegen::CL_TRUNC));
    assert!(!has_ext_inst(&instrs, zluda::codegen::CL_RINT));
}

fn mul_program(modifier: &str) -> String {
    format!(
        "
.version 6.5
.target sm_30
.address_size 64
.visible .entry mul_kernel(.param .u64 input, .param .u64 output)
{{
    .reg .u64 %rd<2>;
    .reg .f32 %f<2>;
    ld.param.u64 %rd0, [input];
    ld.param.u64 %rd1, [output];
    ld.global.f32 %f0, [%rd0];
    mul{}.f32 %f1, %f0, 0f3F000000;
    st.global.f32 [%rd1], %f1;
    ret;
}}
",
        modifier
    )
}

#[test]
fn ftz_multiply_marks_the_kernel_and_changes_the_module() {
    let with_ftz = translate_ok(&mul_program(".ftz"));
    let without = translate_ok(&mul_program(""));
    let has_denorm_mode = |m: &SpirvModule| {
        m.header.iter().any(|i| {
            i.opcode == zluda::codegen::OP_EXECUTION_MODE
                && matches!(i.operands[1], zluda::spirv::SpirvOperand::LiteralU32(4460))
        })
    };
    assert!(has_denorm_mode(&with_ftz.spirv));
    assert!(!has_denorm_mode(&without.spirv));
    let w1 = assemble(&with_ftz.spirv).unwrap();
    let w2 = assemble(&without.spirv).unwrap();
    assert_ne!(w1, w2);
}

fn setp_program(cmp: &str) -> String {
    format!(
        "
.version 6.5
.target sm_30
.address_size 64
.visible .entry setp_kernel(.param .u64 input, .param .u64 output)
{{
    .reg .u64 %rd<2>;
    .reg .f32 %f<3>;
    .reg .pred %p;
    ld.param.u64 %rd0, [input];
    ld.param.u64 %rd1, [output];
    ld.global.f32 %f0, [%rd0];
    ld.global.f32 %f1, [%rd0+4];
    setp.{}.f32 %p, %f0, %f1;
    selp.f32 %f2, %f0, %f1, %p;
    st.global.f32 [%rd1], %f2;
    ret;
}}
",
        cmp
    )
}

#[test]
fn ordered_greater_than_uses_the_ordered_opcode() {
    let t = translate_ok(&setp_program("gt"));
    let instrs = all_function_instrs(&t.spirv);
    assert_eq!(count_opcode(&instrs, zluda::codegen::OP_F_ORD_GREATER_THAN), 1);
    assert_eq!(count_opcode(&instrs, zluda::codegen::OP_F_UNORD_GREATER_THAN), 0);
}

#[test]
fn unordered_less_equal_uses_the_unordered_opcode() {
    let t = translate_ok(&setp_program("leu"));
    let instrs = all_function_instrs(&t.spirv);
    assert_eq!(count_opcode(&instrs, zluda::codegen::OP_F_UNORD_LESS_THAN_EQUAL), 1);
    assert_eq!(count_opcode(&instrs, zluda::codegen::OP_F_ORD_LESS_THAN_EQUAL), 0);
}

#[test]
fn syntax_error_never_yields_a_module() {
    let mut errors = Vec::new();
    let ast = parse_ptx_module(
        "
.version 6.5
.target sm_30
.address_size 64
.visible .entry broken(.param .u64 input)
{
    frobnicate.u64 %rd0;
    ret;
}
",
        &mut errors,
    );
    assert!(ast.is_none());
    assert!(!errors.is_empty());
}

#[test]
fn several_errors_are_collected_in_one_parse() {
    let mut errors = Vec::new();
    let ast = parse_ptx_module(
        "
.version 6.5
.target sm_30
.address_size 64
.visible .entry broken(.param .u64 input)
{
    frobnicate.u64 %rd0;
    blorb.u32 %r1;
    ret;
}
",
        &mut errors,
    );
    assert!(ast.is_none());
    assert!(errors.len() >= 2);
}

#[test]
fn undeclared_register_never_yields_an_artifact() {
    let ast = parse_ok(
        "
.version 6.5
.target sm_30
.address_size 64
.visible .entry bad(.param .u64 output)
{
    .reg .u64 %rd0;
    ld.param.u64 %rd0, [output];
    st.global.u64 [%rd0], %rd9;
    ret;
}
",
    );
    assert_eq!(to_spirv_module(&ast).unwrap_err(), TranslateError::UnknownSymbol);
}

#[test]
fn duplicate_types_and_constants_are_declared_once() {
    let t = translate_ok(
        "
.version 6.5
.target sm_30
.address_size 64
.visible .entry dedup(.param .u64 input, .param .u64 output)
{
    .reg .u64 %rd<4>;
    ld.param.u64 %rd0, [input];
    ld.param.u64 %rd1, [output];
    ld.global.u64 %rd2, [%rd0];
    add.u64 %rd3, %rd2, 7;
    add.u64 %rd3, %rd3, 7;
    add.u64 %rd3, %rd3, 7;
    st.global.u64 [%rd1], %rd3;
    ret;
}
",
    );
    // one declaration of the unsigned 64-bit type, although every
    // register, parameter and constant uses it
    let int64_decls = t
        .spirv
        .decls
        .iter()
        .filter(|i| {
            i.opcode == zluda::codegen::OP_TYPE_INT
                && matches!(i.operands[0], zluda::spirv::SpirvOperand::LiteralU32(64))
        })
        .count();
    assert_eq!(int64_decls, 1);
    // one declaration of the constant 7, although three adds use it
    let const_sevens = t
        .spirv
        .decls
        .iter()
        .filter(|i| {
            i.opcode == zluda::codegen::OP_CONSTANT
                && matches!(i.operands[0], zluda::spirv::SpirvOperand::LiteralU64(7))
        })
        .count();
    assert_eq!(const_sevens, 1);
}

#[test]
fn shared_memory_is_reported_in_kernel_info() {
    let t = translate_ok(
        "
.version 6.5
.target sm_30
.address_size 64
.shared .u64 shared_mem;
.visible .entry uses_shared(.param .u64 input, .param .u64 output)
{
    .reg .u64 %rd<3>;
    ld.param.u64 %rd0, [input];
    ld.param.u64 %rd1, [output];
    ld.global.u64 %rd2, [%rd0];
    st.shared.u64 [shared_mem], %rd2;
    ld.shared.u64 %rd2, [shared_mem];
    st.global.u64 [%rd1], %rd2;
    ret;
}
",
    );
    assert!(t.kernel_info[0].1.uses_shared_mem);
    assert!(t.kernel_uses_shared_mem("uses_shared"));
    assert!(!t.kernel_uses_shared_mem("missing"));
}

#[test]
fn branches_and_fallthrough_build_blocks() {
    let t = translate_ok(
        "
.version 6.5
.target sm_30
.address_size 64
.visible .entry bra_kernel(.param .u64 input, .param .u64 output)
{
    .reg .u64 %rd<3>;
    ld.param.u64 %rd0, [input];
    ld.param.u64 %rd1, [output];
    ld.global.u64 %rd2, [%rd0];
    bra DONE;
DONE:
    st.global.u64 [%rd1], %rd2;
    ret;
}
",
    );
    let f = &t.spirv.functions[0];
    assert_eq!(f.blocks.len(), 2);
    // the first block ends in the explicit branch
    let last = f.blocks[0].instructions.last().unwrap();
    assert_eq!(last.opcode, zluda::codegen::OP_BRANCH);
}

#[test]
fn fallthrough_branch_is_inserted_before_a_label() {
    let t = translate_ok(
        "
.version 6.5
.target sm_30
.address_size 64
.visible .entry fallthrough(.param .u64 input, .param .u64 output)
{
    .reg .u64 %rd<3>;
    ld.param.u64 %rd0, [input];
    ld.param.u64 %rd1, [output];
    ld.global.u64 %rd2, [%rd0];
NEXT:
    st.global.u64 [%rd1], %rd2;
    ret;
}
",
    );
    let f = &t.spirv.functions[0];
    assert_eq!(f.blocks.len(), 2);
    let last = f.blocks[0].instructions.last().unwrap();
    assert_eq!(last.opcode, zluda::codegen::OP_BRANCH);
}

#[test]
fn device_functions_are_not_supported() {
    let ast = parse_ok(
        "
.version 6.5
.target sm_30
.address_size 64
.func helper()
{
    ret;
}
",
    );
    assert_eq!(to_spirv_module(&ast).unwrap_err(), TranslateError::Unsupported);
}

#[test]
fn scalar_sizes_match_the_type_model() {
    assert_eq!(Type::Scalar(ScalarType::U8).size_of(), 1);
    assert_eq!(Type::Scalar(ScalarType::S16).size_of(), 2);
    assert_eq!(Type::Scalar(ScalarType::F32).size_of(), 4);
    assert_eq!(Type::Scalar(ScalarType::B64).size_of(), 8);
    assert_eq!(Type::Scalar(ScalarType::U64).size_of(), 8);
    assert_eq!(Type::Vector(ScalarType::U32, 4).size_of(), 16);
    assert_eq!(Type::Pointer(ScalarType::U8, zluda::ast::StateSpace::Global).size_of(), 8);
}

#[test]
fn declaration_ids_never_repeat() {
    let t = translate_ok(LD_ST);
    for (i, a) in t.spirv.decls.iter().enumerate() {
        assert!(a.result_id.is_some());
        for (j, b) in t.spirv.decls.iter().enumerate() {
            if i != j {
                assert_ne!(a.result_id, b.result_id);
            }
        }
    }
}

#[test]
fn kernel_metadata_follows_declaration_order() {
    let t = translate_ok(
        "
.version 6.5
.target sm_30
.address_size 64
.visible .entry first(.param .u64 input)
{
    .reg .u64 %rd0;
    ld.param.u64 %rd0, [input];
    ret;
}
.visible .entry second(.param .u64 output)
{
    .reg .u64 %rd0;
    ld.param.u64 %rd0, [output];
    ret;
}
",
    );
    assert_eq!(t.kernel_info.len(), 2);
    assert_eq!(t.kernel_info[0].0, "first");
    assert_eq!(t.kernel_info[1].0, "second");
    assert_eq!(t.spirv.functions.len(), 2);
}

fn atom_inc_program(bound: &str) -> String {
    format!(
        "
.version 6.5
.target sm_30
.address_size 64
.visible .entry inc_kernel(.param .u64 input, .param .u64 output)
{{
    .reg .u64 %rd<2>;
    .reg .u32 %r0;
    ld.param.u64 %rd0, [input];
    ld.param.u64 %rd1, [output];
    atom.global.inc.u32 %r0, [%rd0], {};
    st.global.u32 [%rd1], %r0;
    ret;
}}
",
        bound
    )
}

#[test]
fn unbounded_atomic_increment_is_lowered() {
    let t = translate_ok(&atom_inc_program("4294967295"));
    let instrs = all_function_instrs(&t.spirv);
    assert_eq!(count_opcode(&instrs, zluda::codegen::OP_ATOMIC_I_INCREMENT), 1);
}

#[test]
fn a_wrapping_atomic_increment_bound_is_refused() {
    let ast = parse_ok(&atom_inc_program("17"));
    assert_eq!(to_spirv_module(&ast).unwrap_err(), TranslateError::Unsupported);
}

#[test]
fn large_decimal_literals_parse() {
    // near the top of the 64-bit range
    let mut errors = Vec::new();
    let ast = parse_ptx_module(
        "
.version 6.5
.target sm_30
.address_size 64
.visible .entry big(.param .u64 output)
{
    .reg .u64 %rd<2>;
    ld.param.u64 %rd0, [output];
    mov.u64 %rd1, 9223372036854775807;
    st.global.u64 [%rd0], %rd1;
    ret;
}
",
        &mut errors,
    );
    assert!(errors.is_empty());
    assert!(ast.is_some());
}

#[test]
fn an_empty_module_translates() {
    let t = translate_ok(
        "
.version 6.5
.target sm_30
.address_size 64
",
    );
    assert!(t.kernel_info.is_empty());
    assert!(t.spirv.functions.is_empty());
}
