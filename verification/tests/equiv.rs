use zluda::equiv::is_block_equal;
use zluda::equiv::is_instr_equal;
use zluda::equiv::is_option_equal;
use zluda::equiv::is_spirv_fn_equal;
use zluda::equiv::is_word_equal;
use zluda::equiv::EqMap;
use zluda::spirv::SpirvBlock;
use zluda::spirv::SpirvFunction;
use zluda::spirv::SpirvInstruction;
use zluda::spirv::SpirvOperand;

fn instr(opcode: u16, rt: Option<u32>, rid: Option<u32>, ops: Vec<SpirvOperand>) -> SpirvInstruction {
    SpirvInstruction { opcode, result_type: rt, result_id: rid, operands: ops }
}

#[test]
fn fresh_pairs_are_consistent() {
    let mut map = EqMap::new();
    assert!(map.is_equal(1, 10));
    assert!(map.is_equal(2, 20));
    // the established pairs stay consistent
    assert!(map.is_equal(1, 10));
    assert!(map.is_equal(2, 20));
}

#[test]
fn a_second_partner_is_rejected() {
    let mut map = EqMap::new();
    assert!(map.is_equal(1, 10));
    // 1 already maps to 10, and 10 already has the partner 1
    assert!(!map.is_equal(1, 11));
    assert!(!map.is_equal(2, 10));
    // the original pairing is still intact
    assert!(map.is_equal(1, 10));
}

#[test]
fn word_and_option_helpers_follow_the_pairing() {
    let mut map = EqMap::new();
    assert!(is_word_equal(&3, &30, &mut map));
    assert!(!is_word_equal(&3, &31, &mut map));
    assert!(is_option_equal(&None, &None, &mut map));
    assert!(is_option_equal(&Some(4), &Some(40), &mut map));
    assert!(!is_option_equal(&Some(4), &None, &mut map));
    assert!(!is_option_equal(&None, &Some(4), &mut map));
}

#[test]
fn instruction_matching_is_modulo_renaming() {
    let mut map = EqMap::new();
    let a = instr(61, Some(1), Some(2), vec![SpirvOperand::IdRef(3)]);
    let b = instr(61, Some(10), Some(20), vec![SpirvOperand::IdRef(30)]);
    assert!(is_instr_equal(&a, &b, &mut map));
    // the pairing 3 <-> 30 is now fixed; reusing 3 with another partner
    // fails
    let c = instr(62, None, None, vec![SpirvOperand::IdRef(3)]);
    let d = instr(62, None, None, vec![SpirvOperand::IdRef(31)]);
    assert!(!is_instr_equal(&c, &d, &mut map));
}

#[test]
fn opcode_mismatch_is_rejected() {
    let mut map = EqMap::new();
    let a = instr(61, None, None, vec![]);
    let b = instr(62, None, None, vec![]);
    assert!(!is_instr_equal(&a, &b, &mut map));
}

#[test]
fn operand_count_mismatch_is_rejected() {
    let mut map = EqMap::new();
    let a = instr(61, None, None, vec![SpirvOperand::IdRef(1)]);
    let b = instr(61, None, None, vec![SpirvOperand::IdRef(1), SpirvOperand::IdRef(2)]);
    assert!(!is_instr_equal(&a, &b, &mut map));
}

#[test]
fn literal_operands_must_match_exactly() {
    let mut map = EqMap::new();
    let a = instr(43, Some(1), Some(2), vec![SpirvOperand::LiteralU32(7)]);
    let b = instr(43, Some(5), Some(6), vec![SpirvOperand::LiteralU32(8)]);
    assert!(!is_instr_equal(&a, &b, &mut map));
    let mut map2 = EqMap::new();
    let c = instr(43, Some(5), Some(6), vec![SpirvOperand::LiteralU32(7)]);
    assert!(is_instr_equal(&a, &c, &mut map2));
}

#[test]
fn operand_kind_mismatch_is_rejected() {
    let mut map = EqMap::new();
    let a = instr(234, None, None, vec![SpirvOperand::IdScope(1)]);
    let b = instr(234, None, None, vec![SpirvOperand::IdRef(1)]);
    assert!(!is_instr_equal(&a, &b, &mut map));
}

fn tiny_function(base: u32) -> SpirvFunction {
    let def = instr(
        54,
        Some(base),
        Some(base + 1),
        vec![SpirvOperand::LiteralU32(0), SpirvOperand::IdRef(base + 2)],
    );
    let label = instr(248, None, Some(base + 3), vec![]);
    let body = instr(253, None, None, vec![]);
    SpirvFunction {
        def: Some(def),
        parameters: vec![],
        blocks: vec![SpirvBlock { label: Some(label), instructions: vec![body] }],
        end: Some(instr(56, None, None, vec![])),
    }
}

#[test]
fn renamed_functions_are_equal() {
    let f1 = tiny_function(1);
    let f2 = tiny_function(100);
    assert!(is_spirv_fn_equal(&f1, &f2));
}

#[test]
fn an_id_cannot_map_to_two_partners_across_a_function() {
    // the second function reuses one id where the first uses two distinct
    // ones, so no consistent bijection exists
    let f1 = SpirvFunction {
        def: None,
        parameters: vec![],
        blocks: vec![SpirvBlock {
            label: None,
            instructions: vec![
                instr(61, Some(1), Some(2), vec![]),
                instr(61, Some(1), Some(3), vec![]),
            ],
        }],
        end: None,
    };
    let f2 = SpirvFunction {
        def: None,
        parameters: vec![],
        blocks: vec![SpirvBlock {
            label: None,
            instructions: vec![
                instr(61, Some(10), Some(20), vec![]),
                instr(61, Some(11), Some(30), vec![]),
            ],
        }],
        end: None,
    };
    assert!(!is_spirv_fn_equal(&f1, &f2));
}

#[test]
fn block_count_mismatch_is_rejected() {
    let f1 = tiny_function(1);
    let mut f2 = tiny_function(1);
    f2.blocks.push(SpirvBlock { label: None, instructions: vec![] });
    assert!(!is_spirv_fn_equal(&f1, &f2));
}

#[test]
fn present_against_absent_label_is_rejected() {
    let b1 = SpirvBlock { label: Some(instr(248, None, Some(1), vec![])), instructions: vec![] };
    let b2 = SpirvBlock { label: None, instructions: vec![] };
    let mut map = EqMap::new();
    assert!(!is_block_equal(&b1, &b2, &mut map));
}
