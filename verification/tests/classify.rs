use ebpf_blocks::decode::Insn;
use ebpf_blocks::isa::EbpfInstruction;

fn insn(opc: u8) -> Insn {
    Insn { opc, dst: 0, src: 0, off: 0, imm: 0 }
}

#[test]
fn from_u8_known_opcodes() {
    assert_eq!(EbpfInstruction::from_u8(0xb4), Some(EbpfInstruction::MOV32_IMM));
    assert_eq!(EbpfInstruction::from_u8(0x04), Some(EbpfInstruction::ADD32_IMM));
    assert_eq!(EbpfInstruction::from_u8(0x0c), Some(EbpfInstruction::ADD32_REG));
    assert_eq!(EbpfInstruction::from_u8(0x95), Some(EbpfInstruction::EXIT));
    assert_eq!(EbpfInstruction::from_u8(0x18), Some(EbpfInstruction::LD_DW_IMM));
    assert_eq!(EbpfInstruction::from_u8(0x85), Some(EbpfInstruction::CALL));
}

#[test]
fn from_u8_unknown_opcodes() {
    assert_eq!(EbpfInstruction::from_u8(0x00), None);
    assert_eq!(EbpfInstruction::from_u8(0x06), None);
    assert_eq!(EbpfInstruction::from_u8(0xff), None);
}

#[test]
fn classification_totality() {
    // Every byte value either decodes to exactly one instruction, whose
    // opcode byte is the value itself, or decodes to nothing.
    let mut recognized: u32 = 0;
    for b in 0..=255u8 {
        match EbpfInstruction::from_u8(b) {
            Some(i) => {
                assert_eq!(i.opcode(), b);
                recognized += 1;
            }
            None => {}
        }
    }
    assert_eq!(recognized, 101);
}

#[test]
fn width_exclusivity_on_load_store() {
    for b in 0..=255u8 {
        if let Some(i) = EbpfInstruction::from_u8(b) {
            let load_store =
                i.is_ld_immediate() || i.is_ld_reg() || i.is_st_immediate() || i.is_st_reg();
            if load_store {
                let widths = [i.is_8bit(), i.is_16bit(), i.is_32bit(), i.is_64bit()];
                let count = widths.iter().filter(|w| **w).count();
                assert_eq!(count, 1, "opcode {b:#04x}");
            }
        }
    }
}

#[test]
fn width_predicates_by_width_code() {
    assert!(EbpfInstruction::LD_B_REG.is_8bit());
    assert!(EbpfInstruction::LD_H_REG.is_16bit());
    assert!(EbpfInstruction::LD_W_REG.is_32bit());
    assert!(EbpfInstruction::LD_DW_REG.is_64bit());
    assert!(!EbpfInstruction::LD_B_REG.is_16bit());
    assert!(!EbpfInstruction::LD_B_REG.is_32bit());
    assert!(!EbpfInstruction::LD_B_REG.is_64bit());
}

#[test]
fn class_predicates() {
    assert!(EbpfInstruction::LD_ABS_W.is_ld_immediate());
    assert!(EbpfInstruction::LD_W_REG.is_ld_reg());
    assert!(EbpfInstruction::ST_W_IMM.is_st_immediate());
    assert!(EbpfInstruction::ST_W_REG.is_st_reg());
    assert!(EbpfInstruction::EXIT.is_branch());
    assert!(EbpfInstruction::JA.is_branch());
    assert!(EbpfInstruction::CALL.is_branch());
    assert!(EbpfInstruction::ADD32_IMM.is_alu());
    assert!(EbpfInstruction::MOV64_REG.is_alu());
    assert!(!EbpfInstruction::EXIT.is_alu());
    assert!(!EbpfInstruction::MOV32_IMM.is_branch());
}

#[test]
fn const_predicate() {
    // Immediate-sourced arithmetic is constant-producing.
    assert!(EbpfInstruction::MOV32_IMM.is_const());
    assert!(EbpfInstruction::ADD32_IMM.is_const());
    // Register-sourced arithmetic is not.
    assert!(!EbpfInstruction::ADD32_REG.is_const());
    assert!(!EbpfInstruction::MOV32_REG.is_const());
    // Branches are never constants.
    assert!(!EbpfInstruction::EXIT.is_const());
    assert!(!EbpfInstruction::JEQ_IMM.is_const());
    // Loads count only with the immediate bit clear.
    assert!(EbpfInstruction::LD_ABS_W.is_const());
    assert!(!EbpfInstruction::LD_DW_IMM.is_const());
}

#[test]
fn from_insn_and_branch_query() {
    let exit = insn(0x95);
    assert_eq!(EbpfInstruction::from(&exit), Some(EbpfInstruction::EXIT));
    assert!(EbpfInstruction::is_branch_insn(&exit));
    let mov = insn(0xb4);
    assert_eq!(EbpfInstruction::from(&mov), Some(EbpfInstruction::MOV32_IMM));
    assert!(!EbpfInstruction::is_branch_insn(&mov));
    let bad = insn(0x00);
    assert_eq!(EbpfInstruction::from(&bad), None);
}
