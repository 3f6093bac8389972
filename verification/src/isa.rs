//! The instruction set: the closed set of recognized opcodes, the mapping
//! between opcode bytes and instructions, and the structural classification
//! predicates derived from the opcode bit fields.

use vstd::prelude::*;
use crate::decode::Insn;

verus! {

use crate::isa::EbpfInstruction as E;

/// Mask selecting the operation-class bits (low 3 bits) of an opcode.
pub const CLASS_MASK: u8 = 0x07;
/// Mask selecting the operand-width bits (bits 3 and 4) of an opcode.
pub const SIZE_MASK: u8 = 0x18;
/// Mask selecting the immediate-vs-register source bit (bit 3) of an opcode.
pub const SRC_MASK: u8 = 0x08;

/// Operation class: load from immediate/absolute/indirect address.
pub const BPF_LD: u8 = 0x00;
/// Operation class: load from a register-addressed location.
pub const BPF_LDX: u8 = 0x01;
/// Operation class: store an immediate value.
pub const BPF_ST: u8 = 0x02;
/// Operation class: store from a register.
pub const BPF_STX: u8 = 0x03;
/// Operation class: 32-bit arithmetic.
pub const BPF_ALU: u8 = 0x04;
/// Operation class: jump (branch, call, exit).
pub const BPF_JMP: u8 = 0x05;
/// Operation class: 64-bit arithmetic.
pub const BPF_ALU64: u8 = 0x07;

/// Operand-width code: 32 bits (word).
pub const BPF_W: u8 = 0x00;
/// Operand-width code: 16 bits (half word).
pub const BPF_H: u8 = 0x08;
/// Operand-width code: 8 bits (byte).
pub const BPF_B: u8 = 0x10;
/// Operand-width code: 64 bits (double word).
pub const BPF_DW: u8 = 0x18;

/// The set of recognized eBPF instructions, one variant per valid opcode
/// byte. An opcode byte outside this set is undecodable: `from_u8` returns
/// `None` for it and every classification-dependent operation fails.
#[allow(non_camel_case_types)]
#[derive(Clone, Copy, PartialEq, Eq, Structural, Debug)]
pub enum EbpfInstruction {
    LD_ABS_B,
    LD_ABS_H,
    LD_ABS_W,
    LD_ABS_DW,
    LD_IND_B,
    LD_IND_H,
    LD_IND_W,
    LD_IND_DW,

    LD_DW_IMM,

    // BPF_LDX class
    LD_B_REG,
    LD_H_REG,
    LD_W_REG,
    LD_DW_REG,

    // BPF_ST class
    ST_B_IMM,
    ST_H_IMM,
    ST_W_IMM,
    ST_DW_IMM,

    // BPF_STX class
    ST_B_REG,
    ST_H_REG,
    ST_W_REG,
    ST_DW_REG,
    ST_W_XADD,
    ST_DW_XADD,

    // BPF_ALU class
    ADD32_IMM,
    ADD32_REG,
    SUB32_IMM,
    SUB32_REG,
    MUL32_IMM,
    MUL32_REG,
    DIV32_IMM,
    DIV32_REG,
    OR32_IMM,
    OR32_REG,
    AND32_IMM,
    AND32_REG,
    LSH32_IMM,
    LSH32_REG,
    RSH32_IMM,
    RSH32_REG,
    NEG32,
    MOD32_IMM,
    MOD32_REG,
    XOR32_IMM,
    XOR32_REG,
    MOV32_IMM,
    MOV32_REG,
    ARSH32_IMM,
    ARSH32_REG,
    LE,
    BE,

    // BPF_ALU64 class
    ADD64_IMM,
    ADD64_REG,
    SUB64_IMM,
    SUB64_REG,
    MUL64_IMM,
    MUL64_REG,
    DIV64_IMM,
    DIV64_REG,
    OR64_IMM,
    OR64_REG,
    AND_64_IMM,
    AND64_REG,
    LSH64_IMM,
    LSH64_REG,
    RSH64_IMM,
    RSH64_REG,
    NEG64,
    MOD64_IMM,
    MOD64_REG,
    XOR64_IMM,
    XOR64_REG,
    MOV64_IMM,
    MOV64_REG,
    ARSH64_IMM,
    ARSH64_REG,

    // BPF_JMP class
    JA,
    JEQ_IMM,
    JEQ_REG,
    JGT_IMM,
    JGT_REG,
    JGE_IMM,
    JGE_REG,
    JLT_IMM,
    JLT_REG,
    JLE_IMM,
    JLE_REG,
    JSET_IMM,
    JSET_REG,
    JNE_IMM,
    JNE_REG,
    JSGT_IMM,
    JSGT_REG,
    JSGE_IMM,
    JSGE_REG,
    JSLT_IMM,
    JSLT_REG,
    JSLE_IMM,
    JSLE_REG,
    CALL,
    TAIL_CALL,
    EXIT,
}

/// The opcode byte that encodes the given instruction.
pub open spec fn spec_opcode(i: EbpfInstruction) -> u8 {
    match i {
        E::LD_ABS_B => 0x30,
        E::LD_ABS_H => 0x28,
        E::LD_ABS_W => 0x20,
        E::LD_ABS_DW => 0x38,
        E::LD_IND_B => 0x50,
        E::LD_IND_H => 0x48,
        E::LD_IND_W => 0x40,
        E::LD_IND_DW => 0x58,
        E::LD_DW_IMM => 0x18,
        E::LD_B_REG => 0x71,
        E::LD_H_REG => 0x69,
        E::LD_W_REG => 0x61,
        E::LD_DW_REG => 0x79,
        E::ST_B_IMM => 0x72,
        E::ST_H_IMM => 0x6a,
        E::ST_W_IMM => 0x62,
        E::ST_DW_IMM => 0x7a,
        E::ST_B_REG => 0x73,
        E::ST_H_REG => 0x6b,
        E::ST_W_REG => 0x63,
        E::ST_DW_REG => 0x7b,
        E::ST_W_XADD => 0xc3,
        E::ST_DW_XADD => 0xdb,
        E::ADD32_IMM => 0x04,
        E::ADD32_REG => 0x0c,
        E::SUB32_IMM => 0x14,
        E::SUB32_REG => 0x1c,
        E::MUL32_IMM => 0x24,
        E::MUL32_REG => 0x2c,
        E::DIV32_IMM => 0x34,
        E::DIV32_REG => 0x3c,
        E::OR32_IMM => 0x44,
        E::OR32_REG => 0x4c,
        E::AND32_IMM => 0x54,
        E::AND32_REG => 0x5c,
        E::LSH32_IMM => 0x64,
        E::LSH32_REG => 0x6c,
        E::RSH32_IMM => 0x74,
        E::RSH32_REG => 0x7c,
        E::NEG32 => 0x84,
        E::MOD32_IMM => 0x94,
        E::MOD32_REG => 0x9c,
        E::XOR32_IMM => 0xa4,
        E::XOR32_REG => 0xac,
        E::MOV32_IMM => 0xb4,
        E::MOV32_REG => 0xbc,
        E::ARSH32_IMM => 0xc4,
        E::ARSH32_REG => 0xcc,
        E::LE => 0xd4,
        E::BE => 0xdc,
        E::ADD64_IMM => 0x07,
        E::ADD64_REG => 0x0f,
        E::SUB64_IMM => 0x17,
        E::SUB64_REG => 0x1f,
        E::MUL64_IMM => 0x27,
        E::MUL64_REG => 0x2f,
        E::DIV64_IMM => 0x37,
        E::DIV64_REG => 0x3f,
        E::OR64_IMM => 0x47,
        E::OR64_REG => 0x4f,
        E::AND_64_IMM => 0x57,
        E::AND64_REG => 0x5f,
        E::LSH64_IMM => 0x67,
        E::LSH64_REG => 0x6f,
        E::RSH64_IMM => 0x77,
        E::RSH64_REG => 0x7f,
        E::NEG64 => 0x87,
        E::MOD64_IMM => 0x97,
        E::MOD64_REG => 0x9f,
        E::XOR64_IMM => 0xa7,
        E::XOR64_REG => 0xaf,
        E::MOV64_IMM => 0xb7,
        E::MOV64_REG => 0xbf,
        E::ARSH64_IMM => 0xc7,
        E::ARSH64_REG => 0xcf,
        E::JA => 0x05,
        E::JEQ_IMM => 0x15,
        E::JEQ_REG => 0x1d,
        E::JGT_IMM => 0x25,
        E::JGT_REG => 0x2d,
        E::JGE_IMM => 0x35,
        E::JGE_REG => 0x3d,
        E::JLT_IMM => 0xa5,
        E::JLT_REG => 0xad,
        E::JLE_IMM => 0xb5,
        E::JLE_REG => 0xbd,
        E::JSET_IMM => 0x45,
        E::JSET_REG => 0x4d,
        E::JNE_IMM => 0x55,
        E::JNE_REG => 0x5d,
        E::JSGT_IMM => 0x65,
        E::JSGT_REG => 0x6d,
        E::JSGE_IMM => 0x75,
        E::JSGE_REG => 0x7d,
        E::JSLT_IMM => 0xc5,
        E::JSLT_REG => 0xcd,
        E::JSLE_IMM => 0xd5,
        E::JSLE_REG => 0xdd,
        E::CALL => 0x85,
        E::TAIL_CALL => 0x8d,
        E::EXIT => 0x95,
    }
}

/// The instruction encoded by the given opcode byte, or `None` when the byte
/// encodes no recognized instruction.
pub open spec fn spec_from_u8(n: u8) -> Option<EbpfInstruction> {
    match n {
        0x30 => Some(E::LD_ABS_B),
        0x28 => Some(E::LD_ABS_H),
        0x20 => Some(E::LD_ABS_W),
        0x38 => Some(E::LD_ABS_DW),
        0x50 => Some(E::LD_IND_B),
        0x48 => Some(E::LD_IND_H),
        0x40 => Some(E::LD_IND_W),
        0x58 => Some(E::LD_IND_DW),
        0x18 => Some(E::LD_DW_IMM),
        0x71 => Some(E::LD_B_REG),
        0x69 => Some(E::LD_H_REG),
        0x61 => Some(E::LD_W_REG),
        0x79 => Some(E::LD_DW_REG),
        0x72 => Some(E::ST_B_IMM),
        0x6a => Some(E::ST_H_IMM),
        0x62 => Some(E::ST_W_IMM),
        0x7a => Some(E::ST_DW_IMM),
        0x73 => Some(E::ST_B_REG),
        0x6b => Some(E::ST_H_REG),
        0x63 => Some(E::ST_W_REG),
        0x7b => Some(E::ST_DW_REG),
        0xc3 => Some(E::ST_W_XADD),
        0xdb => Some(E::ST_DW_XADD),
        0x04 => Some(E::ADD32_IMM),
        0x0c => Some(E::ADD32_REG),
        0x14 => Some(E::SUB32_IMM),
        0x1c => Some(E::SUB32_REG),
        0x24 => Some(E::MUL32_IMM),
        0x2c => Some(E::MUL32_REG),
        0x34 => Some(E::DIV32_IMM),
        0x3c => Some(E::DIV32_REG),
        0x44 => Some(E::OR32_IMM),
        0x4c => Some(E::OR32_REG),
        0x54 => Some(E::AND32_IMM),
        0x5c => Some(E::AND32_REG),
        0x64 => Some(E::LSH32_IMM),
        0x6c => Some(E::LSH32_REG),
        0x74 => Some(E::RSH32_IMM),
        0x7c => Some(E::RSH32_REG),
        0x84 => Some(E::NEG32),
        0x94 => Some(E::MOD32_IMM),
        0x9c => Some(E::MOD32_REG),
        0xa4 => Some(E::XOR32_IMM),
        0xac => Some(E::XOR32_REG),
        0xb4 => Some(E::MOV32_IMM),
        0xbc => Some(E::MOV32_REG),
        0xc4 => Some(E::ARSH32_IMM),
        0xcc => Some(E::ARSH32_REG),
        0xd4 => Some(E::LE),
        0xdc => Some(E::BE),
        0x07 => Some(E::ADD64_IMM),
        0x0f => Some(E::ADD64_REG),
        0x17 => Some(E::SUB64_IMM),
        0x1f => Some(E::SUB64_REG),
        0x27 => Some(E::MUL64_IMM),
        0x2f => Some(E::MUL64_REG),
        0x37 => Some(E::DIV64_IMM),
        0x3f => Some(E::DIV64_REG),
        0x47 => Some(E::OR64_IMM),
        0x4f => Some(E::OR64_REG),
        0x57 => Some(E::AND_64_IMM),
        0x5f => Some(E::AND64_REG),
        0x67 => Some(E::LSH64_IMM),
        0x6f => Some(E::LSH64_REG),
        0x77 => Some(E::RSH64_IMM),
        0x7f => Some(E::RSH64_REG),
        0x87 => Some(E::NEG64),
        0x97 => Some(E::MOD64_IMM),
        0x9f => Some(E::MOD64_REG),
        0xa7 => Some(E::XOR64_IMM),
        0xaf => Some(E::XOR64_REG),
        0xb7 => Some(E::MOV64_IMM),
        0xbf => Some(E::MOV64_REG),
        0xc7 => Some(E::ARSH64_IMM),
        0xcf => Some(E::ARSH64_REG),
        0x05 => Some(E::JA),
        0x15 => Some(E::JEQ_IMM),
        0x1d => Some(E::JEQ_REG),
        0x25 => Some(E::JGT_IMM),
        0x2d => Some(E::JGT_REG),
        0x35 => Some(E::JGE_IMM),
        0x3d => Some(E::JGE_REG),
        0xa5 => Some(E::JLT_IMM),
        0xad => Some(E::JLT_REG),
        0xb5 => Some(E::JLE_IMM),
        0xbd => Some(E::JLE_REG),
        0x45 => Some(E::JSET_IMM),
        0x4d => Some(E::JSET_REG),
        0x55 => Some(E::JNE_IMM),
        0x5d => Some(E::JNE_REG),
        0x65 => Some(E::JSGT_IMM),
        0x6d => Some(E::JSGT_REG),
        0x75 => Some(E::JSGE_IMM),
        0x7d => Some(E::JSGE_REG),
        0xc5 => Some(E::JSLT_IMM),
        0xcd => Some(E::JSLT_REG),
        0xd5 => Some(E::JSLE_IMM),
        0xdd => Some(E::JSLE_REG),
        0x85 => Some(E::CALL),
        0x8d => Some(E::TAIL_CALL),
        0x95 => Some(E::EXIT),
        _ => None,
    }
}

/// True when the opcode byte encodes some recognized instruction.
pub open spec fn spec_classifiable(n: u8) -> bool {
    spec_from_u8(n) is Some
}

impl EbpfInstruction {
    /// Operation class of this instruction: the low 3 bits of its opcode.
    pub open spec fn spec_class(self) -> u8 {
        spec_opcode(self) & CLASS_MASK
    }

    /// The instruction loads from an immediate/absolute/indirect address.
    pub open spec fn spec_is_ld_immediate(self) -> bool {
        self.spec_class() == BPF_LD
    }

    /// The instruction loads from a register-addressed location.
    pub open spec fn spec_is_ld_reg(self) -> bool {
        self.spec_class() == BPF_LDX
    }

    /// The instruction stores an immediate value.
    pub open spec fn spec_is_st_immediate(self) -> bool {
        self.spec_class() == BPF_ST
    }

    /// The instruction stores from a register.
    pub open spec fn spec_is_st_reg(self) -> bool {
        self.spec_class() == BPF_STX
    }

    /// The instruction belongs to one of the four load/store classes, for
    /// which the operand-width predicates are meaningful.
    pub open spec fn spec_is_load_store(self) -> bool {
        self.spec_is_ld_immediate() || self.spec_is_ld_reg() || self.spec_is_st_immediate()
            || self.spec_is_st_reg()
    }

    /// The instruction belongs to the jump class.
    pub open spec fn spec_is_branch(self) -> bool {
        self.spec_class() == BPF_JMP
    }

    /// The instruction belongs to one of the two arithmetic classes.
    pub open spec fn spec_is_alu(self) -> bool {
        self.spec_class() == BPF_ALU || self.spec_class() == BPF_ALU64
    }

    /// The operand-width bits of the opcode name an 8-bit operand.
    pub open spec fn spec_is_8bit(self) -> bool {
        spec_opcode(self) & SIZE_MASK == BPF_B
    }

    /// The operand-width bits of the opcode name a 16-bit operand.
    pub open spec fn spec_is_16bit(self) -> bool {
        spec_opcode(self) & SIZE_MASK == BPF_H
    }

    /// The operand-width bits of the opcode name a 32-bit operand.
    pub open spec fn spec_is_32bit(self) -> bool {
        spec_opcode(self) & SIZE_MASK == BPF_W
    }

    /// The operand-width bits of the opcode name a 64-bit operand.
    pub open spec fn spec_is_64bit(self) -> bool {
        spec_opcode(self) & SIZE_MASK == BPF_DW
    }

    /// The instruction produces a constant: a load-immediate or arithmetic
    /// instruction whose source bit selects the immediate operand.
    pub open spec fn spec_is_const(self) -> bool {
        (self.spec_is_ld_immediate() || self.spec_is_alu()) && spec_opcode(self) & SRC_MASK == 0
    }

    /// Converts a byte to the corresponding instruction, or `None` for an
    /// unrecognized opcode byte.
    pub fn from_u8(n: u8) -> (r: Option<Self>)
        ensures
            r == spec_from_u8(n),
    {
        match n {
            0x30 => Some(E::LD_ABS_B),
            0x28 => Some(E::LD_ABS_H),
            0x20 => Some(E::LD_ABS_W),
            0x38 => Some(E::LD_ABS_DW),
            0x50 => Some(E::LD_IND_B),
            0x48 => Some(E::LD_IND_H),
            0x40 => Some(E::LD_IND_W),
            0x58 => Some(E::LD_IND_DW),
            0x18 => Some(E::LD_DW_IMM),
            0x71 => Some(E::LD_B_REG),
            0x69 => Some(E::LD_H_REG),
            0x61 => Some(E::LD_W_REG),
            0x79 => Some(E::LD_DW_REG),
            0x72 => Some(E::ST_B_IMM),
            0x6a => Some(E::ST_H_IMM),
            0x62 => Some(E::ST_W_IMM),
            0x7a => Some(E::ST_DW_IMM),
            0x73 => Some(E::ST_B_REG),
            0x6b => Some(E::ST_H_REG),
            0x63 => Some(E::ST_W_REG),
            0x7b => Some(E::ST_DW_REG),
            0xc3 => Some(E::ST_W_XADD),
            0xdb => Some(E::ST_DW_XADD),
            0x04 => Some(E::ADD32_IMM),
            0x0c => Some(E::ADD32_REG),
            0x14 => Some(E::SUB32_IMM),
            0x1c => Some(E::SUB32_REG),
            0x24 => Some(E::MUL32_IMM),
            0x2c => Some(E::MUL32_REG),
            0x34 => Some(E::DIV32_IMM),
            0x3c => Some(E::DIV32_REG),
            0x44 => Some(E::OR32_IMM),
            0x4c => Some(E::OR32_REG),
            0x54 => Some(E::AND32_IMM),
            0x5c => Some(E::AND32_REG),
            0x64 => Some(E::LSH32_IMM),
            0x6c => Some(E::LSH32_REG),
            0x74 => Some(E::RSH32_IMM),
            0x7c => Some(E::RSH32_REG),
            0x84 => Some(E::NEG32),
            0x94 => Some(E::MOD32_IMM),
            0x9c => Some(E::MOD32_REG),
            0xa4 => Some(E::XOR32_IMM),
            0xac => Some(E::XOR32_REG),
            0xb4 => Some(E::MOV32_IMM),
            0xbc => Some(E::MOV32_REG),
            0xc4 => Some(E::ARSH32_IMM),
            0xcc => Some(E::ARSH32_REG),
            0xd4 => Some(E::LE),
            0xdc => Some(E::BE),
            0x07 => Some(E::ADD64_IMM),
            0x0f => Some(E::ADD64_REG),
            0x17 => Some(E::SUB64_IMM),
            0x1f => Some(E::SUB64_REG),
            0x27 => Some(E::MUL64_IMM),
            0x2f => Some(E::MUL64_REG),
            0x37 => Some(E::DIV64_IMM),
            0x3f => Some(E::DIV64_REG),
            0x47 => Some(E::OR64_IMM),
            0x4f => Some(E::OR64_REG),
            0x57 => Some(E::AND_64_IMM),
            0x5f => Some(E::AND64_REG),
            0x67 => Some(E::LSH64_IMM),
            0x6f => Some(E::LSH64_REG),
            0x77 => Some(E::RSH64_IMM),
            0x7f => Some(E::RSH64_REG),
            0x87 => Some(E::NEG64),
            0x97 => Some(E::MOD64_IMM),
            0x9f => Some(E::MOD64_REG),
            0xa7 => Some(E::XOR64_IMM),
            0xaf => Some(E::XOR64_REG),
            0xb7 => Some(E::MOV64_IMM),
            0xbf => Some(E::MOV64_REG),
            0xc7 => Some(E::ARSH64_IMM),
            0xcf => Some(E::ARSH64_REG),
            0x05 => Some(E::JA),
            0x15 => Some(E::JEQ_IMM),
            0x1d => Some(E::JEQ_REG),
            0x25 => Some(E::JGT_IMM),
            0x2d => Some(E::JGT_REG),
            0x35 => Some(E::JGE_IMM),
            0x3d => Some(E::JGE_REG),
            0xa5 => Some(E::JLT_IMM),
            0xad => Some(E::JLT_REG),
            0xb5 => Some(E::JLE_IMM),
            0xbd => Some(E::JLE_REG),
            0x45 => Some(E::JSET_IMM),
            0x4d => Some(E::JSET_REG),
            0x55 => Some(E::JNE_IMM),
            0x5d => Some(E::JNE_REG),
            0x65 => Some(E::JSGT_IMM),
            0x6d => Some(E::JSGT_REG),
            0x75 => Some(E::JSGE_IMM),
            0x7d => Some(E::JSGE_REG),
            0xc5 => Some(E::JSLT_IMM),
            0xcd => Some(E::JSLT_REG),
            0xd5 => Some(E::JSLE_IMM),
            0xdd => Some(E::JSLE_REG),
            0x85 => Some(E::CALL),
            0x8d => Some(E::TAIL_CALL),
            0x95 => Some(E::EXIT),
            _ => None,
        }
    }

    /// The opcode byte of this instruction: the inverse of `from_u8`.
    pub fn opcode(&self) -> (r: u8)
        ensures
            r == spec_opcode(*self),
    {
        match *self {
            E::LD_ABS_B => 0x30,
            E::LD_ABS_H => 0x28,
            E::LD_ABS_W => 0x20,
            E::LD_ABS_DW => 0x38,
            E::LD_IND_B => 0x50,
            E::LD_IND_H => 0x48,
            E::LD_IND_W => 0x40,
            E::LD_IND_DW => 0x58,
            E::LD_DW_IMM => 0x18,
            E::LD_B_REG => 0x71,
            E::LD_H_REG => 0x69,
            E::LD_W_REG => 0x61,
            E::LD_DW_REG => 0x79,
            E::ST_B_IMM => 0x72,
            E::ST_H_IMM => 0x6a,
            E::ST_W_IMM => 0x62,
            E::ST_DW_IMM => 0x7a,
            E::ST_B_REG => 0x73,
            E::ST_H_REG => 0x6b,
            E::ST_W_REG => 0x63,
            E::ST_DW_REG => 0x7b,
            E::ST_W_XADD => 0xc3,
            E::ST_DW_XADD => 0xdb,
            E::ADD32_IMM => 0x04,
            E::ADD32_REG => 0x0c,
            E::SUB32_IMM => 0x14,
            E::SUB32_REG => 0x1c,
            E::MUL32_IMM => 0x24,
            E::MUL32_REG => 0x2c,
            E::DIV32_IMM => 0x34,
            E::DIV32_REG => 0x3c,
            E::OR32_IMM => 0x44,
            E::OR32_REG => 0x4c,
            E::AND32_IMM => 0x54,
            E::AND32_REG => 0x5c,
            E::LSH32_IMM => 0x64,
            E::LSH32_REG => 0x6c,
            E::RSH32_IMM => 0x74,
            E::RSH32_REG => 0x7c,
            E::NEG32 => 0x84,
            E::MOD32_IMM => 0x94,
            E::MOD32_REG => 0x9c,
            E::XOR32_IMM => 0xa4,
            E::XOR32_REG => 0xac,
            E::MOV32_IMM => 0xb4,
            E::MOV32_REG => 0xbc,
            E::ARSH32_IMM => 0xc4,
            E::ARSH32_REG => 0xcc,
            E::LE => 0xd4,
            E::BE => 0xdc,
            E::ADD64_IMM => 0x07,
            E::ADD64_REG => 0x0f,
            E::SUB64_IMM => 0x17,
            E::SUB64_REG => 0x1f,
            E::MUL64_IMM => 0x27,
            E::MUL64_REG => 0x2f,
            E::DIV64_IMM => 0x37,
            E::DIV64_REG => 0x3f,
            E::OR64_IMM => 0x47,
            E::OR64_REG => 0x4f,
            E::AND_64_IMM => 0x57,
            E::AND64_REG => 0x5f,
            E::LSH64_IMM => 0x67,
            E::LSH64_REG => 0x6f,
            E::RSH64_IMM => 0x77,
            E::RSH64_REG => 0x7f,
            E::NEG64 => 0x87,
            E::MOD64_IMM => 0x97,
            E::MOD64_REG => 0x9f,
            E::XOR64_IMM => 0xa7,
            E::XOR64_REG => 0xaf,
            E::MOV64_IMM => 0xb7,
            E::MOV64_REG => 0xbf,
            E::ARSH64_IMM => 0xc7,
            E::ARSH64_REG => 0xcf,
            E::JA => 0x05,
            E::JEQ_IMM => 0x15,
            E::JEQ_REG => 0x1d,
            E::JGT_IMM => 0x25,
            E::JGT_REG => 0x2d,
            E::JGE_IMM => 0x35,
            E::JGE_REG => 0x3d,
            E::JLT_IMM => 0xa5,
            E::JLT_REG => 0xad,
            E::JLE_IMM => 0xb5,
            E::JLE_REG => 0xbd,
            E::JSET_IMM => 0x45,
            E::JSET_REG => 0x4d,
            E::JNE_IMM => 0x55,
            E::JNE_REG => 0x5d,
            E::JSGT_IMM => 0x65,
            E::JSGT_REG => 0x6d,
            E::JSGE_IMM => 0x75,
            E::JSGE_REG => 0x7d,
            E::JSLT_IMM => 0xc5,
            E::JSLT_REG => 0xcd,
            E::JSLE_IMM => 0xd5,
            E::JSLE_REG => 0xdd,
            E::CALL => 0x85,
            E::TAIL_CALL => 0x8d,
            E::EXIT => 0x95,
        }
    }

    /// Converts a decoded instruction record into its classified
    /// instruction, or `None` when its opcode byte is unrecognized.
    pub fn from(n: &Insn) -> (r: Option<Self>)
        ensures
            r == spec_from_u8(n.opc),
    {
        Self::from_u8(n.opc)
    }

    /// Whether a classifiable instruction record is a branch.
    pub fn is_branch_insn(ins: &Insn) -> (r: bool)
        requires
            spec_classifiable(ins.opc),
        ensures
            r == spec_from_u8(ins.opc)->Some_0.spec_is_branch(),
    {
        match Self::from(ins) {
            Some(i) => i.is_branch(),
            None => false,
        }
    }

    /// Whether the instruction loads from an immediate/absolute/indirect
    /// address.
    pub fn is_ld_immediate(&self) -> (r: bool)
        ensures
            r == self.spec_is_ld_immediate(),
    {
        self.opcode() & CLASS_MASK == BPF_LD
    }

    /// Whether the instruction loads from a register-addressed location.
    pub fn is_ld_reg(&self) -> (r: bool)
        ensures
            r == self.spec_is_ld_reg(),
    {
        self.opcode() & CLASS_MASK == BPF_LDX
    }

    /// Whether the instruction stores an immediate value.
    pub fn is_st_immediate(&self) -> (r: bool)
        ensures
            r == self.spec_is_st_immediate(),
    {
        self.opcode() & CLASS_MASK == BPF_ST
    }

    /// Whether the instruction stores from a register.
    pub fn is_st_reg(&self) -> (r: bool)
        ensures
            r == self.spec_is_st_reg(),
    {
        self.opcode() & CLASS_MASK == BPF_STX
    }

    /// Whether the instruction belongs to the jump class.
    pub fn is_branch(&self) -> (r: bool)
        ensures
            r == self.spec_is_branch(),
    {
        self.opcode() & CLASS_MASK == BPF_JMP
    }

    /// Whether the instruction belongs to an arithmetic class.
    pub fn is_alu(&self) -> (r: bool)
        ensures
            r == self.spec_is_alu(),
    {
        let class = self.opcode() & CLASS_MASK;
        class == BPF_ALU || class == BPF_ALU64
    }

    /// Whether the instruction has an 8-bit operand width.
    pub fn is_8bit(&self) -> (r: bool)
        ensures
            r == self.spec_is_8bit(),
    {
        self.opcode() & SIZE_MASK == BPF_B
    }

    /// Whether the instruction has a 16-bit operand width.
    pub fn is_16bit(&self) -> (r: bool)
        ensures
            r == self.spec_is_16bit(),
    {
        self.opcode() & SIZE_MASK == BPF_H
    }

    /// Whether the instruction has a 32-bit operand width.
    pub fn is_32bit(&self) -> (r: bool)
        ensures
            r == self.spec_is_32bit(),
    {
        self.opcode() & SIZE_MASK == BPF_W
    }

    /// Whether the instruction has a 64-bit operand width.
    pub fn is_64bit(&self) -> (r: bool)
        ensures
            r == self.spec_is_64bit(),
    {
        self.opcode() & SIZE_MASK == BPF_DW
    }

    /// Whether the instruction produces a constant.
    pub fn is_const(&self) -> (r: bool)
        ensures
            r == self.spec_is_const(),
    {
        (self.is_ld_immediate() || self.is_alu()) && self.opcode() & SRC_MASK == 0
    }
}

/// Classification totality modulo errors: an opcode byte either decodes to
/// exactly one recognized instruction, whose opcode is that same byte, or
/// it decodes to nothing at all.
pub proof fn lemma_classification_total(n: u8)
    ensures
        spec_classifiable(n) ==> (spec_from_u8(n) matches Some(i) && spec_opcode(i) == n),
        !spec_classifiable(n) ==> spec_from_u8(n) is None,
        forall|i: EbpfInstruction| spec_from_u8(n) == Some(i) ==> n == spec_opcode(i),
{
}

/// Every instruction is recognized under its own opcode byte: decoding the
/// byte that encodes an instruction gives back that same instruction.
pub proof fn lemma_opcode_roundtrip(i: EbpfInstruction)
    ensures
        spec_from_u8(spec_opcode(i)) == Some(i),
{
}

/// Width predicate exclusivity: a load/store instruction has exactly one
/// of the four operand widths.
pub proof fn lemma_width_exclusive(i: EbpfInstruction)
    requires
        i.spec_is_load_store(),
    ensures
        i.spec_is_8bit() || i.spec_is_16bit() || i.spec_is_32bit() || i.spec_is_64bit(),
        i.spec_is_8bit() ==> !i.spec_is_16bit() && !i.spec_is_32bit() && !i.spec_is_64bit(),
        i.spec_is_16bit() ==> !i.spec_is_8bit() && !i.spec_is_32bit() && !i.spec_is_64bit(),
        i.spec_is_32bit() ==> !i.spec_is_8bit() && !i.spec_is_16bit() && !i.spec_is_64bit(),
        i.spec_is_64bit() ==> !i.spec_is_8bit() && !i.spec_is_16bit() && !i.spec_is_32bit(),
{
    let x = spec_opcode(i);
    assert(x & 0x18 == 0x00 || x & 0x18 == 0x08 || x & 0x18 == 0x10 || x & 0x18 == 0x18)
        by (bit_vector);
}

} // verus!
