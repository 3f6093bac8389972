//! The instruction decoder: turns a flat byte buffer into the ordered
//! sequence of fixed-width instruction records it encodes. No semantic
//! validation happens here; an unrecognized opcode byte is preserved
//! verbatim and only surfaces as an error at classification time.

use vstd::prelude::*;

verus! {

/// Width in bytes of one encoded instruction.
pub const INSN_SIZE: usize = 8;

/// One decoded fixed-width instruction record: opcode byte, register
/// nibbles, signed 16-bit offset and signed 32-bit immediate. Immutable
/// once decoded.
#[derive(Clone, Copy, PartialEq, Eq, Structural, Debug)]
pub struct Insn {
    /// Opcode byte, selecting operation class and sub-kind.
    pub opc: u8,
    /// Destination register (low nibble of the register byte).
    pub dst: u8,
    /// Source register (high nibble of the register byte).
    pub src: u8,
    /// Signed 16-bit offset field, little-endian in the encoding.
    pub off: i16,
    /// Signed 32-bit immediate field, little-endian in the encoding.
    pub imm: i32,
}

/// The error kinds of the decoding and classification pipeline.
#[derive(Clone, Copy, PartialEq, Eq, Structural, Debug)]
pub enum DecodeError {
    /// The buffer length is not a multiple of the instruction width.
    FormatError,
    /// The carried opcode byte encodes no recognized instruction.
    UnknownOpcodeError(u8),
}

/// The value of a 16-bit two's-complement bit pattern, given as the
/// unsigned integer made of its bits.
pub open spec fn spec_as_signed16(n: int) -> int {
    if n < 0x8000 {
        n
    } else {
        n - 0x10000
    }
}

/// The value of a 32-bit two's-complement bit pattern, given as the
/// unsigned integer made of its bits.
pub open spec fn spec_as_signed32(n: int) -> int {
    if n < 0x8000_0000 {
        n
    } else {
        n - 0x1_0000_0000
    }
}

/// The instruction record encoded by one width-sized chunk of bytes:
/// opcode byte first, then the register nibbles, then the offset and the
/// immediate, both little-endian.
pub open spec fn spec_insn_of_bytes(b: Seq<u8>) -> Insn
    recommends
        b.len() == INSN_SIZE,
{
    Insn {
        opc: b[0],
        dst: b[1] & 0x0f,
        src: b[1] >> 4,
        off: spec_as_signed16(b[2] + 0x100 * b[3]) as i16,
        imm: spec_as_signed32(b[4] + 0x100 * b[5] + 0x1_0000 * b[6] + 0x100_0000 * b[7]) as i32,
    }
}

/// The instruction record encoded by the `i`-th width-sized chunk of the
/// buffer.
pub open spec fn spec_insn_at(prog: Seq<u8>, i: int) -> Insn
    recommends
        0 <= i,
        (INSN_SIZE as int) * (i + 1) <= prog.len(),
{
    spec_insn_of_bytes(prog.subrange((INSN_SIZE as int) * i, (INSN_SIZE as int) * (i + 1)))
}

/// The full instruction sequence encoded by the buffer, one record per
/// width-sized chunk, in buffer order.
pub open spec fn spec_decoded(prog: Seq<u8>) -> Seq<Insn>
    recommends
        (prog.len() as int) % (INSN_SIZE as int) == 0,
{
    Seq::new(((prog.len() as int) / (INSN_SIZE as int)) as nat, |i: int| spec_insn_at(prog, i))
}

/// Decodes a byte buffer into its instruction sequence. Succeeds exactly
/// when the buffer length is a multiple of the instruction width (an empty
/// buffer decodes to an empty sequence); otherwise fails with
/// `FormatError` and no partial result.
pub fn to_insr_vec(prog: &[u8]) -> (r: Result<Vec<Insn>, DecodeError>)
    ensures
        match r {
            Ok(v) => (prog@.len() as int) % (INSN_SIZE as int) == 0 && v@ == spec_decoded(prog@),
            Err(e) => (prog@.len() as int) % (INSN_SIZE as int) != 0 && e
                == DecodeError::FormatError,
        },
{
    let n = prog.len();
    if n % INSN_SIZE != 0 {
        return Err(DecodeError::FormatError);
    }
    let count = n / INSN_SIZE;
    let mut v: Vec<Insn> = Vec::new();
    let mut i: usize = 0;
    while i < count
        invariant
            n == prog@.len(),
            n % INSN_SIZE == 0,
            count == n / INSN_SIZE,
            i <= count,
            v@.len() == i,
            forall|j: int| 0 <= j < i ==> v@[j] == spec_insn_at(prog@, j),
        decreases count - i,
    {
        proof {
            assert((INSN_SIZE as int) * ((i + 1) as int) <= (INSN_SIZE as int) * (count as int));
            assert((INSN_SIZE as int) * (count as int) <= n);
        }
        let base = i * INSN_SIZE;
        let opc = prog[base];
        let regs = prog[base + 1];
        let lo = prog[base + 2] as u16;
        let hi = prog[base + 3] as u16;
        let off_bits: u16 = lo + hi * 0x100;
        let off32: i32 = if off_bits < 0x8000 {
            off_bits as i32
        } else {
            off_bits as i32 - 0x10000
        };
        let b4 = prog[base + 4] as u32;
        let b5 = prog[base + 5] as u32;
        let b6 = prog[base + 6] as u32;
        let b7 = prog[base + 7] as u32;
        let imm_bits: u32 = b4 + b5 * 0x100 + b6 * 0x1_0000 + b7 * 0x100_0000;
        let imm64: i64 = if imm_bits < 0x8000_0000 {
            imm_bits as i64
        } else {
            imm_bits as i64 - 0x1_0000_0000
        };
        let insn = Insn {
            opc,
            dst: regs & 0x0f,
            src: regs >> 4,
            off: off32 as i16,
            imm: imm64 as i32,
        };
        proof {
            assert(insn == spec_insn_at(prog@, i as int));
        }
        v.push(insn);
        i += 1;
    }
    proof {
        assert(v@ =~= spec_decoded(prog@));
    }
    Ok(v)
}

} // verus!
