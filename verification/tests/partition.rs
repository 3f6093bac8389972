use ebpf_blocks::decode::to_insr_vec;
use ebpf_blocks::decode::DecodeError;
use ebpf_blocks::decode::Insn;
use ebpf_blocks::graph::split_at_branches;
use ebpf_blocks::graph::GraphHolder;
use ebpf_blocks::graph::InstAction;
use ebpf_blocks::graph::MetaInst;
use ebpf_blocks::isa::EbpfInstruction;

// The demo program: mov32 r0, 0; mov32 r1, 2; add32 r0, 4; add32 r0, r1;
// exit. Only the final `exit` is branch-classified.
fn demo() -> Vec<u8> {
    vec![
        0xb4, 0x00, 0x00, 0x00, 0x00, 0x00, 0x00, 0x00, // mov32 r0, 0
        0xb4, 0x01, 0x00, 0x00, 0x02, 0x00, 0x00, 0x00, // mov32 r1, 2
        0x04, 0x00, 0x00, 0x00, 0x04, 0x00, 0x00, 0x00, // add32 r0, 4
        0x0c, 0x10, 0x00, 0x00, 0x00, 0x00, 0x00, 0x00, // add32 r0, r1
        0x95, 0x00, 0x00, 0x00, 0x00, 0x00, 0x00, 0x00, // exit
    ]
}

fn insn(opc: u8) -> Insn {
    Insn { opc, dst: 0, src: 0, off: 0, imm: 0 }
}

#[test]
fn decode_demo_program() {
    let ins = to_insr_vec(&demo()).unwrap();
    assert_eq!(ins.len(), 5);
    assert_eq!(ins[0], Insn { opc: 0xb4, dst: 0, src: 0, off: 0, imm: 0 });
    assert_eq!(ins[1], Insn { opc: 0xb4, dst: 1, src: 0, off: 0, imm: 2 });
    assert_eq!(ins[2], Insn { opc: 0x04, dst: 0, src: 0, off: 0, imm: 4 });
    assert_eq!(ins[3], Insn { opc: 0x0c, dst: 0, src: 1, off: 0, imm: 0 });
    assert_eq!(ins[4], Insn { opc: 0x95, dst: 0, src: 0, off: 0, imm: 0 });
}

#[test]
fn decode_signed_fields() {
    // jeq r1, -2, -1: offset bytes 0xffff are -1, immediate bytes
    // 0xfffffffe are -2, both little-endian two's complement.
    let buf = [0x15, 0x21, 0xff, 0xff, 0xfe, 0xff, 0xff, 0xff];
    let ins = to_insr_vec(&buf).unwrap();
    assert_eq!(ins.len(), 1);
    assert_eq!(ins[0].opc, 0x15);
    assert_eq!(ins[0].dst, 1);
    assert_eq!(ins[0].src, 2);
    assert_eq!(ins[0].off, -1);
    assert_eq!(ins[0].imm, -2);
}

#[test]
fn decode_empty_buffer() {
    // An empty buffer is a valid degenerate program: zero instructions
    // and zero groups, not an error.
    let ins = to_insr_vec(&[]).unwrap();
    assert_eq!(ins.len(), 0);
    let holder = GraphHolder::new(&ins, 7).unwrap();
    assert_eq!(holder.instructions.len(), 0);
    assert_eq!(holder.groups.len(), 0);
}

#[test]
fn decode_bad_length_is_format_error() {
    let buf = [0xb4, 0x00, 0x00, 0x00, 0x00, 0x00, 0x00];
    assert_eq!(to_insr_vec(&buf), Err(DecodeError::FormatError));
    assert_eq!(to_insr_vec(&demo()[..33]), Err(DecodeError::FormatError));
}

#[test]
fn demo_is_one_group_with_const_pattern() {
    let ins = to_insr_vec(&demo()).unwrap();
    let holder = GraphHolder::new(&ins, 1).unwrap();
    assert_eq!(holder.instructions.len(), 5);
    assert_eq!(holder.groups.len(), 1);
    assert_eq!(holder.groups[0].len(), 5);
    let consts: Vec<bool> = holder.groups[0]
        .iter()
        .map(|m| InstAction::new(m).is_const())
        .collect();
    assert_eq!(consts, vec![true, true, true, false, false]);
    assert!(InstAction::new(&holder.groups[0][4]).inst.instr.is_branch());
}

#[test]
fn unknown_opcode_aborts_wrapping() {
    let ins = vec![insn(0xb4), insn(0x00), insn(0x95)];
    assert_eq!(
        MetaInst::new_vec(&ins),
        Err(DecodeError::UnknownOpcodeError(0x00))
    );
    assert!(matches!(
        GraphHolder::new(&ins, 1),
        Err(DecodeError::UnknownOpcodeError(0x00))
    ));
    assert!(matches!(
        EbpfInstruction::build_graph(&ins),
        Err(DecodeError::UnknownOpcodeError(0x00))
    ));
}

#[test]
fn groups_split_inclusively_at_branches() {
    // mov32; jeq; add32; exit; mov32 -- three groups, the trailing one
    // not ending in a branch.
    let ins = vec![insn(0xb4), insn(0x15), insn(0x04), insn(0x95), insn(0xb4)];
    let holder = GraphHolder::new(&ins, 3).unwrap();
    assert_eq!(holder.groups.len(), 3);
    assert_eq!(holder.groups[0].len(), 2);
    assert_eq!(holder.groups[1].len(), 2);
    assert_eq!(holder.groups[2].len(), 1);
    // Branch termination: every group but the last ends with a branch.
    for g in &holder.groups[..holder.groups.len() - 1] {
        assert!(g.last().unwrap().instr.is_branch());
    }
    assert!(!holder.groups[2].last().unwrap().instr.is_branch());
}

#[test]
fn groups_concatenate_to_flat_list() {
    let ins = vec![insn(0xb4), insn(0x15), insn(0x04), insn(0x95), insn(0xb4)];
    let holder = GraphHolder::new(&ins, 9).unwrap();
    let flat: Vec<MetaInst> = holder.groups.iter().flatten().cloned().collect();
    assert_eq!(flat.len(), holder.instructions.len());
    for (a, b) in flat.iter().zip(holder.instructions.iter()) {
        assert_eq!(a, b);
        assert_eq!(a.pos, b.pos);
    }
}

#[test]
fn back_references_resolve_to_holder() {
    let ins = to_insr_vec(&demo()).unwrap();
    let holder = GraphHolder::new(&ins, 42).unwrap();
    for (k, m) in holder.instructions.iter().enumerate() {
        assert_eq!(m.get_graph(), Some(42));
        assert_eq!(m.pos, k);
    }
    for g in &holder.groups {
        for m in g {
            assert_eq!(m.get_graph(), Some(42));
        }
    }
}

#[test]
fn set_part_of_overwrites() {
    let mut m = MetaInst {
        base: insn(0xb4),
        instr: EbpfInstruction::MOV32_IMM,
        pos: 0,
        part_of: None,
    };
    assert_eq!(m.get_graph(), None);
    m.set_part_of(Some(1));
    assert_eq!(m.get_graph(), Some(1));
    m.set_part_of(Some(2));
    assert_eq!(m.get_graph(), Some(2));
    m.set_part_of(None);
    assert_eq!(m.get_graph(), None);
}

#[test]
fn meta_equality_ignores_back_reference() {
    let a = MetaInst {
        base: insn(0x95),
        instr: EbpfInstruction::EXIT,
        pos: 4,
        part_of: Some(1),
    };
    let b = MetaInst { part_of: Some(2), ..a };
    assert_eq!(a, b);
    let c = MetaInst { pos: 5, ..a };
    assert_ne!(a, c);
}

#[test]
fn split_without_holder() {
    let ins = vec![insn(0xb4), insn(0x95), insn(0x04)];
    let metas = MetaInst::new_vec(&ins).unwrap();
    let groups = split_at_branches(&metas);
    assert_eq!(groups.len(), 2);
    assert_eq!(groups[0].len(), 2);
    assert_eq!(groups[1].len(), 1);
    // No holder was constructed, so no back-reference is assigned.
    for g in &groups {
        for m in g {
            assert_eq!(m.get_graph(), None);
        }
    }
}

#[test]
fn inst_action_forwards_queries() {
    // ld_b_reg / ld_h_reg / ld_w_reg / ld_dw_reg under their real opcodes.
    let widths = [(0x71u8, 0), (0x69, 1), (0x61, 2), (0x79, 3)];
    for (opc, which) in widths {
        let metas = MetaInst::new_vec(&[insn(opc)]).unwrap();
        let action = InstAction::new(&metas[0]);
        assert_eq!(action.inst, metas[0]);
        let answers = [
            action.is_8bit(),
            action.is_16bit(),
            action.is_32bit(),
            action.is_64bit(),
        ];
        for (k, a) in answers.iter().enumerate() {
            assert_eq!(*a, k == which, "opcode {opc:#04x}");
        }
        assert!(!action.is_const());
    }
}

#[test]
fn build_graph_returns_partition() {
    let ins = to_insr_vec(&demo()).unwrap();
    let groups = EbpfInstruction::build_graph(&ins).unwrap();
    assert_eq!(groups.len(), 1);
    assert_eq!(groups[0].len(), 5);
    assert_eq!(groups[0][0].pos, 0);
    assert_eq!(groups[0][4].pos, 4);
}
