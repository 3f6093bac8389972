//! Meta-instructions, the basic-block partitioner and the graph holder.
//!
//! A meta-instruction wraps one decoded instruction record with its
//! derived classification, its position in the program, and a
//! back-reference handle to the graph holder that contains it. The graph
//! holder owns the flat ordered list of meta-instructions and its
//! partition into basic-block groups, split inclusively at branch
//! instructions. The back-reference is an identity handle into the
//! holder, filled in by a second pass once the holder exists, so that a
//! contained instruction can find its container without a reference
//! cycle.

use vstd::prelude::*;
use crate::decode::DecodeError;
use crate::decode::Insn;
use crate::isa::EbpfInstruction;
use crate::isa::spec_classifiable;
use crate::isa::spec_from_u8;

verus! {

/// Holds one decoded instruction record along with the other information
/// derived about it: its classification, its position, and the
/// back-reference to the graph holder that contains it.
#[derive(Clone, Copy, Debug)]
pub struct MetaInst {
    /// The underlying decoded instruction record.
    pub base: Insn,
    /// The classified instruction the opcode byte decodes to.
    pub instr: EbpfInstruction,
    /// Zero-based position of this instruction in the program, assigned at
    /// wrapping time and immutable thereafter.
    pub pos: usize,
    /// Back-reference: the identity handle of the containing graph holder,
    /// or `None` while no holder has been assigned.
    pub part_of: Option<u64>,
}

impl PartialEq for MetaInst {
    /// Two meta-instructions are equal when they wrap the same record at
    /// the same position; the back-reference does not take part.
    fn eq(&self, other: &Self) -> (r: bool) {
        self.base == other.base && self.instr == other.instr && self.pos == other.pos
    }
}

impl vstd::std_specs::cmp::PartialEqSpecImpl for MetaInst {
    open spec fn obeys_eq_spec() -> bool {
        true
    }

    open spec fn eq_spec(&self, other: &Self) -> bool {
        self.base == other.base && self.instr == other.instr && self.pos == other.pos
    }
}

/// One meta-instruction of the list `metas` wraps the corresponding
/// element of the record sequence `ins`: same record, stored
/// classification derived from its opcode byte, position equal to its
/// index, and the given back-reference.
pub open spec fn spec_wraps_at(
    metas: Seq<MetaInst>,
    ins: Seq<Insn>,
    part_of: Option<u64>,
    j: int,
) -> bool {
    &&& metas[j].base == ins[j]
    &&& spec_from_u8(ins[j].opc) == Some(metas[j].instr)
    &&& metas[j].pos == j
    &&& metas[j].part_of == part_of
}

/// The meta-instruction list wraps the record sequence element by element,
/// in order, with the given back-reference everywhere.
pub open spec fn spec_wraps(metas: Seq<MetaInst>, ins: Seq<Insn>, part_of: Option<u64>) -> bool {
    &&& metas.len() == ins.len()
    &&& forall|j: int| 0 <= j < metas.len() ==> #[trigger] spec_wraps_at(metas, ins, part_of, j)
}

impl MetaInst {
    /// Wraps each decoded record of a program in a meta-instruction, in
    /// order, with its position and no back-reference yet (the holder does
    /// not exist at this point). Succeeds exactly when every opcode byte
    /// is recognized; otherwise fails with the first unrecognized byte and
    /// no partial result.
    pub fn new_vec(ins: &[Insn]) -> (r: Result<Vec<MetaInst>, DecodeError>)
        ensures
            match r {
                Ok(v) => spec_wraps(v@, ins@, None),
                Err(e) => exists|j: int|
                    {
                        &&& 0 <= j < ins@.len()
                        &&& !spec_classifiable(#[trigger] ins@[j].opc)
                        &&& forall|k: int| 0 <= k < j ==> spec_classifiable(#[trigger] ins@[k].opc)
                        &&& e == DecodeError::UnknownOpcodeError(ins@[j].opc)
                    },
            },
            r is Ok <==> (forall|j: int|
                0 <= j < ins@.len() ==> spec_classifiable(#[trigger] ins@[j].opc)),
    {
        let mut v: Vec<MetaInst> = Vec::new();
        let mut i: usize = 0;
        while i < ins.len()
            invariant
                i <= ins@.len(),
                v@.len() == i,
                forall|j: int| 0 <= j < i ==> #[trigger] spec_wraps_at(v@, ins@, None, j),
                forall|j: int| 0 <= j < i ==> spec_classifiable(#[trigger] ins@[j].opc),
            decreases ins@.len() - i,
        {
            let insn = ins[i];
            match EbpfInstruction::from(&insn) {
                Some(instr) => {
                    let ghost v0 = v@;
                    v.push(MetaInst { base: insn, instr, pos: i, part_of: None });
                    proof {
                        assert forall|j: int| 0 <= j < i + 1 implies spec_wraps_at(
                            v@,
                            ins@,
                            None,
                            j,
                        ) by {
                            if j < i {
                                assert(spec_wraps_at(v0, ins@, None, j));
                            }
                        }
                    }
                },
                None => {
                    return Err(DecodeError::UnknownOpcodeError(insn.opc));
                },
            }
            i += 1;
        }
        Ok(v)
    }

    /// Writes the back-reference, leaving every other field unchanged.
    pub fn set_part_of(&mut self, to: Option<u64>)
        ensures
            final(self).base == old(self).base,
            final(self).instr == old(self).instr,
            final(self).pos == old(self).pos,
            final(self).part_of == to,
    {
        self.part_of = to;
    }

    /// Resolves the back-reference: the identity handle of the containing
    /// graph holder, or `None` when none has been assigned.
    pub fn get_graph(&self) -> (r: Option<u64>)
        ensures
            r == self.part_of,
    {
        self.part_of
    }
}

/// The concatenation of a sequence of groups, in order.
pub open spec fn spec_concat(gs: Seq<Seq<MetaInst>>) -> Seq<MetaInst>
    decreases gs.len(),
{
    if gs.len() == 0 {
        Seq::empty()
    } else {
        spec_concat(gs.drop_last()) + gs.last()
    }
}

/// The sequence of views of a vector of groups.
pub open spec fn spec_views(gs: Seq<Vec<MetaInst>>) -> Seq<Seq<MetaInst>> {
    gs.map_values(|g: Vec<MetaInst>| g@)
}

/// Appending one group to the sequence appends its contents to the
/// concatenation.
pub proof fn lemma_concat_push(gs: Seq<Seq<MetaInst>>, g: Seq<MetaInst>)
    ensures
        spec_concat(gs.push(g)) == spec_concat(gs) + g,
{
    assert(gs.push(g).drop_last() =~= gs);
    assert(gs.push(g).last() == g);
}

/// Every element of a group occurs in the concatenation.
pub proof fn lemma_concat_contains(gs: Seq<Seq<MetaInst>>, j: int, k: int)
    requires
        0 <= j < gs.len(),
        0 <= k < gs[j].len(),
    ensures
        spec_concat(gs).contains(gs[j][k]),
    decreases gs.len(),
{
    if j == gs.len() - 1 {
        assert(spec_concat(gs)[spec_concat(gs.drop_last()).len() + k] == gs[j][k]);
    } else {
        lemma_concat_contains(gs.drop_last(), j, k);
        let elem = gs[j][k];
        let i = choose|i: int|
            0 <= i < spec_concat(gs.drop_last()).len() && spec_concat(gs.drop_last())[i] == elem;
        assert(spec_concat(gs)[i] == gs[j][k]);
    }
}

/// The groups are exactly the flat sequence split inclusively at branch
/// instructions: concatenated in order they reproduce it; no group is
/// empty; within a group only the final instruction may be a branch; and
/// every group except possibly the last ends with a branch.
pub open spec fn spec_partitioned(groups: Seq<Seq<MetaInst>>, metas: Seq<MetaInst>) -> bool {
    &&& spec_concat(groups) == metas
    &&& forall|j: int| 0 <= j < groups.len() ==> (#[trigger] groups[j]).len() > 0
    &&& forall|j: int|
        0 <= j < groups.len() - 1 ==> (#[trigger] groups[j]).last().instr.spec_is_branch()
    &&& forall|j: int, k: int|
        0 <= j < groups.len() && 0 <= k < groups[j].len() - 1 ==> !(#[trigger] groups[j][k]
        ).instr.spec_is_branch()
}

/// Partitions a meta-instruction sequence into basic-block groups,
/// scanning left to right and closing the current group immediately after
/// every branch instruction; a trailing group of non-branch instructions
/// is emitted even though it ends in no branch. An empty input yields an
/// empty group list.
pub fn split_at_branches(metas: &Vec<MetaInst>) -> (groups: Vec<Vec<MetaInst>>)
    ensures
        spec_partitioned(spec_views(groups@), metas@),
{
    let mut groups: Vec<Vec<MetaInst>> = Vec::new();
    let mut pending: Vec<MetaInst> = Vec::new();
    let mut i: usize = 0;
    while i < metas.len()
        invariant
            i <= metas@.len(),
            spec_concat(spec_views(groups@)) + pending@ == metas@.take(i as int),
            forall|j: int| 0 <= j < groups@.len() ==> (#[trigger] spec_views(groups@)[j]).len() > 0,
            forall|j: int|
                0 <= j < groups@.len() ==> (#[trigger] spec_views(
                    groups@,
                )[j]).last().instr.spec_is_branch(),
            forall|j: int, k: int|
                0 <= j < groups@.len() && 0 <= k < spec_views(groups@)[j].len() - 1 ==> !(
                #[trigger] spec_views(groups@)[j][k]).instr.spec_is_branch(),
            forall|k: int| 0 <= k < pending@.len() ==> !(#[trigger] pending@[k]).instr.spec_is_branch(),
        decreases metas@.len() - i,
    {
        let m = metas[i];
        let is_b = m.instr.is_branch();
        pending.push(m);
        proof {
            assert(metas@.take(i + 1) =~= metas@.take(i as int).push(m));
            assert(spec_concat(spec_views(groups@)) + pending@ =~= metas@.take(i + 1));
        }
        if is_b {
            let ghost old_groups = groups@;
            let ghost closed = pending@;
            groups.push(pending);
            pending = Vec::new();
            proof {
                assert(spec_views(groups@) =~= spec_views(old_groups).push(closed));
                lemma_concat_push(spec_views(old_groups), closed);
                assert(spec_concat(spec_views(groups@)) + pending@ =~= metas@.take(i + 1));
            }
        }
        i += 1;
    }
    if pending.len() > 0 {
        let ghost old_groups = groups@;
        let ghost closed = pending@;
        groups.push(pending);
        proof {
            assert(spec_views(groups@) =~= spec_views(old_groups).push(closed));
            lemma_concat_push(spec_views(old_groups), closed);
        }
    }
    proof {
        assert(metas@.take(metas@.len() as int) =~= metas@);
        assert(spec_concat(spec_views(groups@)) =~= metas@);
    }
    groups
}

/// Owns the flat ordered list of meta-instructions of one decoded program
/// and the partition of that list into basic-block groups. Constructed
/// once per program; after construction every contained meta-instruction
/// carries a back-reference that resolves to this holder's handle.
#[derive(Clone, Debug)]
pub struct GraphHolder {
    /// Identity handle of this holder, supplied by the caller at
    /// construction; back-references resolve to it.
    pub id: u64,
    /// The flat ordered list of meta-instructions.
    pub instructions: Vec<MetaInst>,
    /// The basic-block partition of the flat list.
    pub groups: Vec<Vec<MetaInst>>,
}

impl GraphHolder {
    /// The instruction at index `k` of the flat list belongs to this
    /// holder: its position is its index and its back-reference is this
    /// holder's handle.
    pub open spec fn spec_owns_at(self, k: int) -> bool {
        &&& self.instructions@[k].pos == k
        &&& self.instructions@[k].part_of == Some(self.id)
        &&& spec_from_u8(self.instructions@[k].base.opc) == Some(self.instructions@[k].instr)
    }

    /// Well-formedness: the groups partition the flat list at branch
    /// boundaries, and every instruction of the flat list carries its
    /// position and this holder's handle.
    pub open spec fn wf(self) -> bool {
        &&& spec_partitioned(spec_views(self.groups@), self.instructions@)
        &&& forall|k: int| 0 <= k < self.instructions@.len() ==> #[trigger] self.spec_owns_at(k)
    }

    /// Builds a holder for a decoded program: wraps each record in a
    /// meta-instruction, partitions the sequence at branch boundaries, and
    /// assigns this holder's identity handle as the back-reference of
    /// every instruction. `id` is the handle that identifies the new
    /// holder; the caller chooses it fresh. Succeeds exactly when every
    /// opcode byte is recognized; otherwise fails with the first
    /// unrecognized byte and no partial result.
    pub fn new(ins: &[Insn], id: u64) -> (r: Result<GraphHolder, DecodeError>)
        ensures
            match r {
                Ok(h) => {
                    &&& h.id == id
                    &&& h.wf()
                    &&& spec_wraps(h.instructions@, ins@, Some(id))
                },
                Err(e) => exists|j: int|
                    {
                        &&& 0 <= j < ins@.len()
                        &&& !spec_classifiable(#[trigger] ins@[j].opc)
                        &&& forall|k: int| 0 <= k < j ==> spec_classifiable(#[trigger] ins@[k].opc)
                        &&& e == DecodeError::UnknownOpcodeError(ins@[j].opc)
                    },
            },
            r is Ok <==> (forall|j: int|
                0 <= j < ins@.len() ==> spec_classifiable(#[trigger] ins@[j].opc)),
    {
        let mut metas = match MetaInst::new_vec(ins) {
            Ok(v) => v,
            Err(e) => {
                return Err(e);
            },
        };
        let mut k: usize = 0;
        while k < metas.len()
            invariant
                metas@.len() == ins@.len(),
                k <= metas@.len(),
                forall|j: int| 0 <= j < k ==> #[trigger] spec_wraps_at(metas@, ins@, Some(id), j),
                forall|j: int|
                    k <= j < metas@.len() ==> #[trigger] spec_wraps_at(metas@, ins@, None, j),
            decreases metas@.len() - k,
        {
            let ghost m0 = metas@;
            metas[k].set_part_of(Some(id));
            proof {
                assert forall|j: int| 0 <= j < k + 1 implies spec_wraps_at(
                    metas@,
                    ins@,
                    Some(id),
                    j,
                ) by {
                    if j < k {
                        assert(spec_wraps_at(m0, ins@, Some(id), j));
                    } else {
                        assert(spec_wraps_at(m0, ins@, None, j));
                    }
                }
                assert forall|j: int| k + 1 <= j < metas@.len() implies spec_wraps_at(
                    metas@,
                    ins@,
                    None,
                    j,
                ) by {
                    assert(spec_wraps_at(m0, ins@, None, j));
                }
            }
            k += 1;
        }
        let groups = split_at_branches(&metas);
        let h = GraphHolder { id, instructions: metas, groups };
        proof {
            assert forall|j: int| 0 <= j < h.instructions@.len() implies h.spec_owns_at(j) by {
                assert(spec_wraps_at(h.instructions@, ins@, Some(id), j));
            }
        }
        Ok(h)
    }
}

impl EbpfInstruction {
    /// Builds the basic-block partition of a decoded program in one step:
    /// wraps each record in a meta-instruction with no back-reference (no
    /// holder is constructed here) and splits the sequence inclusively at
    /// branch instructions. Succeeds exactly when every opcode byte is
    /// recognized; otherwise fails with the first unrecognized byte.
    pub fn build_graph(ins: &[Insn]) -> (r: Result<Vec<Vec<MetaInst>>, DecodeError>)
        ensures
            match r {
                Ok(gs) => {
                    &&& spec_wraps(spec_concat(spec_views(gs@)), ins@, None)
                    &&& spec_partitioned(spec_views(gs@), spec_concat(spec_views(gs@)))
                },
                Err(e) => exists|j: int|
                    {
                        &&& 0 <= j < ins@.len()
                        &&& !spec_classifiable(#[trigger] ins@[j].opc)
                        &&& forall|k: int| 0 <= k < j ==> spec_classifiable(#[trigger] ins@[k].opc)
                        &&& e == DecodeError::UnknownOpcodeError(ins@[j].opc)
                    },
            },
            r is Ok <==> (forall|j: int|
                0 <= j < ins@.len() ==> spec_classifiable(#[trigger] ins@[j].opc)),
    {
        let metas = match MetaInst::new_vec(ins) {
            Ok(v) => v,
            Err(e) => {
                return Err(e);
            },
        };
        let groups = split_at_branches(&metas);
        Ok(groups)
    }
}

/// Round-trip of concatenation: concatenating all basic-block groups of a
/// well-formed holder, in order, reproduces its flat instruction sequence
/// exactly, for all programs including the empty one.
pub proof fn lemma_groups_concat_roundtrip(h: GraphHolder)
    requires
        h.wf(),
    ensures
        spec_concat(spec_views(h.groups@)) == h.instructions@,
{
}

/// Branch termination: in a well-formed holder, every group except
/// possibly the last is non-empty and ends with a branch instruction.
pub proof fn lemma_branch_termination(h: GraphHolder, j: int)
    requires
        h.wf(),
        0 <= j < h.groups@.len() - 1,
    ensures
        h.groups@[j]@.len() > 0,
        h.groups@[j]@.last().instr.spec_is_branch(),
{
    assert(spec_views(h.groups@)[j] == h.groups@[j]@);
}

/// Back-reference consistency, flat view: every instruction of the flat
/// list of a well-formed holder sits at its own position and carries a
/// back-reference that resolves to that same holder's handle.
pub proof fn lemma_back_reference_flat(h: GraphHolder, k: int)
    requires
        h.wf(),
        0 <= k < h.instructions@.len(),
    ensures
        h.instructions@[k].pos == k,
        h.instructions@[k].part_of == Some(h.id),
{
    assert(h.spec_owns_at(k));
}

/// Back-reference consistency, group view: every instruction of every
/// basic-block group of a well-formed holder carries a back-reference
/// that resolves to that same holder's handle.
pub proof fn lemma_back_reference_groups(h: GraphHolder, j: int, k: int)
    requires
        h.wf(),
        0 <= j < h.groups@.len(),
        0 <= k < h.groups@[j]@.len(),
    ensures
        h.groups@[j]@[k].part_of == Some(h.id),
{
    assert(spec_views(h.groups@)[j] == h.groups@[j]@);
    lemma_concat_contains(spec_views(h.groups@), j, k);
    let m = h.groups@[j]@[k];
    let i = choose|i: int|
        0 <= i < h.instructions@.len() && h.instructions@[i] == m;
    assert(h.spec_owns_at(i));
}

/// Pairs one meta-instruction with the structural query surface over its
/// classification, for consumers that inspect instruction semantics.
#[derive(Clone, PartialEq, Debug)]
pub struct InstAction {
    /// The wrapped meta-instruction.
    pub inst: MetaInst,
}

impl InstAction {
    /// Wraps the given meta-instruction.
    pub fn new(inst: &MetaInst) -> (r: InstAction)
        ensures
            r.inst == *inst,
    {
        InstAction { inst: *inst }
    }

    /// Whether the wrapped instruction has an 8-bit operand width.
    pub fn is_8bit(&self) -> (r: bool)
        ensures
            r == self.inst.instr.spec_is_8bit(),
    {
        self.inst.instr.is_8bit()
    }

    /// Whether the wrapped instruction has a 16-bit operand width.
    pub fn is_16bit(&self) -> (r: bool)
        ensures
            r == self.inst.instr.spec_is_16bit(),
    {
        self.inst.instr.is_16bit()
    }

    /// Whether the wrapped instruction has a 32-bit operand width.
    pub fn is_32bit(&self) -> (r: bool)
        ensures
            r == self.inst.instr.spec_is_32bit(),
    {
        self.inst.instr.is_32bit()
    }

    /// Whether the wrapped instruction has a 64-bit operand width.
    pub fn is_64bit(&self) -> (r: bool)
        ensures
            r == self.inst.instr.spec_is_64bit(),
    {
        self.inst.instr.is_64bit()
    }

    /// Whether the wrapped instruction produces a constant.
    pub fn is_const(&self) -> (r: bool)
        ensures
            r == self.inst.instr.spec_is_const(),
    {
        self.inst.instr.is_const()
    }
}

} // verus!
