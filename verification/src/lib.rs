//! Decoder and basic-block partitioner for a fixed-width eBPF-style
//! bytecode: raw bytes are decoded into instruction records, each record
//! is classified by its opcode byte, and the instruction sequence is
//! partitioned into basic-block groups at branch boundaries, held in a
//! graph holder that every contained instruction can reference back to.

pub mod decode;
pub mod graph;
pub mod isa;
