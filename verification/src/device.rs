//! The machine's public interface and its memory trace.

use vstd::prelude::*;

verus! {

/// The address at which the machine's RAM begins.
pub const RAM_START_ADDRESS: u64 = 0x8000_0000;

/// How many memory operations one instruction performs: two register reads, one
/// register write and four RAM bytes.
pub const MEMORY_OPS_PER_INSTRUCTION: usize = 7;

/// Where the machine keeps its inputs and outputs, and how large they may be.
#[derive(Clone, Copy, Debug, PartialEq, Eq)]
pub struct MemoryLayout {
    pub max_input_size: u64,
    pub max_output_size: u64,
    pub ram_witness_offset: u64,
}

/// What an execution shows to the outside: its inputs, its outputs and whether it
/// panicked.
#[derive(Clone, Debug, PartialEq, Eq)]
pub struct JoltDevice {
    pub inputs: Vec<u8>,
    pub outputs: Vec<u8>,
    pub panic: bool,
    pub memory_layout: MemoryLayout,
}

impl JoltDevice {
    /// Inputs and outputs are no longer than the memory layout allows.
    pub open spec fn fits_layout(self) -> bool {
        &&& self.inputs@.len() <= self.memory_layout.max_input_size as usize
        &&& self.outputs@.len() <= self.memory_layout.max_output_size as usize
    }

    /// Whether inputs and outputs are no longer than the memory layout allows.
    pub fn check_layout(&self) -> (fits: bool)
        ensures
            fits == self.fits_layout(),
    {
        self.inputs.len() <= self.memory_layout.max_input_size as usize && self.outputs.len()
            <= self.memory_layout.max_output_size as usize
    }
}

/// The operations of an instruction that touches no memory: the third is the one
/// that writes a register, all others read.
pub open spec fn noop_row<Op>(noop_read: Op, noop_write: Op) -> Seq<Op> {
    seq![noop_read, noop_read, noop_write, noop_read, noop_read, noop_read, noop_read]
}

/// Row `i` of the trace that [`pad_memory_trace`] returns.
pub open spec fn padded_row<Op>(
    memory_trace: Seq<[Op; MEMORY_OPS_PER_INSTRUCTION]>,
    noop_read: Op,
    noop_write: Op,
    i: int,
) -> Seq<Op> {
    if i < memory_trace.len() {
        memory_trace[i]@
    } else {
        noop_row(noop_read, noop_write)
    }
}

/// Brings a memory trace to `padded_trace_length` rows: rows beyond that length are
/// cut off, and missing rows are filled with no-ops.
pub fn pad_memory_trace<Op: Copy>(
    memory_trace: Vec<[Op; MEMORY_OPS_PER_INSTRUCTION]>,
    padded_trace_length: usize,
    noop_read: Op,
    noop_write: Op,
) -> (padded: Vec<[Op; MEMORY_OPS_PER_INSTRUCTION]>)
    ensures
        padded@.len() == padded_trace_length,
        forall|i: int|
            0 <= i < padded_trace_length ==> (#[trigger] padded@[i])@ == padded_row(
                memory_trace@,
                noop_read,
                noop_write,
                i,
            ),
{
    let mut padded = memory_trace;
    padded.truncate(padded_trace_length);
    while padded.len() < padded_trace_length
        invariant
            padded@.len() <= padded_trace_length,
            padded_trace_length > memory_trace@.len() ==> padded@.len() >= memory_trace@.len(),
            padded_trace_length <= memory_trace@.len() ==> padded@.len() == padded_trace_length,
            forall|i: int|
                0 <= i < padded@.len() ==> (#[trigger] padded@[i])@ == padded_row(
                    memory_trace@,
                    noop_read,
                    noop_write,
                    i,
                ),
        decreases padded_trace_length - padded.len(),
    {
        let noop: [Op; MEMORY_OPS_PER_INSTRUCTION] = [
            noop_read,  // rs1
            noop_read,  // rs2
            noop_write,  // rd is write-only
            noop_read,  // RAM byte 1
            noop_read,  // RAM byte 2
            noop_read,  // RAM byte 3
            noop_read,  // RAM byte 4
        ];
        assert(noop@ =~= noop_row(noop_read, noop_write));
        padded.push(noop);
    }
    padded
}

} // verus!
