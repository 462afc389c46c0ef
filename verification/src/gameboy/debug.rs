//! The trace of the instructions that ran last.

use std::collections::VecDeque;
use vstd::prelude::*;

use crate::gameboy::cpu::register::Register;

verus! {

/// The most records that a trace holds.
pub const RECORD_LIMIT: usize = 512;

/// A record of the trace: the registers before an instruction, its code,
/// and whether it is a prefixed one.
#[derive(Debug, Clone, Copy)]
pub struct CPUDebugInfo {
    pub reg: Register,
    pub opcode: u8,
    pub is_ext_opcode: bool,
}

impl CPUDebugInfo {
    /// Returns a record.
    pub fn new(reg: Register, opcode: u8, is_ext_opcode: bool) -> (r: Self)
        ensures
            r.reg == reg,
            r.opcode == opcode,
            r.is_ext_opcode == is_ext_opcode,
    {
        CPUDebugInfo { reg, opcode, is_ext_opcode }
    }
}

/// The trace after `record` is added: the oldest record leaves a trace that
/// is full.
pub open spec fn spec_inserted(trace: Seq<CPUDebugInfo>, record: CPUDebugInfo) -> Seq<
    CPUDebugInfo,
> {
    if trace.len() >= RECORD_LIMIT {
        trace.subrange(1, trace.len() as int).push(record)
    } else {
        trace.push(record)
    }
}

/// Adds `record` to the trace `trace`, which keeps the last 512 records.
pub fn insert_cpu_record(trace: &mut VecDeque<CPUDebugInfo>, record: CPUDebugInfo)
    ensures
        final(trace)@ == spec_inserted(old(trace)@, record),
{
    if trace.len() >= RECORD_LIMIT {
        trace.pop_front();
    }
    trace.push_back(record);
}

/// A trace that holds 512 records at most holds 512 at most after a record
/// is added, and the record added is its last.
pub proof fn lemma_trace_bounded(trace: Seq<CPUDebugInfo>, record: CPUDebugInfo)
    requires
        trace.len() <= RECORD_LIMIT,
    ensures
        spec_inserted(trace, record).len() <= RECORD_LIMIT,
        spec_inserted(trace, record).last() == record,
{
}

} // verus!
