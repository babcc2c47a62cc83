//! The event table: an append-only, strictly ordered record of every executed
//! instruction, with global sequence-id allocation and conversion to the
//! verifier-facing record format.

use vstd::prelude::*;

use crate::itable::IEntry;
use crate::itable::Opcode;
use crate::mtable::MemoryReadSize;
use crate::mtable::MemoryStoreSize;
use crate::mtable::VarType;
use crate::step::StepInfo;
use crate::value::ValueInternal;
use crate::value::ValueType;
use crate::DEFAULT_VALUE_STACK_LIMIT;

verus! {

/// Operand and context state captured immediately before an instruction's
/// effect is applied, one variant per instruction class. Each variant holds
/// the minimum pre-image state that cannot be recomputed from the opcode and
/// the post-state alone.
pub enum RunInstructionTracePre {
    BrIfEqz {
        value: i32,
    },
    BrIfNez {
        value: i32,
    },
    BrTable {
        index: i32,
    },
    Call {
        args: Vec<ValueInternal>,
    },
    CallIndirect {
        table_idx: u32,
        type_idx: u32,
        offset: u32,
    },
    SetLocal {
        depth: u32,
        value: ValueInternal,
        vtype: ValueType,
    },
    SetGlobal {
        idx: u32,
        value: ValueInternal,
    },
    Load {
        offset: u32,
        raw_address: u32,
        /// Resolved address; `None` exactly when the access is out of bounds.
        effective_address: Option<u32>,
        vtype: ValueType,
        load_size: MemoryReadSize,
        mmid: u64,
    },
    Store {
        offset: u32,
        raw_address: u32,
        /// Resolved address; `None` exactly when the access is out of bounds.
        effective_address: Option<u32>,
        value: u64,
        vtype: ValueType,
        store_size: MemoryStoreSize,
        mmid: u64,
        /// First pre-existing word at the target location, present only when
        /// the store does not cleanly overwrite a whole aligned word.
        pre_block_value1: Option<u64>,
        /// Second pre-existing word, present only when a misaligned store
        /// spans two words.
        pre_block_value2: Option<u64>,
    },
    GrowMemory(i32),
    I32BinOp {
        left: i32,
        right: i32,
    },
    I32BinShiftOp {
        left: u64,
        right: u64,
    },
    I64BinOp {
        left: i64,
        right: i64,
    },
    I32Single(i32),
    I32Comp {
        left: i32,
        right: i32,
    },
    I64Comp {
        left: i64,
        right: i64,
    },
    I32WrapI64 {
        value: i64,
    },
    I64ExtendI32 {
        value: i32,
        sign: bool,
    },
    UnaryOp {
        operand: u64,
        vtype: VarType,
    },
    Drop,
    Select {
        val1: u64,
        val2: u64,
        cond: u64,
    },
}

/// The verifier-facing record of one executed instruction. Its stack field
/// holds the distance from the configured maximum stack depth rather than the
/// raw depth stored in the table.
#[derive(Clone, Copy, Debug, PartialEq, Eq, Structural)]
pub struct EventTableEntry {
    pub eid: u64,
    pub sp: u64,
    pub last_jump_eid: u64,
    pub inst: IEntry,
    pub step_info: StepInfo,
    pub allocated_memory_pages: usize,
}

/// One full trace record: sequence id, stack depth and memory size at entry
/// time, control-flow linkage, instruction identity and the finalized step
/// descriptor. Immutable after creation.
#[derive(Clone, Copy, Debug, PartialEq, Eq, Structural)]
pub struct EEntry {
    pub id: u64,
    pub sp: u64,
    pub memory_size: usize,
    pub last_jump_eid: u64,
    pub inst: IEntry,
    pub step: StepInfo,
}

impl EEntry {
    /// The verifier-facing form of this entry: same fields, with the raw
    /// stack depth replaced by its distance from the configured limit.
    pub open spec fn converted(self) -> EventTableEntry {
        EventTableEntry {
            eid: self.id,
            sp: (DEFAULT_VALUE_STACK_LIMIT - self.sp - 1) as u64,
            last_jump_eid: self.last_jump_eid,
            inst: self.inst,
            step_info: self.step,
            allocated_memory_pages: self.memory_size,
        }
    }

    /// Converts this entry to the verifier-facing record. The transform is
    /// total only for depths below the configured limit; a stored depth at or
    /// beyond it signals broken interpreter bookkeeping, so such entries are
    /// excluded here and surfaced through `try_to_event_table_entry`.
    pub fn to_event_table_entry(&self) -> (r: EventTableEntry)
        requires
            self.sp < DEFAULT_VALUE_STACK_LIMIT,
        ensures
            r == self.converted(),
            r.sp == DEFAULT_VALUE_STACK_LIMIT - self.sp - 1,
    {
        EventTableEntry {
            eid: self.id,
            sp: (DEFAULT_VALUE_STACK_LIMIT as u64) - self.sp - 1,
            last_jump_eid: self.last_jump_eid,
            inst: self.inst,
            step_info: self.step,
            allocated_memory_pages: self.memory_size,
        }
    }

    /// Checked conversion: `None` exactly when the stored stack depth is at
    /// or beyond the configured limit, the fatal invariant breach that a
    /// caller must not let pass silently.
    pub fn try_to_event_table_entry(&self) -> (r: Option<EventTableEntry>)
        ensures
            self.sp < DEFAULT_VALUE_STACK_LIMIT ==> r == Some(self.converted()),
            self.sp >= DEFAULT_VALUE_STACK_LIMIT ==> r is None,
    {
        if self.sp < DEFAULT_VALUE_STACK_LIMIT as u64 {
            Some(self.to_event_table_entry())
        } else {
            None
        }
    }
}

/// The append-only trace table. It owns sequence-id allocation: the counter
/// starts at 1, id 0 is reserved to mean "no prior event" in the control-flow
/// linkage, and entries are never removed or reordered.
#[derive(Debug)]
pub struct ETable {
    eid: u64,
    entries: Vec<EEntry>,
}

impl View for ETable {
    type V = Seq<EEntry>;

    closed spec fn view(&self) -> Seq<EEntry> {
        self.entries@
    }
}

impl Default for ETable {
    /// A fresh, empty table whose next sequence id is 1.
    fn default() -> (t: Self)
        ensures
            t.wf(),
            t@ =~= Seq::<EEntry>::empty(),
    {
        Self { eid: 1, entries: Vec::new() }
    }
}

impl ETable {
    /// Well-formedness: the next sequence id is one past the number of stored
    /// entries, and the entry at position `i` carries id `i + 1`.
    pub closed spec fn wf(&self) -> bool {
        &&& self.eid == self@.len() + 1
        &&& forall|i: int| 0 <= i < self@.len() ==> #[trigger] self@[i].id == i + 1
    }

    /// Sequence id of the most recently appended entry. Undefined on an empty
    /// table: a sentinel id could be mistaken for a real event, so emptiness
    /// is excluded rather than signalled.
    pub fn get_latest_eid(&self) -> (eid: u64)
        requires
            self.wf(),
            self@.len() > 0,
        ensures
            eid == self@.len(),
            eid == self@.last().id,
    {
        self.entries[self.entries.len() - 1].id
    }

    /// Read-only view of all entries, in append order.
    pub fn get_entries(&self) -> (entries: &Vec<EEntry>)
        ensures
            entries@ == self@,
    {
        &self.entries
    }

    /// Hands out the next sequence id and advances the counter. Allocation is
    /// only ever paired with an append in `push`, so no allocated id can be
    /// observed without its entry.
    fn allocate_eid(&mut self) -> (r: u64)
        requires
            old(self).eid < u64::MAX,
        ensures
            r == old(self).eid,
            final(self).eid == old(self).eid + 1,
            final(self)@ == old(self)@,
    {
        let r: u64 = self.eid;
        self.eid = r + 1;
        return r;
    }

    /// Sole constructor of trace records: allocates the next sequence id,
    /// builds the instruction identity, appends the new entry, and returns a
    /// copy of it. Ids are strictly increasing by 1 and never reused.
    pub fn push(
        &mut self,
        module_instance_index: u16,
        func_index: u16,
        sp: u64,
        memory_size: usize,
        pc: u32,
        last_jump_eid: u64,
        opcode: Opcode,
        step: StepInfo,
    ) -> (entry: EEntry)
        requires
            old(self).wf(),
            old(self)@.len() + 1 < u64::MAX,
            pc <= u16::MAX,
        ensures
            final(self).wf(),
            final(self)@ =~= old(self)@.push(entry),
            entry.id == old(self)@.len() + 1,
            entry.sp == sp,
            entry.memory_size == memory_size,
            entry.last_jump_eid == last_jump_eid,
            entry.step == step,
            entry.inst == (IEntry {
                module_instance_index,
                func_index,
                pc: pc as u16,
                opcode,
            }),
            entry.inst.pc == pc,
    {
        let id: u64 = self.allocate_eid();
        let eentry = EEntry {
            id,
            sp,
            memory_size,
            last_jump_eid,
            inst: IEntry { module_instance_index, func_index, pc: pc as u16, opcode },
            step,
        };

        self.entries.push(eentry.clone());

        eentry
    }
}

/// Law of dense sequencing: in a well-formed table the sequence ids are
/// exactly 1, 2, …, N in append order — the entry at position `i` carries id
/// `i + 1`, so ids are strictly increasing with no gaps and no repeats.
pub proof fn lemma_sequence_ids_dense(t: &ETable)
    requires
        t.wf(),
    ensures
        forall|i: int| 0 <= i < t@.len() ==> #[trigger] t@[i].id == i + 1,
        forall|i: int, j: int| 0 <= i < j < t@.len() ==> #[trigger] t@[i].id < #[trigger] t@[j].id,
{
}

} // verus!
