//! The task-state layout that gives the double-fault handler a stack of its
//! own.

use vstd::prelude::*;

verus! {

/// Slot of the interrupt stack table reserved for the double-fault handler.
pub const DOUBLE_FAULT_IST_INDEX: u16 = 0;

/// Number of slots in the interrupt stack table.
pub const IST_SLOTS: usize = 7;

/// Size in bytes of the dedicated fault stack.
pub const STACK_SIZE: u64 = 4096 * 5;

/// The interrupt stack table of the task-state segment: one stack-top
/// address per slot, zero where no stack is assigned.
pub struct TaskState {
    pub interrupt_stack_table: Vec<u64>,
}

impl TaskState {
    pub open spec fn wf(&self) -> bool {
        self.interrupt_stack_table@.len() == IST_SLOTS
    }
}

/// The top of the fault stack that starts at `stack_start`: stacks grow
/// downwards, so the handler starts at the region's end. `None` when that
/// end does not fit in an address.
pub fn stack_top(stack_start: u64) -> (r: Option<u64>)
    ensures
        stack_start + STACK_SIZE <= u64::MAX ==> r == Some((stack_start + STACK_SIZE) as u64),
        stack_start + STACK_SIZE > u64::MAX ==> r is None,
{
    stack_start.checked_add(STACK_SIZE)
}

/// A task state whose double-fault slot holds the top of the fault stack at
/// `stack_start`, every other slot empty; `None` when that top does not fit
/// in an address.
pub fn build_task_state(stack_start: u64) -> (r: Option<TaskState>)
    ensures
        stack_start + STACK_SIZE > u64::MAX <==> r is None,
        r matches Some(t) ==> {
            &&& t.wf()
            &&& t.interrupt_stack_table@[DOUBLE_FAULT_IST_INDEX as int] == stack_start + STACK_SIZE
            &&& forall|i: int|
                0 <= i < IST_SLOTS && i != DOUBLE_FAULT_IST_INDEX ==> t.interrupt_stack_table@[i] == 0
        },
{
    match stack_top(stack_start) {
        None => None,
        Some(top) => {
            let mut table: Vec<u64> = Vec::new();
            let mut i: usize = 0;
            while i < IST_SLOTS
                invariant
                    i <= IST_SLOTS,
                    table@.len() == i,
                    forall|j: int| 0 <= j < i ==> table@[j] == 0,
                decreases IST_SLOTS - i,
            {
                table.push(0);
                i = i + 1;
            }
            table.set(DOUBLE_FAULT_IST_INDEX as usize, top);
            Some(TaskState { interrupt_stack_table: table })
        },
    }
}

} // verus!
