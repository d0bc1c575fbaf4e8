//! Interrupt and exception core of a small bare-metal kernel: the text screen
//! model, the interrupt dispatch table, the interrupt controller layout, the
//! descriptor set with its dedicated fault stack, and the exit-status protocol.

pub mod gdt;
pub mod interrupts;
pub mod vga_buf;

use vstd::prelude::*;

use crate::gdt::{build_task_state, TaskState, DOUBLE_FAULT_IST_INDEX, STACK_SIZE};
use crate::interrupts::{
    breakpoint_action, init_idt, kernel_entry, remap, DispatchTable, HandlerKind, PicLayout,
    BREAKPOINT_VECTOR, DOUBLE_FAULT_VECTOR, IDT_ENTRIES, PIC_1_OFFSET, PIC_2_OFFSET,
};

verus! {

/// I/O port of the host's debug-exit device.
pub const EXIT_PORT: u16 = 0xf4;

/// The two outcomes a run reports to the host.
#[derive(Clone, Copy, Debug, PartialEq, Eq)]
pub enum QemuExitCode {
    Success,
    Failed,
}

impl QemuExitCode {
    /// The 4-byte value written to the exit port.
    pub open spec fn spec_port_value(self) -> u32 {
        match self {
            QemuExitCode::Success => 0x10,
            QemuExitCode::Failed => 0x11,
        }
    }

    pub fn port_value(self) -> (r: u32)
        ensures
            r == self.spec_port_value(),
    {
        match self {
            QemuExitCode::Success => 0x10,
            QemuExitCode::Failed => 0x11,
        }
    }

    /// The status with which the host ends the machine on this code.
    pub fn host_status(self) -> (r: u64)
        ensures
            r == spec_host_status(self.spec_port_value()),
            r == 2 * self.spec_port_value() + 1,
    {
        host_status(self.port_value())
    }
}

/// The host's exit status for a value written to the exit port: `(v << 1) | 1`.
pub open spec fn spec_host_status(v: u32) -> u64 {
    ((v as u64) << 1u64) | 1u64
}

/// Computes `(value << 1) | 1`, the status the host reports for `value`.
pub fn host_status(value: u32) -> (r: u64)
    ensures
        r == spec_host_status(value),
        r == 2 * value + 1,
{
    let v = value as u64;
    assert((v << 1u64) | 1u64 == 2 * v + 1) by (bit_vector)
        requires
            v < 0x1_0000_0000u64,
    ;
    (v << 1u64) | 1u64
}

/// The success and failure codes give two different exit statuses, both odd
/// and so both non-zero.
pub proof fn lemma_exit_statuses_distinct()
    ensures
        spec_host_status(QemuExitCode::Success.spec_port_value()) % 2 == 1,
        spec_host_status(QemuExitCode::Failed.spec_port_value()) % 2 == 1,
        spec_host_status(QemuExitCode::Success.spec_port_value()) != 0,
        spec_host_status(QemuExitCode::Failed.spec_port_value()) != 0,
        spec_host_status(QemuExitCode::Success.spec_port_value()) != spec_host_status(
            QemuExitCode::Failed.spec_port_value(),
        ),
{
    assert(((0x10u64 << 1u64) | 1u64) == 33) by (bit_vector);
    assert(((0x11u64 << 1u64) | 1u64) == 35) by (bit_vector);
}

/// A test case that the runner can run.
pub trait Testable {
    fn run(&self);
}

/// Runs every test in order; a failing test does not return. When all have
/// returned, the run has succeeded.
pub fn test_runner<T: Testable>(tests: &[T]) -> (r: QemuExitCode)
    ensures
        r == QemuExitCode::Success,
{
    let mut i: usize = 0;
    while i < tests.len()
        invariant
            i <= tests@.len(),
        decreases tests@.len() - i,
    {
        tests[i].run();
        i = i + 1;
    }
    QemuExitCode::Success
}

/// What the kernel installs at start-up, in this order: the task state with
/// the dedicated fault stack, the dispatch table, and the controller layout.
/// Interrupts are enabled only once all three are in place.
pub struct KernelTables {
    pub task_state: TaskState,
    pub idt: DispatchTable,
    pub pics: PicLayout,
}

impl KernelTables {
    /// The tables as `init` builds them for a fault stack at `stack_start`.
    pub open spec fn built_for(&self, stack_start: u64) -> bool {
        &&& self.task_state.wf()
        &&& self.task_state.interrupt_stack_table@[DOUBLE_FAULT_IST_INDEX as int] == stack_start
            + STACK_SIZE
        &&& forall|i: int|
            0 <= i < crate::gdt::IST_SLOTS && i != DOUBLE_FAULT_IST_INDEX
                ==> self.task_state.interrupt_stack_table@[i] == 0
        &&& self.idt.wf()
        &&& forall|v: int| 0 <= v < IDT_ENTRIES ==> #[trigger] self.idt.entries@[v] == kernel_entry(v)
        &&& self.pics == PicLayout { primary_offset: PIC_1_OFFSET, secondary_offset: PIC_2_OFFSET }
    }
}

/// Builds the kernel's tables for a fault stack that starts at
/// `stack_start`; `None` when the stack's end does not fit in an address.
pub fn init(stack_start: u64) -> (r: Option<KernelTables>)
    ensures
        stack_start + STACK_SIZE > u64::MAX <==> r is None,
        r matches Some(t) ==> t.built_for(stack_start),
{
    let task_state = match build_task_state(stack_start) {
        Some(t) => t,
        None => {
            return None;
        },
    };
    let idt = init_idt();
    let pics = match remap(PIC_1_OFFSET, PIC_2_OFFSET) {
        Ok(p) => p,
        Err(_) => {
            return None;
        },
    };
    Some(KernelTables { task_state, idt, pics })
}

/// After start-up the breakpoint trap runs the breakpoint handler, which
/// resumes the trapped code and acknowledges nothing: no exit signal comes
/// of it, and a test run that traps still ends with the success status.
pub proof fn lemma_breakpoint_keeps_running(t: KernelTables, stack_start: u64)
    requires
        t.built_for(stack_start),
    ensures
        t.idt.entries@[BREAKPOINT_VECTOR as int].handler == Some(HandlerKind::Breakpoint),
        breakpoint_action().resume,
        breakpoint_action().end_of_interrupt is None,
{
    assert(t.idt.entries@[BREAKPOINT_VECTOR as int] == kernel_entry(BREAKPOINT_VECTOR as int));
}

/// After start-up the double fault runs its handler on the dedicated fault
/// stack: its entry names the reserved slot, and that slot holds the top of
/// the fault stack, which is not the null address.
pub proof fn lemma_double_fault_on_own_stack(t: KernelTables, stack_start: u64)
    requires
        t.built_for(stack_start),
    ensures
        t.idt.entries@[DOUBLE_FAULT_VECTOR as int].handler == Some(HandlerKind::DoubleFault),
        t.idt.entries@[DOUBLE_FAULT_VECTOR as int].stack_index == Some(DOUBLE_FAULT_IST_INDEX),
        t.task_state.interrupt_stack_table@[DOUBLE_FAULT_IST_INDEX as int] == stack_start + STACK_SIZE,
        t.task_state.interrupt_stack_table@[DOUBLE_FAULT_IST_INDEX as int] > 0,
{
    assert(t.idt.entries@[DOUBLE_FAULT_VECTOR as int] == kernel_entry(DOUBLE_FAULT_VECTOR as int));
}

} // verus!
