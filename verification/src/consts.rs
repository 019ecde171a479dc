//! Fixed addresses, sizes and names shared between the tracer and its tracees.
use vstd::prelude::*;

verus! {

pub const SYSTRACE_TRACEE_PRELOAD: &'static str = "SYSTRACE_TRACEE_PRELOAD";

pub const SYSTRACE_ENV_TOOL_LOG_KEY: &'static str = "TOOL_LOG";

pub const SYSCALL_INSN_SIZE: usize = 2;
pub const SYSCALL_INSN_MASK: u64 = 0xffff;
pub const SYSCALL_INSN: u64 = 0x050f;

pub const SYSTRACE_PRIVATE_PAGE_OFFSET: u64 = 0x7000_0000;
pub const SYSTRACE_PRIVATE_PAGE_SIZE: u64 = 0x4000;

pub const SYSTRACE_GLOBAL_STATE_FILE: &'static str = "systrace";
pub const SYSTRACE_GLOBAL_STATE_ADDR: u64 = 0x7020_0000;
pub const SYSTRACE_GLOBAL_STATE_SIZE: u64 = 0x1000;
pub const SYSTRACE_GLOBAL_STATE_FD: i32 = 1023;

/// Width in bytes of one slot of the thread-local area (the size of a `u64`).
pub const TLS_SLOT_SIZE: u64 = 8;

pub const SYSTRACE_LOCAL_BASE: u64 = SYSTRACE_PRIVATE_PAGE_OFFSET + 0x1000;

pub const SYSTRACE_LOCAL_SYSCALL_HOOK_SIZE: u64 = SYSTRACE_LOCAL_BASE + 0x0;
pub const SYSTRACE_LOCAL_SYSCALL_HOOK_ADDR: u64 = SYSTRACE_LOCAL_SYSCALL_HOOK_SIZE + TLS_SLOT_SIZE;

pub const SYSTRACE_LOCAL_STUB_SCRATCH: u64 = SYSTRACE_LOCAL_SYSCALL_HOOK_ADDR + TLS_SLOT_SIZE;
pub const SYSTRACE_LOCAL_STACK_NESTING_LEVEL: u64 = SYSTRACE_LOCAL_STUB_SCRATCH + TLS_SLOT_SIZE;

pub const SYSTRACE_LOCAL_SYSCALL_TRAMPOLINE: u64 = SYSTRACE_LOCAL_STACK_NESTING_LEVEL
    + TLS_SLOT_SIZE;
pub const SYSTRACE_LOCAL_SYSTOOL_HOOK: u64 = SYSTRACE_LOCAL_SYSCALL_TRAMPOLINE + TLS_SLOT_SIZE;
pub const SYSTRACE_LOCAL_SYSCALL_PATCH_LOCK: u64 = SYSTRACE_LOCAL_SYSTOOL_HOOK + TLS_SLOT_SIZE;

pub const SYSTRACE_LOCAL_SYSTOOL_LOG_LEVEL: u64 = SYSTRACE_LOCAL_SYSCALL_PATCH_LOCK + TLS_SLOT_SIZE;

pub const SYSTRACE_LOCAL_SYSTRACE_LOCAL_STATE: u64 = SYSTRACE_LOCAL_SYSTOOL_LOG_LEVEL
    + TLS_SLOT_SIZE;

pub const SYSTRACE_LOCAL_SYSCALL_HELPER: u64 = SYSTRACE_LOCAL_SYSTRACE_LOCAL_STATE + TLS_SLOT_SIZE;

/// The slots of the thread-local area, in the order in which they are laid out.
pub open spec fn local_slots() -> Seq<u64> {
    seq![
        SYSTRACE_LOCAL_SYSCALL_HOOK_SIZE,
        SYSTRACE_LOCAL_SYSCALL_HOOK_ADDR,
        SYSTRACE_LOCAL_STUB_SCRATCH,
        SYSTRACE_LOCAL_STACK_NESTING_LEVEL,
        SYSTRACE_LOCAL_SYSCALL_TRAMPOLINE,
        SYSTRACE_LOCAL_SYSTOOL_HOOK,
        SYSTRACE_LOCAL_SYSCALL_PATCH_LOCK,
        SYSTRACE_LOCAL_SYSTOOL_LOG_LEVEL,
        SYSTRACE_LOCAL_SYSTRACE_LOCAL_STATE,
        SYSTRACE_LOCAL_SYSCALL_HELPER,
    ]
}

/// The thread-local area is a packed array of `u64` slots: slot `i` lies
/// `8 * i` bytes past `SYSTRACE_LOCAL_BASE`, so no two slots overlap, and every
/// slot lies wholly inside the tracer's private pages, clear of the global
/// state page.
pub proof fn lemma_local_slots_layout()
    ensures
        SYSTRACE_LOCAL_BASE == 0x7000_1000,
        local_slots().len() == 10,
        forall|i: int|
            0 <= i < local_slots().len() ==> #[trigger] local_slots()[i] == SYSTRACE_LOCAL_BASE
                + 8 * i,
        forall|i: int|
            0 <= i < local_slots().len() ==> {
                &&& SYSTRACE_PRIVATE_PAGE_OFFSET <= #[trigger] local_slots()[i]
                &&& local_slots()[i] + 8 <= SYSTRACE_PRIVATE_PAGE_OFFSET
                    + SYSTRACE_PRIVATE_PAGE_SIZE
                &&& local_slots()[i] + 8 <= SYSTRACE_GLOBAL_STATE_ADDR
            },
{
    assert(local_slots().len() == 10);
}

} // verus!
