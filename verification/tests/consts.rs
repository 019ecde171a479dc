use systrace::consts::{
    SYSCALL_INSN, SYSCALL_INSN_MASK, SYSTRACE_GLOBAL_STATE_ADDR, SYSTRACE_LOCAL_BASE,
    SYSTRACE_LOCAL_STACK_NESTING_LEVEL, SYSTRACE_LOCAL_STUB_SCRATCH, SYSTRACE_LOCAL_SYSCALL_HELPER,
    SYSTRACE_LOCAL_SYSCALL_HOOK_ADDR, SYSTRACE_LOCAL_SYSCALL_HOOK_SIZE,
    SYSTRACE_LOCAL_SYSCALL_PATCH_LOCK, SYSTRACE_LOCAL_SYSCALL_TRAMPOLINE,
    SYSTRACE_LOCAL_SYSTOOL_HOOK, SYSTRACE_LOCAL_SYSTOOL_LOG_LEVEL,
    SYSTRACE_LOCAL_SYSTRACE_LOCAL_STATE, SYSTRACE_PRIVATE_PAGE_OFFSET, SYSTRACE_PRIVATE_PAGE_SIZE,
    SYSTRACE_ENV_TOOL_LOG_KEY, SYSTRACE_GLOBAL_STATE_FILE, SYSTRACE_TRACEE_PRELOAD,
};

#[test]
fn det_tls_sanity_check() {
    assert_eq!(SYSTRACE_LOCAL_SYSCALL_HOOK_SIZE, SYSTRACE_LOCAL_BASE + 0);
    assert_eq!(SYSTRACE_LOCAL_SYSCALL_HOOK_ADDR, SYSTRACE_LOCAL_BASE + 8);
    assert_eq!(SYSTRACE_LOCAL_STUB_SCRATCH, SYSTRACE_LOCAL_BASE + 16);
    assert_eq!(SYSTRACE_LOCAL_STACK_NESTING_LEVEL, SYSTRACE_LOCAL_BASE + 24);
    assert_eq!(SYSTRACE_LOCAL_SYSCALL_TRAMPOLINE, SYSTRACE_LOCAL_BASE + 32);
    assert_eq!(SYSTRACE_LOCAL_SYSTOOL_HOOK, SYSTRACE_LOCAL_BASE + 40);
    assert_eq!(SYSTRACE_LOCAL_SYSCALL_PATCH_LOCK, SYSTRACE_LOCAL_BASE + 48);
    assert_eq!(SYSTRACE_LOCAL_SYSTOOL_LOG_LEVEL, SYSTRACE_LOCAL_BASE + 56);
    assert_eq!(SYSTRACE_LOCAL_SYSTRACE_LOCAL_STATE, SYSTRACE_LOCAL_BASE + 64);
    assert_eq!(SYSTRACE_LOCAL_SYSCALL_HELPER, SYSTRACE_LOCAL_BASE + 72);
}

#[test]
fn local_area_lies_in_private_pages() {
    assert_eq!(SYSTRACE_LOCAL_BASE, 0x7000_1000);
    assert!(SYSTRACE_LOCAL_BASE >= SYSTRACE_PRIVATE_PAGE_OFFSET);
    assert!(SYSTRACE_LOCAL_SYSCALL_HELPER + 8 <= SYSTRACE_PRIVATE_PAGE_OFFSET + SYSTRACE_PRIVATE_PAGE_SIZE);
    assert!(SYSTRACE_LOCAL_SYSCALL_HELPER + 8 <= SYSTRACE_GLOBAL_STATE_ADDR);
}

#[test]
fn syscall_instruction_matches_mask() {
    // `syscall` is the bytes 0f 05; read little-endian with what follows.
    let word: u64 = 0x1234_050f;
    assert_eq!(word & SYSCALL_INSN_MASK, SYSCALL_INSN);
}

#[test]
fn names() {
    assert_eq!(SYSTRACE_TRACEE_PRELOAD, "SYSTRACE_TRACEE_PRELOAD");
    assert_eq!(SYSTRACE_ENV_TOOL_LOG_KEY, "TOOL_LOG");
    assert_eq!(SYSTRACE_GLOBAL_STATE_FILE, "systrace");
}
