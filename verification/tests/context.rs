use dlsm_greenthread::{Context, Register, CONTEXT_SIZE};

#[test]
fn field_offsets_match_assembly_constants() {
    let mock = Context::default();
    assert_eq!(mock.offset_of(Register::Rip), 0);
    assert_eq!(mock.offset_of(Register::Rsp), 8);
    assert_eq!(mock.offset_of(Register::Rbx), 16);
    assert_eq!(mock.offset_of(Register::Rbp), 24);
    assert_eq!(mock.offset_of(Register::R12), 32);
    assert_eq!(mock.offset_of(Register::R13), 40);
    assert_eq!(mock.offset_of(Register::R14), 48);
    assert_eq!(mock.offset_of(Register::R15), 56);
}

#[test]
fn context_is_eight_slots_of_eight_bytes() {
    assert_eq!(CONTEXT_SIZE, 64);
    assert_eq!(core::mem::size_of::<Context>(), CONTEXT_SIZE);
    assert_eq!(Register::R15.slot(), 7);
    assert_eq!(Register::Rip.slot(), 0);
}

#[test]
fn entry_context_points_below_stack_top() {
    let c = Context::for_entry(0x1000, 0x7000_0000, 0xabcd);
    assert_eq!(c.get(Register::Rip), 0x1000);
    assert_eq!(c.get(Register::Rsp), 0x7000_0000 - 8);
    assert_eq!(c.get(Register::Rsp) % 16, 8);
    assert_eq!(c.get(Register::R12), 0xabcd);
    assert_eq!(c.get(Register::Rbx), 0);
    assert_eq!(c.get(Register::R15), 0);
}

#[test]
fn set_changes_one_slot() {
    let mut c = Context::default();
    c.set(Register::R13, 77);
    assert_eq!(c.get(Register::R13), 77);
    assert_eq!(c.regs, [0, 0, 0, 0, 0, 77, 0, 0]);
}
