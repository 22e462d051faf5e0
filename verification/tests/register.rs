use percpu::percpu_register;
use percpu::read_percpu_reg;
use percpu::write_percpu_reg;
use percpu::Arch;
use percpu::Impl;
use percpu::Os;
use percpu::Register;
use percpu::RegisterFile;

#[test]
fn each_architecture_has_its_register() {
    assert_eq!(percpu_register(Arch::X86_64, Os::Bare), Some(Register::GsBase));
    assert_eq!(percpu_register(Arch::X86_64, Os::Linux), Some(Register::GsShadow));
    assert_eq!(percpu_register(Arch::RiscV32, Os::Bare), Some(Register::Gp));
    assert_eq!(percpu_register(Arch::RiscV64, Os::Linux), Some(Register::Gp));
    assert_eq!(percpu_register(Arch::RiscV64, Os::Other), Some(Register::Gp));
    assert_eq!(percpu_register(Arch::AArch64, Os::Bare), Some(Register::TpidrEl1));
    assert_eq!(percpu_register(Arch::AArch64El2, Os::Bare), Some(Register::TpidrEl2));
    assert_eq!(percpu_register(Arch::LoongArch64, Os::Bare), Some(Register::R21));
}

#[test]
fn x86_64_under_another_system_is_not_supported() {
    assert_eq!(percpu_register(Arch::X86_64, Os::Other), None);
}

#[test]
fn a_new_context_is_bound_to_nothing() {
    let regs = RegisterFile::new(Register::Gp, 0x8000);
    assert_eq!(regs.register(), Register::Gp);
    assert_eq!(read_percpu_reg(&regs), 0);
    assert_eq!(regs.percpu_base(), 0x8000);
    assert_eq!(regs.get_cpu_local_ptr(), 0);
}

#[test]
fn the_register_holds_what_was_written() {
    let all = [
        Register::GsBase,
        Register::GsShadow,
        Register::Gp,
        Register::TpidrEl1,
        Register::TpidrEl2,
        Register::R21,
    ];
    for register in all {
        let mut regs = RegisterFile::new(register, 0x8000);
        write_percpu_reg(&mut regs, 0x1234);
        assert_eq!(read_percpu_reg(&regs), 0x1234);
        write_percpu_reg(&mut regs, 0x5678);
        assert_eq!(read_percpu_reg(&regs), 0x5678);
        assert_eq!(regs.percpu_base(), 0x8000);
        assert_eq!(regs.register(), register);
    }
}

#[test]
fn the_capability_reaches_the_same_register() {
    let mut regs = RegisterFile::new(Register::GsShadow, 0x4000);
    regs.set_cpu_local_ptr(0x4040);
    assert_eq!(regs.get_cpu_local_ptr(), 0x4040);
    assert_eq!(read_percpu_reg(&regs), 0x4040);
    write_percpu_reg(&mut regs, 0x4080);
    assert_eq!(regs.get_cpu_local_ptr(), 0x4080);
}

#[test]
fn two_contexts_are_bound_apart() {
    let mut a = RegisterFile::new(Register::TpidrEl1, 0x4000);
    let mut b = RegisterFile::new(Register::TpidrEl1, 0x4000);
    write_percpu_reg(&mut a, 1);
    write_percpu_reg(&mut b, 2);
    assert_eq!(read_percpu_reg(&a), 1);
    assert_eq!(read_percpu_reg(&b), 2);
}
