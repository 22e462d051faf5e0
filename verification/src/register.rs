//! The register accessor: the per-context register that holds the base
//! address of the per-CPU area bound to the calling execution context.
//!
//! Which register plays that role is decided by the architecture and the
//! operating system, once and for all. The rest of the library reaches the
//! register through the trait `Impl`, so that a host can supply its own
//! binding storage.
use vstd::prelude::*;

verus! {

/// The primitives that bind an execution context to a per-CPU area.
pub trait Impl {
    /// The base address of the whole per-CPU region.
    spec fn spec_percpu_base(&self) -> usize;

    /// The address that the calling context is bound to.
    spec fn spec_cpu_local_ptr(&self) -> usize;

    /// Returns the base address of the whole per-CPU region.
    fn percpu_base(&self) -> (base: usize)
        ensures
            base == self.spec_percpu_base(),
    ;

    /// Binds the calling context to `ptr`. The base of the region stays.
    fn set_cpu_local_ptr(&mut self, ptr: usize)
        ensures
            final(self).spec_cpu_local_ptr() == ptr,
            final(self).spec_percpu_base() == old(self).spec_percpu_base(),
    ;

    /// Returns the address that the calling context is bound to.
    fn get_cpu_local_ptr(&self) -> (ptr: usize)
        ensures
            ptr == self.spec_cpu_local_ptr(),
    ;
}

/// The architectures on which a register is set aside for per-CPU data.
#[derive(Clone, Copy, Debug, PartialEq, Eq, Structural)]
pub enum Arch {
    X86_64,
    RiscV32,
    RiscV64,
    /// AArch64 running at exception level 1.
    AArch64,
    /// AArch64 running at exception level 2.
    AArch64El2,
    LoongArch64,
}

/// The operating system under which the code runs.
#[derive(Clone, Copy, Debug, PartialEq, Eq, Structural)]
pub enum Os {
    /// No operating system: the code runs on bare metal.
    Bare,
    Linux,
    Other,
}

/// The place that holds the base address of the current per-CPU area.
#[derive(Clone, Copy, Debug, PartialEq, Eq, Structural)]
pub enum Register {
    /// The model-specific register `IA32_GS_BASE`.
    GsBase,
    /// A variable kept by software where the operating system owns the
    /// `GS` base.
    GsShadow,
    /// The general-purpose register `gp`.
    Gp,
    /// The system register `TPIDR_EL1`.
    TpidrEl1,
    /// The system register `TPIDR_EL2`.
    TpidrEl2,
    /// The general-purpose register `$r21`.
    R21,
}

/// The register that holds the per-CPU base on `arch` under `os`, or `None`
/// where the combination is not supported.
pub open spec fn spec_percpu_register(arch: Arch, os: Os) -> Option<Register> {
    match arch {
        Arch::X86_64 => match os {
            Os::Linux => Some(Register::GsShadow),
            Os::Bare => Some(Register::GsBase),
            Os::Other => None,
        },
        Arch::RiscV32 => Some(Register::Gp),
        Arch::RiscV64 => Some(Register::Gp),
        Arch::AArch64 => Some(Register::TpidrEl1),
        Arch::AArch64El2 => Some(Register::TpidrEl2),
        Arch::LoongArch64 => Some(Register::R21),
    }
}

/// Returns the register that holds the per-CPU base on `arch` under `os`,
/// or `None` where the combination is not supported.
pub fn percpu_register(arch: Arch, os: Os) -> (register: Option<Register>)
    ensures
        register == spec_percpu_register(arch, os),
{
    match arch {
        Arch::X86_64 => match os {
            Os::Linux => Some(Register::GsShadow),
            Os::Bare => Some(Register::GsBase),
            Os::Other => None,
        },
        Arch::RiscV32 => Some(Register::Gp),
        Arch::RiscV64 => Some(Register::Gp),
        Arch::AArch64 => Some(Register::TpidrEl1),
        Arch::AArch64El2 => Some(Register::TpidrEl2),
        Arch::LoongArch64 => Some(Register::R21),
    }
}

/// The registers of one execution context, as far as per-CPU data uses
/// them: the hardware register and the copy of it that software keeps.
#[derive(Clone, Copy, Debug, PartialEq, Eq, Structural)]
pub struct RegisterFile {
    register: Register,
    hardware: usize,
    shadow: usize,
    base: usize,
}

impl RegisterFile {
    /// The register that holds the per-CPU base.
    pub closed spec fn spec_register(&self) -> Register {
        self.register
    }

    /// The value of the hardware register.
    pub closed spec fn spec_hardware(&self) -> usize {
        self.hardware
    }

    /// The value of the copy kept by software.
    pub closed spec fn spec_shadow(&self) -> usize {
        self.shadow
    }

    /// The base address of the whole per-CPU region.
    pub closed spec fn spec_base(&self) -> usize {
        self.base
    }

    /// The value that a read of the per-CPU register gives: the copy kept by
    /// software where the operating system owns the hardware register, the
    /// hardware register everywhere else.
    pub open spec fn spec_read(&self) -> usize {
        match self.spec_register() {
            Register::GsShadow => self.spec_shadow(),
            _ => self.spec_hardware(),
        }
    }

    /// Makes the registers of a context that is bound to nothing yet: every
    /// register holds zero.
    pub fn new(register: Register, base: usize) -> (regs: RegisterFile)
        ensures
            regs.spec_register() == register,
            regs.spec_base() == base,
            regs.spec_hardware() == 0,
            regs.spec_shadow() == 0,
    {
        RegisterFile { register, hardware: 0, shadow: 0, base }
    }

    /// Returns the register that holds the per-CPU base.
    pub fn register(&self) -> (register: Register)
        ensures
            register == self.spec_register(),
    {
        self.register
    }
}

/// Reads the architecture-specific per-CPU data register.
///
/// This register is used to hold the per-CPU data base on each CPU.
pub fn read_percpu_reg(regs: &RegisterFile) -> (tp: usize)
    ensures
        tp == regs.spec_read(),
{
    match regs.register {
        Register::GsShadow => regs.shadow,
        Register::GsBase => regs.hardware,
        Register::Gp => regs.hardware,
        Register::TpidrEl1 => regs.hardware,
        Register::TpidrEl2 => regs.hardware,
        Register::R21 => regs.hardware,
    }
}

/// Writes the architecture-specific per-CPU data register.
///
/// Where the operating system owns the hardware register only the copy
/// kept by software changes. On bare-metal x86-64 the copy follows the
/// hardware register; on the other architectures the copy is not used.
pub fn write_percpu_reg(regs: &mut RegisterFile, tp: usize)
    ensures
        final(regs).spec_read() == tp,
        final(regs).spec_register() == old(regs).spec_register(),
        final(regs).spec_base() == old(regs).spec_base(),
        final(regs).spec_hardware() == match old(regs).spec_register() {
            Register::GsShadow => old(regs).spec_hardware(),
            _ => tp,
        },
        final(regs).spec_shadow() == match old(regs).spec_register() {
            Register::GsShadow => tp,
            Register::GsBase => tp,
            _ => old(regs).spec_shadow(),
        },
{
    match regs.register {
        Register::GsShadow => {
            regs.shadow = tp;
        },
        Register::GsBase => {
            regs.hardware = tp;
            regs.shadow = tp;
        },
        Register::Gp => {
            regs.hardware = tp;
        },
        Register::TpidrEl1 => {
            regs.hardware = tp;
        },
        Register::TpidrEl2 => {
            regs.hardware = tp;
        },
        Register::R21 => {
            regs.hardware = tp;
        },
    }
}

impl Impl for RegisterFile {
    open spec fn spec_percpu_base(&self) -> usize {
        self.spec_base()
    }

    open spec fn spec_cpu_local_ptr(&self) -> usize {
        self.spec_read()
    }

    fn percpu_base(&self) -> (base: usize) {
        self.base
    }

    fn set_cpu_local_ptr(&mut self, ptr: usize) {
        write_percpu_reg(self, ptr);
    }

    fn get_cpu_local_ptr(&self) -> (ptr: usize) {
        read_percpu_reg(self)
    }
}

} // verus!
