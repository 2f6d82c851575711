//! CPU control on x86_64: emulator exit, reset, core identity, IPIs and
//! bring-up, each as the port write or controller command that performs it.

use raw_cpuid::CpuId;
use vstd::prelude::*;
use x86_64::registers::control::{Cr0Flags, Cr4Flags};

use crate::init_state::InitState;

verus! {

/// Physical base of the local interrupt controller's registers.
pub const LOCAL_APIC_BASE: u64 = 0xFEE0_0000;

/// Vector that an inter-processor interrupt is delivered on.
pub const IPI_VECTOR: u8 = 0x30;

/// CR0: monitor coprocessor.
pub const CR0_MONITOR_COPROCESSOR: u64 = 0x2;

/// CR0: emulate coprocessor. While set, every x87 instruction traps.
pub const CR0_EMULATE_COPROCESSOR: u64 = 0x4;

/// CR4: the system saves and restores SSE state with FXSAVE and FXRSTOR.
pub const CR4_OSFXSR: u64 = 0x200;

/// CR4: the system handles SIMD floating-point exceptions.
pub const CR4_OSXMMEXCPT_ENABLE: u64 = 0x400;

/// Port of the emulator's clean-exit device.
pub const EXIT_SUCCESS_PORT: u16 = 0xB004;

/// Value that the clean-exit device takes as "shut down".
pub const EXIT_SUCCESS_VALUE: u16 = 0x2000;

/// Port of the emulator's debug-exit device.
pub const EXIT_FAILURE_PORT: u16 = 0x501;

/// Command port of the keyboard controller.
pub const RESET_PORT: u16 = 0x64;

/// Command that makes the keyboard controller pulse the reset line.
pub const RESET_COMMAND: u8 = 0xFE;

/// What goes out on an I/O port, with its width.
#[derive(Clone, Copy, Debug, PartialEq, Eq, Structural)]
pub enum PortValue {
    Byte(u8),
    Word(u16),
}

/// One write to an I/O port.
#[derive(Clone, Copy, Debug, PartialEq, Eq, Structural)]
pub struct PortWrite {
    pub port: u16,
    pub value: PortValue,
}

/// The exit codes that the emulator can report: zero, or any odd number.
/// The debug-exit device turns a byte `v` into the status `2 * v + 1`, so no
/// even status but the clean exit can be produced.
pub open spec fn valid_exit_code(code: u8) -> bool {
    code == 0 || code % 2 == 1
}

/// The port write that ends the emulator with status `code`.
pub open spec fn exit_write(code: u8) -> PortWrite {
    if code == 0 {
        PortWrite { port: EXIT_SUCCESS_PORT, value: PortValue::Word(EXIT_SUCCESS_VALUE) }
    } else {
        PortWrite { port: EXIT_FAILURE_PORT, value: PortValue::Byte(((code - 1) / 2) as u8) }
    }
}

/// Whether `code` is an exit code that `exit_in_qemu` accepts.
pub fn is_valid_exit_code(code: u8) -> (valid: bool)
    ensures
        valid == valid_exit_code(code),
{
    assert(code & 1 == code % 2) by (bit_vector);
    code == 0 || code & 1 == 1
}

/// The port write that makes the emulator exit with status `error_code`.
/// Nothing may run on this core once the write is out.
pub fn exit_in_qemu(error_code: u8) -> (write: PortWrite)
    requires
        valid_exit_code(error_code),
    ensures
        write == exit_write(error_code),
        error_code != 0 ==> (write.value matches PortValue::Byte(v) && 2 * v + 1 == error_code),
{
    if error_code == 0 {
        PortWrite { port: EXIT_SUCCESS_PORT, value: PortValue::Word(EXIT_SUCCESS_VALUE) }
    } else {
        PortWrite { port: EXIT_FAILURE_PORT, value: PortValue::Byte((error_code - 1) / 2) }
    }
}

/// The port write that resets the machine. Nothing may run on this core once
/// the write is out.
pub fn reboot() -> (write: PortWrite)
    ensures
        write == (PortWrite { port: RESET_PORT, value: PortValue::Byte(RESET_COMMAND) }),
{
    PortWrite { port: RESET_PORT, value: PortValue::Byte(RESET_COMMAND) }
}

/// The initial APIC id that CPUID reports for the core that runs the call,
/// through `raw_cpuid`: `CpuId::new().get_feature_info()`, then
/// `FeatureInfo::initial_local_apic_id`. `None` where the processor has no
/// feature leaf. Nothing is claimed of the value: it is the machine's.
#[verifier::external_body]
fn read_initial_apic_id() -> (apic_id: Option<u8>) {
    match CpuId::new().get_feature_info() {
        Some(info) => Some(info.initial_local_apic_id()),
        None => None,
    }
}

/// The core identifier that stands for a reading of the initial APIC id.
pub open spec fn core_id_of(apic_id: Option<u8>) -> Option<usize> {
    match apic_id {
        Some(raw) => Some(raw as usize),
        None => None,
    }
}

/// The identifier follows from the APIC id that was read and from nothing
/// else, and no two readings share one.
pub proof fn lemma_core_id_follows_reading(first: Option<u8>, second: Option<u8>)
    ensures
        first == second <==> core_id_of(first) == core_id_of(second),
{
}

/// Turns a reading of the initial APIC id into the core's identifier.
pub fn id_from_apic_id(apic_id: Option<u8>) -> (core: Option<usize>)
    ensures
        core == core_id_of(apic_id),
{
    match apic_id {
        Some(raw) => Some(raw as usize),
        None => None,
    }
}

/// The identifier of the calling core, read from the processor's feature
/// information; `None` where the processor reports none.
pub fn id() -> (core: Option<usize>)
    ensures
        core matches Some(v) ==> v <= u8::MAX,
{
    id_from_apic_id(read_initial_apic_id())
}

/// A command to the local interrupt controller: raise `vector` on the core
/// whose APIC id is `target`.
#[derive(Clone, Copy, Debug, PartialEq, Eq, Structural)]
pub struct IpiCommand {
    /// Physical base of the controller that takes the command.
    pub controller: u64,
    pub target: u8,
    pub vector: u8,
}

/// The command that signals core `cpu_id`. The controller addresses cores by
/// one byte, so only the low eight bits of `cpu_id` count.
pub open spec fn ipi_to(cpu_id: usize) -> IpiCommand {
    IpiCommand { controller: LOCAL_APIC_BASE, target: (cpu_id % 256) as u8, vector: IPI_VECTOR }
}

/// The controller command that signals core `cpu_id`.
pub fn send_ipi(cpu_id: usize) -> (command: IpiCommand)
    ensures
        command == ipi_to(cpu_id),
{
    assert(cpu_id as u8 == (cpu_id % 256) as u8) by (bit_vector);
    IpiCommand {
        controller: LOCAL_APIC_BASE,
        target: #[verifier::truncate] (cpu_id as u8),
        vector: IPI_VECTOR,
    }
}

/// An identifier that `id` hands out names, as the target of `send_ipi`, the
/// core whose APIC id was read.
pub proof fn lemma_ipi_reaches_identified_core(apic_id: u8)
    ensures
        core_id_of(Some(apic_id)) matches Some(core) && ipi_to(core).target == apic_id,
{
}

/// `Cr0Flags::MONITOR_COPROCESSOR` of the `x86_64` crate, as the bit it is
/// in the register.
#[verifier::external_body]
fn cr0_monitor_coprocessor() -> (flag: u64)
    ensures
        flag == CR0_MONITOR_COPROCESSOR,
{
    Cr0Flags::MONITOR_COPROCESSOR.bits()
}

/// `Cr0Flags::EMULATE_COPROCESSOR` of the `x86_64` crate, as the bit it is
/// in the register.
#[verifier::external_body]
fn cr0_emulate_coprocessor() -> (flag: u64)
    ensures
        flag == CR0_EMULATE_COPROCESSOR,
{
    Cr0Flags::EMULATE_COPROCESSOR.bits()
}

/// `Cr4Flags::OSFXSR` of the `x86_64` crate, as the bit it is in the
/// register.
#[verifier::external_body]
fn cr4_osfxsr() -> (flag: u64)
    ensures
        flag == CR4_OSFXSR,
{
    Cr4Flags::OSFXSR.bits()
}

/// `Cr4Flags::OSXMMEXCPT_ENABLE` of the `x86_64` crate, as the bit it is in
/// the register.
#[verifier::external_body]
fn cr4_osxmmexcpt_enable() -> (flag: u64)
    ensures
        flag == CR4_OSXMMEXCPT_ENABLE,
{
    Cr4Flags::OSXMMEXCPT_ENABLE.bits()
}

/// `Cr0Flags::insert`, on flag sets given as bits and kept whole
/// (`from_bits_retain`): the union of the two.
#[verifier::external_body]
fn cr0_insert(flags: u64, flag: u64) -> (updated: u64)
    ensures
        updated == flags | flag,
{
    let mut set = Cr0Flags::from_bits_retain(flags);
    set.insert(Cr0Flags::from_bits_retain(flag));
    set.bits()
}

/// `Cr0Flags::remove`, on flag sets given as bits and kept whole
/// (`from_bits_retain`): the first without the bits of the second.
#[verifier::external_body]
fn cr0_remove(flags: u64, flag: u64) -> (updated: u64)
    ensures
        updated == flags & !flag,
{
    let mut set = Cr0Flags::from_bits_retain(flags);
    set.remove(Cr0Flags::from_bits_retain(flag));
    set.bits()
}

/// `Cr4Flags::insert`, on flag sets given as bits and kept whole
/// (`from_bits_retain`): the union of the two.
#[verifier::external_body]
fn cr4_insert(flags: u64, flag: u64) -> (updated: u64)
    ensures
        updated == flags | flag,
{
    let mut set = Cr4Flags::from_bits_retain(flags);
    set.insert(Cr4Flags::from_bits_retain(flag));
    set.bits()
}

/// CR4 with SSE switched on: both SSE flags set, the rest as it was.
pub open spec fn fpu_cr4_of(cr4: u64) -> u64 {
    cr4 | CR4_OSFXSR | CR4_OSXMMEXCPT_ENABLE
}

/// CR0 with the x87 unit switched on: emulation cleared, monitoring set, the
/// rest as it was.
pub open spec fn fpu_cr0_of(cr0: u64) -> u64 {
    (cr0 & !CR0_EMULATE_COPROCESSOR) | CR0_MONITOR_COPROCESSOR
}

/// The CR4 update sets its two flags, leaves every other flag as it was, and
/// changes nothing when it runs again.
pub proof fn lemma_fpu_cr4_sets_two_flags(cr4: u64)
    by (bit_vector)
    ensures
        fpu_cr4_of(cr4) & CR4_OSFXSR == CR4_OSFXSR,
        fpu_cr4_of(cr4) & CR4_OSXMMEXCPT_ENABLE == CR4_OSXMMEXCPT_ENABLE,
        fpu_cr4_of(cr4) & !(CR4_OSFXSR | CR4_OSXMMEXCPT_ENABLE)
            == cr4 & !(CR4_OSFXSR | CR4_OSXMMEXCPT_ENABLE),
        fpu_cr4_of(fpu_cr4_of(cr4)) == fpu_cr4_of(cr4),
{
}

/// The CR0 update clears emulation, sets monitoring, leaves every other flag
/// as it was, and changes nothing when it runs again.
pub proof fn lemma_fpu_cr0_changes_two_flags(cr0: u64)
    by (bit_vector)
    ensures
        fpu_cr0_of(cr0) & CR0_EMULATE_COPROCESSOR == 0,
        fpu_cr0_of(cr0) & CR0_MONITOR_COPROCESSOR == CR0_MONITOR_COPROCESSOR,
        fpu_cr0_of(cr0) & !(CR0_EMULATE_COPROCESSOR | CR0_MONITOR_COPROCESSOR)
            == cr0 & !(CR0_EMULATE_COPROCESSOR | CR0_MONITOR_COPROCESSOR),
        fpu_cr0_of(fpu_cr0_of(cr0)) == fpu_cr0_of(cr0),
{
}

/// The CR4 flags that bring-up writes back, from those it read.
pub fn fpu_cr4(cr4: u64) -> (updated: u64)
    ensures
        updated == fpu_cr4_of(cr4),
{
    let with_fxsr = cr4_insert(cr4, cr4_osfxsr());
    cr4_insert(with_fxsr, cr4_osxmmexcpt_enable())
}

/// The CR0 flags that bring-up writes back, from those it read.
pub fn fpu_cr0(cr0: u64) -> (updated: u64)
    ensures
        updated == fpu_cr0_of(cr0),
{
    let without_emulation = cr0_remove(cr0, cr0_emulate_coprocessor());
    cr0_insert(without_emulation, cr0_monitor_coprocessor())
}

/// One step of bring-up.
#[derive(Clone, Copy, Debug, PartialEq, Eq, Structural)]
pub enum InitStep {
    /// Run the standard bring-up sequence of the local interrupt controller
    /// whose registers lie at this physical base.
    LocalApic { base: u64 },
    /// Read the CR4 flags and write back `fpu_cr4` of them.
    Cr4,
    /// Read the CR0 flags and write back `fpu_cr0` of them.
    Cr0,
}

/// The steps of bring-up, in the order in which they run.
pub open spec fn init_steps() -> Seq<InitStep> {
    seq![InitStep::LocalApic { base: LOCAL_APIC_BASE }, InitStep::Cr4, InitStep::Cr0]
}

/// Bring-up of the calling core: marks it as run and hands out its steps in
/// order. It runs once; with `state` already `Initialized` the caller has to
/// stop for good.
pub fn init(state: &mut InitState) -> (steps: [InitStep; 3])
    requires
        old(state).may_begin(),
    ensures
        *final(state) == old(state).begun(),
        steps@ == init_steps(),
{
    state.begin();
    [InitStep::LocalApic { base: LOCAL_APIC_BASE }, InitStep::Cr4, InitStep::Cr0]
}

} // verus!
