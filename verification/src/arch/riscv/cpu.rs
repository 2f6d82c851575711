//! CPU control on RISC-V, where IPIs and shutdown are calls into the
//! firmware.

use vstd::prelude::*;

use crate::init_state::InitState;

verus! {

/// A call into the supervisor firmware.
#[derive(Clone, Copy, Debug, PartialEq, Eq, Structural)]
pub enum SbiCall {
    /// Send an IPI to every hart whose bit is set in `hart_mask`.
    SendIpi { hart_mask: usize },
    /// Shut the system down.
    Shutdown,
}

/// The mask in which the bit of hart `cpu_id` is set and no other.
pub open spec fn hart_mask_of(cpu_id: usize) -> usize {
    1usize << cpu_id
}

/// In `hart_mask_of(cpu_id)` the bit of `cpu_id` is set and no other.
pub proof fn lemma_hart_mask_has_one_bit(cpu_id: usize, bit: usize)
    by (bit_vector)
    requires
        cpu_id < usize::BITS,
        bit < usize::BITS,
    ensures
        ((hart_mask_of(cpu_id) >> bit) & 1 == 1) <==> bit == cpu_id,
{
}

/// Bring-up of the calling hart. Nothing is to be done on the hardware: the
/// hart's identifier is set in a step of its own, before anything reads it.
/// It runs once; with `state` already `Initialized` the caller has to stop
/// for good.
pub fn init(state: &mut InitState)
    requires
        old(state).may_begin(),
    ensures
        *final(state) == old(state).begun(),
{
    state.begin();
}

/// The firmware call that signals hart `cpu_id`: an IPI to the mask that
/// holds this hart alone.
pub fn send_ipi(cpu_id: usize) -> (call: SbiCall)
    requires
        cpu_id < usize::BITS,
    ensures
        call == (SbiCall::SendIpi { hart_mask: hart_mask_of(cpu_id) }),
{
    SbiCall::SendIpi { hart_mask: 1usize << cpu_id }
}

/// The firmware call that ends the emulator. The firmware takes no status,
/// so every exit code ends in the same shutdown. Nothing may run on this
/// hart once the call is made.
pub fn exit_in_qemu(_error_code: u8) -> (call: SbiCall)
    ensures
        call == SbiCall::Shutdown,
{
    SbiCall::Shutdown
}

/// The firmware call that takes the machine down. Nothing may run on this
/// hart once the call is made.
pub fn reboot() -> (call: SbiCall)
    ensures
        call == SbiCall::Shutdown,
{
    SbiCall::Shutdown
}

} // verus!
