use cpu_hal::arch::riscv::cpu::{exit_in_qemu, init, reboot, send_ipi, SbiCall};
use cpu_hal::init_state::InitState;

#[test]
fn ipi_mask_holds_the_target_alone() {
    assert_eq!(send_ipi(0), SbiCall::SendIpi { hart_mask: 1 });
    assert_eq!(send_ipi(1), SbiCall::SendIpi { hart_mask: 2 });
    assert_eq!(send_ipi(5), SbiCall::SendIpi { hart_mask: 32 });
}

#[test]
fn ipi_mask_for_the_last_hart() {
    let last = (usize::BITS - 1) as usize;
    assert_eq!(send_ipi(last), SbiCall::SendIpi { hart_mask: 1 << last });
}

#[test]
fn ipi_mask_has_one_bit_for_every_hart() {
    for hart in 0..(usize::BITS as usize) {
        match send_ipi(hart) {
            SbiCall::SendIpi { hart_mask } => {
                assert_eq!(hart_mask.count_ones(), 1);
                assert_eq!(hart_mask.trailing_zeros() as usize, hart);
            }
            other => panic!("an IPI was expected, not {:?}", other),
        }
    }
}

#[test]
fn every_exit_code_shuts_down() {
    assert_eq!(exit_in_qemu(0), SbiCall::Shutdown);
    assert_eq!(exit_in_qemu(1), SbiCall::Shutdown);
    assert_eq!(exit_in_qemu(2), SbiCall::Shutdown);
    assert_eq!(exit_in_qemu(255), SbiCall::Shutdown);
}

#[test]
fn riscv_reboot_shuts_down() {
    assert_eq!(reboot(), SbiCall::Shutdown);
}

#[test]
fn riscv_init_cannot_run_twice() {
    let mut state = InitState::new();
    init(&mut state);
    assert!(state.is_initialized());
}
