use bluepill::regs::{Event, Reg, RegisterBank};
use bluepill::system::{
    disable_jtag, system_clock_config, APB1_FREQUENCY, APB2_FREQUENCY, SYSCLK_FREQUENCY,
};

#[test]
fn clock_plan_frequencies() {
    assert_eq!(SYSCLK_FREQUENCY, 72_000_000);
    assert_eq!(APB2_FREQUENCY, 72_000_000);
    assert_eq!(APB1_FREQUENCY, 36_000_000);
}

#[test]
fn clock_config_final_register_state() {
    let mut bank = RegisterBank::new();
    system_clock_config(&mut bank);
    // Internal oscillator on (bit 0), external on (bit 16), PLL on (bit 24).
    assert_eq!(bank.rcc_cr, 1 | (1 << 16) | (1 << 24));
    // PLL source external (bit 16), multiplier field 7 (bits 21:18),
    // low-speed bus prescaler 4 (bits 10:8), system clock switch to PLL.
    assert_eq!(bank.rcc_cfgr, (1 << 16) | (7 << 18) | (4 << 8) | 2);
    // Two flash wait-states.
    assert_eq!(bank.flash_acr, 2);
}

#[test]
fn clock_config_waits_on_every_ready_flag() {
    let mut bank = RegisterBank::new();
    system_clock_config(&mut bank);
    let waits: Vec<(Reg, u32)> = bank
        .trace
        .iter()
        .filter_map(|e| match e {
            Event::Wait(r, m) => Some((*r, *m)),
            _ => None,
        })
        .collect();
    assert_eq!(
        waits,
        vec![
            (Reg::RccCr, 1 << 1),
            (Reg::RccCr, 1 << 17),
            (Reg::RccCr, 1 << 25),
            (Reg::RccCfgr, 2 << 2),
        ]
    );
}

#[test]
fn flash_wait_states_written_before_clock_switch() {
    let mut bank = RegisterBank::new();
    system_clock_config(&mut bank);
    let flash_write = bank
        .trace
        .iter()
        .position(|e| matches!(e, Event::Write(Reg::FlashAcr, _)))
        .expect("no flash wait-state write in the trace");
    let switch_write = bank
        .trace
        .iter()
        .position(|e| matches!(e, Event::Write(Reg::RccCfgr, v) if v & 3 == 2))
        .expect("no clock-switch write in the trace");
    assert!(flash_write < switch_write);
}

#[test]
fn disable_jtag_sets_the_remap_bit() {
    let mut bank = RegisterBank::new();
    disable_jtag(&mut bank);
    assert_eq!(bank.rcc_apb2enr, 1);
    assert_eq!(bank.afio_mapr, 1 << 26);
    assert_eq!(
        bank.trace,
        vec![
            Event::Write(Reg::RccApb2enr, 1),
            Event::Write(Reg::AfioMapr, 1 << 26),
        ]
    );
}
