use vstd::prelude::*;
use crate::regs::{Event, Reg, RegisterBank};

verus! {

/// Frequency of the low-speed peripheral bus after clock configuration.
pub const APB1_FREQUENCY: u32 = 36000000;

/// Frequency of the high-speed peripheral bus after clock configuration.
pub const APB2_FREQUENCY: u32 = 72000000;

/// System clock frequency after clock configuration.
pub const SYSCLK_FREQUENCY: u32 = 72000000;

/// The whole trace of `system_clock_config`, given the register bank at
/// entry: internal oscillator on, external oscillator on, PLL source and
/// multiplier, PLL on, flash wait-states, bus prescaler, and finally the
/// switch of the system clock to the PLL — each enable followed by a wait
/// on its ready flag.
pub open spec fn clock_config_events(r: RegisterBank) -> Seq<Event> {
    let cr_hsi = r.rcc_cr | 1u32;
    let cr_hse = cr_hsi | 0x10000u32;
    let cr_pll = cr_hse | 0x1000000u32;
    let cfgr_src = r.rcc_cfgr | 0x10000u32;
    let cfgr_mul = cfgr_src | 0x1C0000u32;
    let cfgr_presc = cfgr_mul | 0x400u32;
    let cfgr_sw = cfgr_presc | 2u32;
    seq![
        Event::Write(Reg::RccCr, cr_hsi),
        Event::Wait(Reg::RccCr, 2),
        Event::Write(Reg::RccCr, cr_hse),
        Event::Wait(Reg::RccCr, 0x20000),
        Event::Write(Reg::RccCfgr, cfgr_src),
        Event::Write(Reg::RccCfgr, cfgr_mul),
        Event::Write(Reg::RccCr, cr_pll),
        Event::Wait(Reg::RccCr, 0x2000000),
        Event::Write(Reg::FlashAcr, r.flash_acr | 2),
        Event::Write(Reg::RccCfgr, cfgr_presc),
        Event::Write(Reg::RccCfgr, cfgr_sw),
        Event::Wait(Reg::RccCfgr, 8),
    ]
}

/// Whether an event writes the flash access-control register.
pub open spec fn is_flash_write(e: Event) -> bool {
    e matches Event::Write(Reg::FlashAcr, _)
}

/// Law: in the clock bring-up trace, the flash wait-state write stands
/// strictly before the write that selects the PLL as system clock source.
/// The only flash write is the ninth event; the clock-switch write is the
/// eleventh.
pub proof fn lemma_flash_latency_before_clock_switch(r: RegisterBank)
    ensures
        clock_config_events(r).len() == 12,
        is_flash_write(clock_config_events(r)[8]),
        clock_config_events(r)[8] == Event::Write(Reg::FlashAcr, r.flash_acr | 2),
        clock_config_events(r)[10] == Event::Write(
            Reg::RccCfgr,
            (((r.rcc_cfgr | 0x10000u32) | 0x1C0000) | 0x400) | 2,
        ),
        forall|i: int|
            0 <= i < clock_config_events(r).len() && i != 8 ==> !is_flash_write(
                clock_config_events(r)[i],
            ),
{
}

/// Drive the system clock from the internal oscillator to the 72 MHz
/// PLL-derived clock: an ordered sequence of register writes with a wait on
/// each ready flag, the flash wait-states raised before the clock switch is
/// committed.
pub fn system_clock_config(regs: &mut RegisterBank)
    ensures
        final(regs).reg_val(Reg::RccCr) == (((old(regs).reg_val(Reg::RccCr) | 1) | 0x10000)
            | 0x1000000),
        final(regs).reg_val(Reg::RccCfgr) == ((((old(regs).reg_val(Reg::RccCfgr) | 0x10000)
            | 0x1C0000) | 0x400) | 2),
        final(regs).reg_val(Reg::FlashAcr) == (old(regs).reg_val(Reg::FlashAcr) | 2),
        forall|r: Reg|
            r != Reg::RccCr && r != Reg::RccCfgr && r != Reg::FlashAcr ==> final(regs).reg_val(r)
                == old(regs).reg_val(r),
        final(regs).trace@ =~= old(regs).trace@ + clock_config_events(*old(regs)),
{
    // Enable the internal oscillator and wait for its ready flag (bit 1).
    regs.set_bits(Reg::RccCr, 1);
    regs.wait_mask(Reg::RccCr, 2);
    // Enable the external oscillator (bit 16); wait for ready (bit 17).
    regs.set_bits(Reg::RccCr, 0x10000);
    regs.wait_mask(Reg::RccCr, 0x20000);
    // Select the external oscillator as PLL entry source (bit 16).
    regs.set_bits(Reg::RccCfgr, 0x10000);
    // PLL multiplication factor 9 (field value 7 in bits 21:18).
    regs.set_bits(Reg::RccCfgr, 0x1C0000);
    // Enable the PLL (bit 24); wait for ready (bit 25).
    regs.set_bits(Reg::RccCr, 0x1000000);
    regs.wait_mask(Reg::RccCr, 0x2000000);
    // Two flash wait-states, required before running at 72 MHz.
    regs.set_bits(Reg::FlashAcr, 2);
    // Low-speed peripheral bus prescaler: divide by 2 (bits 10:8).
    regs.set_bits(Reg::RccCfgr, 0x400);
    // Select the PLL as system clock (bits 1:0); wait until the switch
    // status (bits 3:2) confirms it.
    regs.set_bits(Reg::RccCfgr, 2);
    regs.wait_mask(Reg::RccCfgr, 8);
}

/// Free the JTAG pins for GPIO use: enable the alternate-function
/// controller's clock gate, then set the disable bit in its remap register.
pub fn disable_jtag(regs: &mut RegisterBank)
    ensures
        final(regs).reg_val(Reg::RccApb2enr) == (old(regs).reg_val(Reg::RccApb2enr) | 1),
        final(regs).reg_val(Reg::AfioMapr) == (old(regs).reg_val(Reg::AfioMapr) | 0x4000000),
        forall|r: Reg|
            r != Reg::RccApb2enr && r != Reg::AfioMapr ==> final(regs).reg_val(r) == old(
                regs,
            ).reg_val(r),
        final(regs).trace@ =~= old(regs).trace@.push(
            Event::Write(Reg::RccApb2enr, old(regs).reg_val(Reg::RccApb2enr) | 1),
        ).push(Event::Write(Reg::AfioMapr, old(regs).reg_val(Reg::AfioMapr) | 0x4000000)),
{
    regs.set_bits(Reg::RccApb2enr, 1);
    regs.set_bits(Reg::AfioMapr, 0x4000000);
}

} // verus!
