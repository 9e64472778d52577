use vstd::prelude::*;
use crate::gpio::GPIOPORT;

verus! {

/// Identity of one 32-bit peripheral register in the model.
#[derive(Clone, Copy, PartialEq, Eq, Structural, Debug)]
pub enum Reg {
    RccCr,
    RccCfgr,
    RccApb2enr,
    FlashAcr,
    AfioMapr,
    GpioCrl(GPIOPORT),
    GpioCrh(GPIOPORT),
    GpioOdr(GPIOPORT),
    GpioBsrr(GPIOPORT),
    UsartSr,
    UsartDr,
    UsartBrr,
    UsartCr1,
    UsartGtpr,
}

/// One step of the hardware interaction: a register write, or a busy-wait
/// until the register has some bit of the mask set.
#[derive(Clone, Copy, PartialEq, Eq, Structural, Debug)]
pub enum Event {
    Write(Reg, u32),
    Wait(Reg, u32),
}

/// The four registers of one GPIO bank that the drivers touch.
#[derive(Clone, Copy, PartialEq, Eq, Structural, Debug)]
pub struct GpioRegs {
    pub crl: u32,
    pub crh: u32,
    pub odr: u32,
    pub bsrr: u32,
}

/// In-memory model of the peripheral registers, together with the ordered
/// trace of writes and waits performed on them. On the target the same
/// operations are replayed through memory-mapped I/O; a `Wait` entry stands
/// for spinning until `register & mask != 0`.
pub struct RegisterBank {
    pub rcc_cr: u32,
    pub rcc_cfgr: u32,
    pub rcc_apb2enr: u32,
    pub flash_acr: u32,
    pub afio_mapr: u32,
    pub gpio_a: GpioRegs,
    pub gpio_b: GpioRegs,
    pub gpio_c: GpioRegs,
    pub gpio_d: GpioRegs,
    pub gpio_e: GpioRegs,
    pub gpio_f: GpioRegs,
    pub gpio_g: GpioRegs,
    pub usart_sr: u32,
    pub usart_dr: u32,
    pub usart_brr: u32,
    pub usart_cr1: u32,
    pub usart_gtpr: u32,
    pub trace: Vec<Event>,
}

impl RegisterBank {
    /// The registers of the given GPIO bank.
    pub open spec fn gpio(self, p: GPIOPORT) -> GpioRegs {
        match p {
            GPIOPORT::GPIOA => self.gpio_a,
            GPIOPORT::GPIOB => self.gpio_b,
            GPIOPORT::GPIOC => self.gpio_c,
            GPIOPORT::GPIOD => self.gpio_d,
            GPIOPORT::GPIOE => self.gpio_e,
            GPIOPORT::GPIOF => self.gpio_f,
            GPIOPORT::GPIOG => self.gpio_g,
        }
    }

    /// Current value of the named register.
    pub open spec fn reg_val(self, r: Reg) -> u32 {
        match r {
            Reg::RccCr => self.rcc_cr,
            Reg::RccCfgr => self.rcc_cfgr,
            Reg::RccApb2enr => self.rcc_apb2enr,
            Reg::FlashAcr => self.flash_acr,
            Reg::AfioMapr => self.afio_mapr,
            Reg::GpioCrl(p) => self.gpio(p).crl,
            Reg::GpioCrh(p) => self.gpio(p).crh,
            Reg::GpioOdr(p) => self.gpio(p).odr,
            Reg::GpioBsrr(p) => self.gpio(p).bsrr,
            Reg::UsartSr => self.usart_sr,
            Reg::UsartDr => self.usart_dr,
            Reg::UsartBrr => self.usart_brr,
            Reg::UsartCr1 => self.usart_cr1,
            Reg::UsartGtpr => self.usart_gtpr,
        }
    }

    /// A register bank in its reset state: every register zero, no trace.
    pub fn new() -> (r: RegisterBank)
        ensures
            forall|reg: Reg| r.reg_val(reg) == 0u32,
            r.trace@ =~= Seq::<Event>::empty(),
    {
        let zero_port = GpioRegs { crl: 0, crh: 0, odr: 0, bsrr: 0 };
        RegisterBank {
            rcc_cr: 0,
            rcc_cfgr: 0,
            rcc_apb2enr: 0,
            flash_acr: 0,
            afio_mapr: 0,
            gpio_a: zero_port,
            gpio_b: zero_port,
            gpio_c: zero_port,
            gpio_d: zero_port,
            gpio_e: zero_port,
            gpio_f: zero_port,
            gpio_g: zero_port,
            usart_sr: 0,
            usart_dr: 0,
            usart_brr: 0,
            usart_cr1: 0,
            usart_gtpr: 0,
            trace: Vec::new(),
        }
    }

    /// Read the named register.
    pub fn read_reg(&self, r: Reg) -> (v: u32)
        ensures
            v == self.reg_val(r),
    {
        match r {
            Reg::RccCr => self.rcc_cr,
            Reg::RccCfgr => self.rcc_cfgr,
            Reg::RccApb2enr => self.rcc_apb2enr,
            Reg::FlashAcr => self.flash_acr,
            Reg::AfioMapr => self.afio_mapr,
            Reg::GpioCrl(p) => self.gpio_ref(p).crl,
            Reg::GpioCrh(p) => self.gpio_ref(p).crh,
            Reg::GpioOdr(p) => self.gpio_ref(p).odr,
            Reg::GpioBsrr(p) => self.gpio_ref(p).bsrr,
            Reg::UsartSr => self.usart_sr,
            Reg::UsartDr => self.usart_dr,
            Reg::UsartBrr => self.usart_brr,
            Reg::UsartCr1 => self.usart_cr1,
            Reg::UsartGtpr => self.usart_gtpr,
        }
    }

    /// The registers of the given GPIO bank.
    fn gpio_ref(&self, p: GPIOPORT) -> (g: &GpioRegs)
        ensures
            *g == self.gpio(p),
    {
        match p {
            GPIOPORT::GPIOA => &self.gpio_a,
            GPIOPORT::GPIOB => &self.gpio_b,
            GPIOPORT::GPIOC => &self.gpio_c,
            GPIOPORT::GPIOD => &self.gpio_d,
            GPIOPORT::GPIOE => &self.gpio_e,
            GPIOPORT::GPIOF => &self.gpio_f,
            GPIOPORT::GPIOG => &self.gpio_g,
        }
    }

    /// Write the named register and record the write in the trace.
    #[verifier::rlimit(100)]
    pub fn write_reg(&mut self, r: Reg, v: u32)
        ensures
            final(self).reg_val(r) == v,
            forall|r2: Reg| r2 != r ==> final(self).reg_val(r2) == old(self).reg_val(r2),
            final(self).trace@ =~= old(self).trace@.push(Event::Write(r, v)),
    {
        match r {
            Reg::RccCr => { self.rcc_cr = v; }
            Reg::RccCfgr => { self.rcc_cfgr = v; }
            Reg::RccApb2enr => { self.rcc_apb2enr = v; }
            Reg::FlashAcr => { self.flash_acr = v; }
            Reg::AfioMapr => { self.afio_mapr = v; }
            Reg::GpioCrl(p) => {
                match p {
                    GPIOPORT::GPIOA => { self.gpio_a.crl = v; }
                    GPIOPORT::GPIOB => { self.gpio_b.crl = v; }
                    GPIOPORT::GPIOC => { self.gpio_c.crl = v; }
                    GPIOPORT::GPIOD => { self.gpio_d.crl = v; }
                    GPIOPORT::GPIOE => { self.gpio_e.crl = v; }
                    GPIOPORT::GPIOF => { self.gpio_f.crl = v; }
                    GPIOPORT::GPIOG => { self.gpio_g.crl = v; }
                }
            }
            Reg::GpioCrh(p) => {
                match p {
                    GPIOPORT::GPIOA => { self.gpio_a.crh = v; }
                    GPIOPORT::GPIOB => { self.gpio_b.crh = v; }
                    GPIOPORT::GPIOC => { self.gpio_c.crh = v; }
                    GPIOPORT::GPIOD => { self.gpio_d.crh = v; }
                    GPIOPORT::GPIOE => { self.gpio_e.crh = v; }
                    GPIOPORT::GPIOF => { self.gpio_f.crh = v; }
                    GPIOPORT::GPIOG => { self.gpio_g.crh = v; }
                }
            }
            Reg::GpioOdr(p) => {
                match p {
                    GPIOPORT::GPIOA => { self.gpio_a.odr = v; }
                    GPIOPORT::GPIOB => { self.gpio_b.odr = v; }
                    GPIOPORT::GPIOC => { self.gpio_c.odr = v; }
                    GPIOPORT::GPIOD => { self.gpio_d.odr = v; }
                    GPIOPORT::GPIOE => { self.gpio_e.odr = v; }
                    GPIOPORT::GPIOF => { self.gpio_f.odr = v; }
                    GPIOPORT::GPIOG => { self.gpio_g.odr = v; }
                }
            }
            Reg::GpioBsrr(p) => {
                match p {
                    GPIOPORT::GPIOA => { self.gpio_a.bsrr = v; }
                    GPIOPORT::GPIOB => { self.gpio_b.bsrr = v; }
                    GPIOPORT::GPIOC => { self.gpio_c.bsrr = v; }
                    GPIOPORT::GPIOD => { self.gpio_d.bsrr = v; }
                    GPIOPORT::GPIOE => { self.gpio_e.bsrr = v; }
                    GPIOPORT::GPIOF => { self.gpio_f.bsrr = v; }
                    GPIOPORT::GPIOG => { self.gpio_g.bsrr = v; }
                }
            }
            Reg::UsartSr => { self.usart_sr = v; }
            Reg::UsartDr => { self.usart_dr = v; }
            Reg::UsartBrr => { self.usart_brr = v; }
            Reg::UsartCr1 => { self.usart_cr1 = v; }
            Reg::UsartGtpr => { self.usart_gtpr = v; }
        }
        self.trace.push(Event::Write(r, v));
    }

    /// Record a busy-wait on `r & mask != 0`. The model only logs the wait;
    /// on the target the replay spins until the condition holds.
    pub fn wait_mask(&mut self, r: Reg, mask: u32)
        ensures
            forall|r2: Reg| final(self).reg_val(r2) == old(self).reg_val(r2),
            final(self).trace@ =~= old(self).trace@.push(Event::Wait(r, mask)),
    {
        self.trace.push(Event::Wait(r, mask));
    }

    /// Read-modify-write: OR the mask into the named register.
    pub fn set_bits(&mut self, r: Reg, mask: u32)
        ensures
            final(self).reg_val(r) == (old(self).reg_val(r) | mask),
            forall|r2: Reg| r2 != r ==> final(self).reg_val(r2) == old(self).reg_val(r2),
            final(self).trace@ =~= old(self).trace@.push(
                Event::Write(r, old(self).reg_val(r) | mask),
            ),
    {
        let cur = self.read_reg(r);
        self.write_reg(r, cur | mask);
    }

    /// Read-modify-write: AND the negated mask into the named register.
    pub fn clear_bits(&mut self, r: Reg, mask: u32)
        ensures
            final(self).reg_val(r) == (old(self).reg_val(r) & !mask),
            forall|r2: Reg| r2 != r ==> final(self).reg_val(r2) == old(self).reg_val(r2),
            final(self).trace@ =~= old(self).trace@.push(
                Event::Write(r, old(self).reg_val(r) & !mask),
            ),
    {
        let cur = self.read_reg(r);
        self.write_reg(r, cur & !mask);
    }
}

} // verus!
