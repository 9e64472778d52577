use vstd::prelude::*;
use crate::regs::{Event, GpioRegs, Reg, RegisterBank};

verus! {

/// Electrical configuration of a pin: the value of the two CNF bits in its
/// control-register nibble.
#[derive(Clone, Copy, PartialEq, Eq, Structural, Debug)]
pub enum CONFIG {
    AnalogModeOrGeneralPurposeOutputPushPull,
    FloatingInputOrGeneralPurposeOpenDrain,
    InputWithPullUpPullDownOrAlternateFuncOutputPushPull,
    AlternateFunctionOutputOpenDrain,
}

/// Drive mode of a pin: the value of the two MODE bits in its
/// control-register nibble (input, or output at a maximum slew rate).
#[derive(Clone, Copy, PartialEq, Eq, Structural, Debug)]
pub enum MODE {
    Input,
    Output10Mhz,
    Output2Mhz,
    Output50Mhz,
}

/// Pull direction for a pulled input, written to the output-data register.
#[derive(Clone, Copy, PartialEq, Eq, Structural, Debug)]
pub enum PULL {
    PullDown,
    PullUp,
}

/// One of the seven GPIO banks of the part.
#[derive(Clone, Copy, PartialEq, Eq, Structural, Debug)]
pub enum GPIOPORT {
    GPIOA,
    GPIOB,
    GPIOC,
    GPIOD,
    GPIOE,
    GPIOF,
    GPIOG,
}

/// CNF field value of an electrical configuration.
pub open spec fn config_value(c: CONFIG) -> u32 {
    match c {
        CONFIG::AnalogModeOrGeneralPurposeOutputPushPull => 0,
        CONFIG::FloatingInputOrGeneralPurposeOpenDrain => 1,
        CONFIG::InputWithPullUpPullDownOrAlternateFuncOutputPushPull => 2,
        CONFIG::AlternateFunctionOutputOpenDrain => 3,
    }
}

/// MODE field value of a drive mode.
pub open spec fn mode_value(m: MODE) -> u32 {
    match m {
        MODE::Input => 0,
        MODE::Output10Mhz => 1,
        MODE::Output2Mhz => 2,
        MODE::Output50Mhz => 3,
    }
}

/// Bit written to the output-data register for a pull request; an absent
/// request encodes as 0 but never reaches that register.
pub open spec fn pull_value(p: Option<PULL>) -> u32 {
    match p {
        Option::None => 0,
        Option::Some(PULL::PullDown) => 0,
        Option::Some(PULL::PullUp) => 1,
    }
}

/// A full pin configuration request: electrical configuration, drive mode,
/// and an optional pull direction that only applies to pulled inputs.
#[derive(Clone, Copy)]
pub struct GpioConfig {
    pub config: CONFIG,
    pub mode: MODE,
    pub pull: Option<PULL>,
}

impl GpioConfig {
    /// The CNF field of this request, as the two-bit value 0..=3.
    pub fn config_as_u32(&self) -> (v: u32)
        ensures
            v == config_value(self.config),
    {
        match self.config {
            CONFIG::AnalogModeOrGeneralPurposeOutputPushPull => 0,
            CONFIG::FloatingInputOrGeneralPurposeOpenDrain => 1,
            CONFIG::InputWithPullUpPullDownOrAlternateFuncOutputPushPull => 2,
            CONFIG::AlternateFunctionOutputOpenDrain => 3,
        }
    }

    /// The MODE field of this request, as the two-bit value 0..=3.
    pub fn mode_as_u32(&self) -> (v: u32)
        ensures
            v == mode_value(self.mode),
    {
        match self.mode {
            MODE::Input => 0,
            MODE::Output10Mhz => 1,
            MODE::Output2Mhz => 2,
            MODE::Output50Mhz => 3,
        }
    }

    /// The output-data-register bit for this request's pull direction;
    /// 0 when no pull was supplied.
    pub fn pull_as_u32(&self) -> (v: u32)
        ensures
            v == pull_value(self.pull),
    {
        match self.pull {
            Option::None => 0,
            Option::Some(PULL::PullDown) => 0,
            Option::Some(PULL::PullUp) => 1,
        }
    }
}

/// RCC APB2 clock-enable mask of a GPIO bank (bits 2 through 8).
pub open spec fn port_enable_mask(p: GPIOPORT) -> u32 {
    match p {
        GPIOPORT::GPIOA => 0x004,
        GPIOPORT::GPIOB => 0x008,
        GPIOPORT::GPIOC => 0x010,
        GPIOPORT::GPIOD => 0x020,
        GPIOPORT::GPIOE => 0x040,
        GPIOPORT::GPIOF => 0x080,
        GPIOPORT::GPIOG => 0x100,
    }
}

fn enable_mask(p: GPIOPORT) -> (m: u32)
    ensures
        m == port_enable_mask(p),
{
    match p {
        GPIOPORT::GPIOA => 0x004,
        GPIOPORT::GPIOB => 0x008,
        GPIOPORT::GPIOC => 0x010,
        GPIOPORT::GPIOD => 0x020,
        GPIOPORT::GPIOE => 0x040,
        GPIOPORT::GPIOF => 0x080,
        GPIOPORT::GPIOG => 0x100,
    }
}

/// Control register that holds a pin's 4-bit field: the low register for
/// pins 0 through 7, the high register for pins 8 through 15.
pub open spec fn ctrl_reg(p: GPIOPORT, pin: u32) -> Reg {
    if pin > 7 {
        Reg::GpioCrh(p)
    } else {
        Reg::GpioCrl(p)
    }
}

/// Bit offset of a pin's 4-bit field inside its control register:
/// `pin * 4`, reduced by 32 in the high register.
pub open spec fn field_offset(pin: u32) -> u32 {
    if pin > 7 {
        (pin * 4 - 32) as u32
    } else {
        (pin * 4) as u32
    }
}

/// Index of a pin's nibble within its control register.
pub open spec fn nibble_index(pin: u32) -> u32 {
    if pin > 7 {
        (pin - 8) as u32
    } else {
        pin
    }
}

/// The `j`-th 4-bit field of a control register value.
pub open spec fn nibble(v: u32, j: u32) -> u32 {
    (v >> ((4 * j) as u32)) & 0xF
}

/// Whether bit `j` of `v` is set.
pub open spec fn bit_set(v: u32, j: u32) -> bool {
    (v >> j) & 1 == 1
}

/// Value of a control register after configuring the field at bit offset
/// `off`: the old nibble cleared first, then the CNF bits and the MODE bits
/// OR-ed in two positions apart.
pub open spec fn configured_ctrl(old_val: u32, off: u32, cnf: u32, mode: u32) -> u32 {
    (old_val & !(0xFu32 << off)) | (cnf << ((off + 2) as u32)) | (mode << off)
}

/// Value written to the set/reset register: bit `pin` forces the pin high,
/// bit `pin + 16` forces it low.
pub open spec fn bsrr_value(pin: u32, value: bool) -> u32 {
    if value {
        1u32 << pin
    } else {
        1u32 << ((pin + 16) as u32)
    }
}

/// Whether a configuration request writes the pull bit to the output-data
/// register: only a pulled-input/alternate-push-pull configuration with an
/// explicit pull direction does.
pub open spec fn writes_pull(config: GpioConfig) -> bool {
    config.pull is Some && config.config
        == CONFIG::InputWithPullUpPullDownOrAlternateFuncOutputPushPull
}

/// The register writes performed by `Gpio::configure`, given the APB2
/// enable register value and the port's registers at entry.
pub open spec fn configure_events(
    apb2: u32,
    g: GpioRegs,
    port: GPIOPORT,
    config: GpioConfig,
    pin: u32,
) -> Seq<Event> {
    let ctrl = ctrl_reg(port, pin);
    let off = field_offset(pin);
    let cur = if pin > 7 {
        g.crh
    } else {
        g.crl
    };
    let v1 = cur & !(0xFu32 << off);
    let v2 = v1 | (config_value(config.config) << ((off + 2) as u32));
    let v3 = v2 | (mode_value(config.mode) << off);
    let head = seq![
        Event::Write(Reg::RccApb2enr, apb2 | port_enable_mask(port)),
        Event::Write(ctrl, v1),
        Event::Write(ctrl, v2),
        Event::Write(ctrl, v3),
    ];
    if writes_pull(config) {
        head.push(
            Event::Write(
                Reg::GpioOdr(port),
                (g.odr & !(1u32 << pin)) | (pull_value(config.pull) << pin),
            ),
        )
    } else {
        head
    }
}

/// Configuring one pin's field touches exactly that nibble: the pin's nibble
/// becomes CNF and MODE side by side, every other nibble keeps its value.
proof fn lemma_configured_ctrl_nibbles(old_val: u32, off: u32, k: u32, cnf: u32, mode: u32)
    by (bit_vector)
    requires
        k < 8,
        off == 4 * k,
        cnf < 4,
        mode < 4,
    ensures
        nibble(configured_ctrl(old_val, off, cnf, mode), k) == (4 * cnf + mode) as u32,
        forall|j: u32|
            j < 8 && j != k ==> nibble(configured_ctrl(old_val, off, cnf, mode), j) == nibble(
                old_val,
                j,
            ),
{
}

/// After the pull write, bit `pin` of the output-data register equals the
/// pull value: 1 for pull-up, 0 for pull-down.
proof fn lemma_pull_bit(odr: u32, pin: u32, pv: u32)
    by (bit_vector)
    requires
        pin < 16,
        pv < 2,
    ensures
        bit_set((odr & !(1u32 << pin)) | (pv << pin), pin) == (pv == 1),
{
}

/// A one-bit mask has exactly its own bit set.
proof fn lemma_single_bit(k: u32)
    by (bit_vector)
    requires
        k < 32,
    ensures
        forall|j: u32| j < 32 ==> (bit_set(1u32 << k, j) <==> j == k),
{
}

/// A logical pin: a GPIO bank and a pin index 0 through 15.
#[derive(Clone, Copy)]
pub struct Gpio {
    pub port: GPIOPORT,
    pub pin_number: u32,
}

impl Gpio {
    /// Drive the pin high through the atomic set/reset register.
    pub fn high(&self, regs: &mut RegisterBank)
        requires
            self.pin_number < 16,
        ensures
            final(regs).reg_val(Reg::GpioBsrr(self.port)) == bsrr_value(self.pin_number, true),
            forall|r: Reg|
                r != Reg::GpioBsrr(self.port) ==> final(regs).reg_val(r) == old(regs).reg_val(r),
            final(regs).trace@ =~= old(regs).trace@.push(
                Event::Write(Reg::GpioBsrr(self.port), bsrr_value(self.pin_number, true)),
            ),
    {
        self.set(regs, true)
    }

    /// Drive the pin low through the atomic set/reset register.
    pub fn low(&self, regs: &mut RegisterBank)
        requires
            self.pin_number < 16,
        ensures
            final(regs).reg_val(Reg::GpioBsrr(self.port)) == bsrr_value(self.pin_number, false),
            forall|r: Reg|
                r != Reg::GpioBsrr(self.port) ==> final(regs).reg_val(r) == old(regs).reg_val(r),
            final(regs).trace@ =~= old(regs).trace@.push(
                Event::Write(Reg::GpioBsrr(self.port), bsrr_value(self.pin_number, false)),
            ),
    {
        self.set(regs, false)
    }

    /// Force the pin's output level with one write to the set/reset
    /// register: exactly bit `pin` is written to force high, exactly bit
    /// `pin + 16` to force low; no other pin of the port is touched.
    pub fn set(&self, regs: &mut RegisterBank, value: bool)
        requires
            self.pin_number < 16,
        ensures
            final(regs).reg_val(Reg::GpioBsrr(self.port)) == bsrr_value(self.pin_number, value),
            value ==> forall|j: u32|
                j < 32 ==> (bit_set(final(regs).reg_val(Reg::GpioBsrr(self.port)), j) <==> j
                    == self.pin_number),
            !value ==> forall|j: u32|
                j < 32 ==> (bit_set(final(regs).reg_val(Reg::GpioBsrr(self.port)), j) <==> j
                    == self.pin_number + 16),
            forall|r: Reg|
                r != Reg::GpioBsrr(self.port) ==> final(regs).reg_val(r) == old(regs).reg_val(r),
            final(regs).trace@ =~= old(regs).trace@.push(
                Event::Write(Reg::GpioBsrr(self.port), bsrr_value(self.pin_number, value)),
            ),
    {
        if value {
            regs.write_reg(Reg::GpioBsrr(self.port), 1u32 << self.pin_number);
            proof {
                lemma_single_bit(self.pin_number);
            }
        } else {
            regs.write_reg(Reg::GpioBsrr(self.port), 1u32 << (self.pin_number + 16));
            proof {
                lemma_single_bit((self.pin_number + 16) as u32);
            }
        }
    }

    /// Enable the port's clock gate in the RCC APB2 enable register.
    /// Idempotent: OR-ing an already-set enable bit changes nothing.
    fn enable_in_rcc(&self, regs: &mut RegisterBank)
        ensures
            final(regs).reg_val(Reg::RccApb2enr) == (old(regs).reg_val(Reg::RccApb2enr)
                | port_enable_mask(self.port)),
            forall|r: Reg|
                r != Reg::RccApb2enr ==> final(regs).reg_val(r) == old(regs).reg_val(r),
            final(regs).trace@ =~= old(regs).trace@.push(
                Event::Write(
                    Reg::RccApb2enr,
                    old(regs).reg_val(Reg::RccApb2enr) | port_enable_mask(self.port),
                ),
            ),
    {
        let m = enable_mask(self.port);
        regs.set_bits(Reg::RccApb2enr, m);
    }

    /// Configure the pin: enable the port clock, clear the pin's 4-bit
    /// control field, write the CNF bits and the MODE bits, and — exactly
    /// when the electrical configuration is pulled-input/alternate-push-pull
    /// and a pull direction was supplied — set the pin's bit in the
    /// output-data register to the pull value, 1 for pull-up and 0 for
    /// pull-down. Pins 0 through 7 go to the low control
    /// register, pins 8 through 15 to the high one with the offset reduced
    /// by 32; every other nibble of that register keeps its value.
    pub fn configure(&self, regs: &mut RegisterBank, config: GpioConfig)
        requires
            self.pin_number < 16,
        ensures
            self.pin_number <= 7 ==> ctrl_reg(self.port, self.pin_number) == Reg::GpioCrl(
                self.port,
            ) && field_offset(self.pin_number) == self.pin_number * 4,
            self.pin_number > 7 ==> ctrl_reg(self.port, self.pin_number) == Reg::GpioCrh(self.port)
                && field_offset(self.pin_number) == self.pin_number * 4 - 32,
            final(regs).reg_val(ctrl_reg(self.port, self.pin_number)) == configured_ctrl(
                old(regs).reg_val(ctrl_reg(self.port, self.pin_number)),
                field_offset(self.pin_number),
                config_value(config.config),
                mode_value(config.mode),
            ),
            nibble(
                final(regs).reg_val(ctrl_reg(self.port, self.pin_number)),
                nibble_index(self.pin_number),
            ) == (4 * config_value(config.config) + mode_value(config.mode)) as u32,
            forall|j: u32|
                j < 8 && j != nibble_index(self.pin_number) ==> nibble(
                    final(regs).reg_val(ctrl_reg(self.port, self.pin_number)),
                    j,
                ) == nibble(old(regs).reg_val(ctrl_reg(self.port, self.pin_number)), j),
            writes_pull(config) ==> final(regs).reg_val(Reg::GpioOdr(self.port)) == ((old(
                regs,
            ).reg_val(Reg::GpioOdr(self.port)) & !(1u32 << self.pin_number)) | (pull_value(
                config.pull,
            ) << self.pin_number)),
            writes_pull(config) ==> bit_set(
                final(regs).reg_val(Reg::GpioOdr(self.port)),
                self.pin_number,
            ) == (pull_value(config.pull) == 1),
            !writes_pull(config) ==> final(regs).reg_val(Reg::GpioOdr(self.port)) == old(
                regs,
            ).reg_val(Reg::GpioOdr(self.port)),
            final(regs).reg_val(Reg::RccApb2enr) == (old(regs).reg_val(Reg::RccApb2enr)
                | port_enable_mask(self.port)),
            forall|r: Reg|
                r != ctrl_reg(self.port, self.pin_number) && r != Reg::RccApb2enr && r
                    != Reg::GpioOdr(self.port) ==> final(regs).reg_val(r) == old(regs).reg_val(r),
            final(regs).trace@ =~= old(regs).trace@ + configure_events(
                old(regs).reg_val(Reg::RccApb2enr),
                old(regs).gpio(self.port),
                self.port,
                config,
                self.pin_number,
            ),
    {
        self.enable_in_rcc(regs);
        let off: u32 = if self.pin_number > 7 {
            self.pin_number * 4 - 32
        } else {
            self.pin_number * 4
        };
        let ctrl = if self.pin_number > 7 {
            Reg::GpioCrh(self.port)
        } else {
            Reg::GpioCrl(self.port)
        };
        let cur = regs.read_reg(ctrl);
        // Clear the pin's whole nibble first, so that stale bits are never
        // OR-ed together with the new field values.
        let v1 = cur & !(0xFu32 << off);
        regs.write_reg(ctrl, v1);
        // Set the CNF bits, two positions above the MODE bits.
        let v2 = v1 | (config.config_as_u32() << (off + 2));
        regs.write_reg(ctrl, v2);
        // Set the MODE bits.
        let v3 = v2 | (config.mode_as_u32() << off);
        regs.write_reg(ctrl, v3);
        if config.pull.is_some() && config.config
            == CONFIG::InputWithPullUpPullDownOrAlternateFuncOutputPushPull {
            let odr = regs.read_reg(Reg::GpioOdr(self.port));
            // Set the pin's bit to the pull value: clear it first, so that a
            // pull-down lands as 0 even when the bit was set before.
            regs.write_reg(
                Reg::GpioOdr(self.port),
                (odr & !(1u32 << self.pin_number)) | (config.pull_as_u32() << self.pin_number),
            );
            proof {
                lemma_pull_bit(odr, self.pin_number, pull_value(config.pull));
            }
        }
        proof {
            lemma_configured_ctrl_nibbles(
                old(regs).reg_val(ctrl),
                off,
                nibble_index(self.pin_number),
                config_value(config.config),
                mode_value(config.mode),
            );
        }
    }
}

} // verus!
