use vstd::prelude::*;
use crate::gpio::{
    configured_ctrl, configure_events, CONFIG, GPIOPORT, Gpio, GpioConfig, MODE,
};
use crate::regs::{Event, GpioRegs, Reg, RegisterBank};
use crate::system::APB2_FREQUENCY;
use vstd::string::StringSliceAdditionalSpecFns;

verus! {

/// Integer part of the baud-rate divisor `bus / (16 * baud)`.
pub open spec fn baud_mantissa(bus: u32, baud: u32) -> u32
    recommends
        baud > 0,
{
    (bus as int / (16 * baud as int)) as u32
}

/// Four-bit fractional part of the baud-rate divisor: the remainder of
/// `bus / (16 * baud)`, scaled by 16 and rounded to the nearest integer
/// (halves away from zero).
pub open spec fn baud_fraction(bus: u32, baud: u32) -> u32
    recommends
        baud > 0,
{
    (((bus as int % (16 * baud as int)) * 16 + 8 * baud as int) / (16 * baud as int)) as u32
}

/// Value programmed into the baud-rate register: the mantissa in the upper
/// bits, the 4-bit fraction in the lowest nibble. When the fraction rounds
/// all the way up to 16, its bit 4 is OR-ed over the mantissa's lowest bit
/// rather than carried into it — the literal divisor formula is silent on a
/// carry, and the register write follows it exactly.
pub open spec fn brr_value(bus: u32, baud: u32) -> u32 {
    (baud_mantissa(bus, baud) << 4u32) | baud_fraction(bus, baud)
}

/// The baud-rate divisor depends on the bus frequency and the baud rate
/// alone: two computations over the same pair agree.
pub proof fn lemma_baud_divisor_deterministic(bus1: u32, baud1: u32, bus2: u32, baud2: u32)
    requires
        bus1 == bus2,
        baud1 == baud2,
    ensures
        baud_mantissa(bus1, baud1) == baud_mantissa(bus2, baud2),
        baud_fraction(bus1, baud1) == baud_fraction(bus2, baud2),
{
}

/// Compute the baud-rate divisor for the given bus frequency and baud rate.
pub fn baud_divisor(bus: u32, baud: u32) -> (r: (u32, u32))
    requires
        baud > 0,
    ensures
        r.0 == baud_mantissa(bus, baud),
        r.1 == baud_fraction(bus, baud),
        r.1 <= 16,
{
    let div16: u64 = 16 * (baud as u64);
    let mantissa: u64 = (bus as u64) / div16;
    let rem: u64 = (bus as u64) % div16;
    let fraction: u64 = (rem * 16 + 8 * (baud as u64)) / div16;
    proof {
        let b = bus as int;
        let d = 16 * baud as int;
        assert(mantissa == b / d && mantissa <= b) by (nonlinear_arith)
            requires
                d > 0,
                mantissa == b / d,
                b >= 0,
        ;
        assert(rem == b % d && 0 <= rem < d) by (nonlinear_arith)
            requires
                d > 0,
                rem == b % d,
                b >= 0,
        ;
        assert(fraction == (rem * 16 + 8 * baud as int) / d && fraction <= 16) by (nonlinear_arith)
            requires
                d > 0,
                d == 16 * baud as int,
                baud > 0,
                0 <= rem < d,
                fraction == (rem * 16 + 8 * baud as int) / d,
        ;
    }
    (mantissa as u32, fraction as u32)
}

/// The two trace entries of sending one byte: the data-register write, then
/// the busy-wait on the transmission-complete flag (status bit 6).
pub open spec fn byte_events(b: u8) -> Seq<Event> {
    seq![Event::Write(Reg::UsartDr, b as u32), Event::Wait(Reg::UsartSr, 0x40)]
}

/// The trace of sending a byte sequence: the events of each byte in order.
pub open spec fn print_events(bytes: Seq<u8>) -> Seq<Event>
    decreases bytes.len(),
{
    if bytes.len() == 0 {
        Seq::empty()
    } else {
        byte_events(bytes[0]) + print_events(bytes.drop_first())
    }
}

proof fn lemma_print_events_snoc(s: Seq<u8>, b: u8)
    ensures
        print_events(s.push(b)) =~= print_events(s) + byte_events(b),
    decreases s.len(),
{
    if s.len() == 0 {
        assert(s.push(b).drop_first() =~= Seq::<u8>::empty());
        assert(print_events(s.push(b)) == byte_events(b) + print_events(s.push(b).drop_first()));
        assert(print_events(s) == Seq::<Event>::empty());
        assert(print_events(s.push(b)) =~= print_events(s) + byte_events(b));
    } else {
        assert(s.push(b).drop_first() =~= s.drop_first().push(b));
        lemma_print_events_snoc(s.drop_first(), b);
        assert(print_events(s.push(b)) == byte_events(s[0]) + print_events(
            s.drop_first().push(b),
        ));
        assert(byte_events(s[0]) + (print_events(s.drop_first()) + byte_events(b)) =~= (
        byte_events(s[0]) + print_events(s.drop_first())) + byte_events(b));
    }
}

/// What `read_byte` returns: the low byte of the data register when the
/// receive-not-empty flag (status bit 5) is set, and 0 otherwise.
pub open spec fn spec_read_byte(r: RegisterBank) -> u8 {
    if r.reg_val(Reg::UsartSr) & 0x20 != 0 {
        (r.reg_val(Reg::UsartDr) & 0xFF) as u8
    } else {
        0
    }
}

/// The whole trace of `Serial::configure`, given the register bank at
/// entry: disable the UART, enable its clock gates, configure both pins,
/// set prescaler, transmitter and receiver, program the divisor for 115200
/// baud, re-enable the UART, and send one newline.
pub open spec fn serial_configure_events(r: RegisterBank) -> Seq<Event> {
    let cr1_off = r.usart_cr1 & !0x2000u32;
    let apb_usart = r.rcc_apb2enr | 0x4000u32;
    let apb_afio = apb_usart | 1u32;
    let gpio_a_tx = GpioRegs { crh: configured_ctrl(r.gpio_a.crh, 4, 2, 3), ..r.gpio_a };
    seq![
        Event::Write(Reg::UsartCr1, cr1_off),
        Event::Write(Reg::RccApb2enr, apb_usart),
        Event::Write(Reg::RccApb2enr, apb_afio),
    ] + configure_events(apb_afio, r.gpio_a, GPIOPORT::GPIOA, serial_pin_config(), 9)
        + configure_events(apb_afio | 4, gpio_a_tx, GPIOPORT::GPIOA, serial_pin_config(), 10)
        + seq![
        Event::Write(Reg::UsartGtpr, r.usart_gtpr | 1),
        Event::Write(Reg::UsartCr1, cr1_off | 8),
        Event::Write(Reg::UsartCr1, (cr1_off | 8) | 4),
        Event::Write(Reg::UsartBrr, brr_value(APB2_FREQUENCY, 115200)),
        Event::Write(Reg::UsartCr1, ((cr1_off | 8) | 4) | 0x2000),
    ] + byte_events(10)
}

/// The asynchronous serial port (USART1 of the part).
pub struct Serial {}

impl Serial {
    /// Bring the UART up: disable it, enable its clock gates, configure the
    /// two pins, write prescaler and transmitter/receiver enables, program
    /// the 115200-baud divisor, re-enable it, and send one newline as a
    /// line-clearing sentinel.
    pub fn configure(regs: &mut RegisterBank)
        ensures
            final(regs).reg_val(Reg::UsartCr1) == ((((old(regs).reg_val(Reg::UsartCr1)
                & !0x2000u32) | 8) | 4) | 0x2000),
            final(regs).reg_val(Reg::RccApb2enr) == ((((old(regs).reg_val(Reg::RccApb2enr)
                | 0x4000) | 1) | 4) | 4),
            final(regs).reg_val(Reg::GpioCrh(GPIOPORT::GPIOA)) == configured_ctrl(
                configured_ctrl(old(regs).gpio_a.crh, 4, 2, 3),
                8,
                2,
                3,
            ),
            final(regs).reg_val(Reg::UsartGtpr) == (old(regs).reg_val(Reg::UsartGtpr) | 1),
            final(regs).reg_val(Reg::UsartBrr) == brr_value(APB2_FREQUENCY, 115200),
            final(regs).reg_val(Reg::UsartDr) == 10,
            forall|r: Reg|
                r != Reg::UsartCr1 && r != Reg::RccApb2enr && r != Reg::GpioCrh(GPIOPORT::GPIOA)
                    && r != Reg::UsartGtpr && r != Reg::UsartBrr && r != Reg::UsartDr
                    ==> final(regs).reg_val(r) == old(regs).reg_val(r),
            final(regs).trace@ =~= old(regs).trace@ + serial_configure_events(*old(regs)),
    {
        let ghost r0 = *regs;
        Serial::disable(regs);
        Serial::enable_clock(regs);
        let ghost r2 = *regs;
        let ghost head = seq![
            Event::Write(Reg::UsartCr1, r0.usart_cr1 & !0x2000u32),
            Event::Write(Reg::RccApb2enr, r0.rcc_apb2enr | 0x4000),
            Event::Write(Reg::RccApb2enr, (r0.rcc_apb2enr | 0x4000) | 1),
        ];
        proof {
            assert(r2.reg_val(Reg::GpioCrh(GPIOPORT::GPIOA)) == r0.reg_val(
                Reg::GpioCrh(GPIOPORT::GPIOA),
            ));
            assert(r2.reg_val(Reg::GpioCrl(GPIOPORT::GPIOA)) == r0.reg_val(
                Reg::GpioCrl(GPIOPORT::GPIOA),
            ));
            assert(r2.reg_val(Reg::GpioOdr(GPIOPORT::GPIOA)) == r0.reg_val(
                Reg::GpioOdr(GPIOPORT::GPIOA),
            ));
            assert(r2.reg_val(Reg::GpioBsrr(GPIOPORT::GPIOA)) == r0.reg_val(
                Reg::GpioBsrr(GPIOPORT::GPIOA),
            ));
            assert(r2.gpio_a == r0.gpio_a);
            assert(r2.trace@ =~= r0.trace@ + head);
        }
        Serial::configure_ports(regs);
        let ghost r3 = *regs;
        let ghost ce_tx = configure_events(
            (r0.rcc_apb2enr | 0x4000) | 1,
            r0.gpio_a,
            GPIOPORT::GPIOA,
            serial_pin_config(),
            9,
        );
        let ghost ce_rx = configure_events(
            ((r0.rcc_apb2enr | 0x4000) | 1) | 4,
            GpioRegs { crh: configured_ctrl(r0.gpio_a.crh, 4, 2, 3), ..r0.gpio_a },
            GPIOPORT::GPIOA,
            serial_pin_config(),
            10,
        );
        proof {
            assert(r3.trace@ =~= r0.trace@ + head + ce_tx + ce_rx);
            assert(r3.reg_val(Reg::UsartCr1) == r0.usart_cr1 & !0x2000u32);
            assert(r3.reg_val(Reg::UsartGtpr) == r0.usart_gtpr);
        }
        Serial::configure_registers(regs);
        Serial::set_baudrate_rs(regs, 115200);
        Serial::enable(regs);
        Serial::write_byte(regs, 10);  // newline
        proof {
            let cr1_off = r0.usart_cr1 & !0x2000u32;
            let tail = seq![
                Event::Write(Reg::UsartGtpr, r0.usart_gtpr | 1),
                Event::Write(Reg::UsartCr1, cr1_off | 8),
                Event::Write(Reg::UsartCr1, (cr1_off | 8) | 4),
                Event::Write(Reg::UsartBrr, brr_value(APB2_FREQUENCY, 115200)),
                Event::Write(Reg::UsartCr1, ((cr1_off | 8) | 4) | 0x2000),
            ];
            assert(regs.trace@ =~= r0.trace@ + head + ce_tx + ce_rx + tail + byte_events(10));
            assert(serial_configure_events(r0) =~= head + ce_tx + ce_rx + tail + byte_events(10));
        }
    }

    /// Send one byte: write it to the data register, then wait for the
    /// transmission-complete flag.
    pub fn write_byte(regs: &mut RegisterBank, byte: u8)
        ensures
            final(regs).reg_val(Reg::UsartDr) == byte as u32,
            forall|r: Reg| r != Reg::UsartDr ==> final(regs).reg_val(r) == old(regs).reg_val(r),
            final(regs).trace@ =~= old(regs).trace@ + byte_events(byte),
    {
        regs.write_reg(Reg::UsartDr, byte as u32);
        regs.wait_mask(Reg::UsartSr, 0x40);
    }

    /// Non-blocking poll of the receiver. Returns 0 both when no byte is
    /// available and when the received byte is itself 0: the two cases are
    /// indistinguishable to the caller, an ambiguity this interface keeps.
    pub fn read_byte(regs: &RegisterBank) -> (b: u8)
        ensures
            b == spec_read_byte(*regs),
    {
        if regs.read_reg(Reg::UsartSr) & 0x20 > 0 {
            let dr = regs.read_reg(Reg::UsartDr);
            proof {
                assert(dr as u8 == (dr & 0xFF) as u8) by (bit_vector);
            }
            dr as u8
        } else {
            0
        }
    }

    /// Send every byte of the string in order.
    pub fn print(regs: &mut RegisterBank, s: &str)
        ensures
            final(regs).trace@ =~= old(regs).trace@ + print_events(s.spec_bytes()),
            forall|r: Reg| r != Reg::UsartDr ==> final(regs).reg_val(r) == old(regs).reg_val(r),
            s.spec_bytes().len() > 0 ==> final(regs).reg_val(Reg::UsartDr) == s.spec_bytes().last()
                as u32,
            s.spec_bytes().len() == 0 ==> final(regs).reg_val(Reg::UsartDr) == old(regs).reg_val(
                Reg::UsartDr,
            ),
    {
        let bytes: &[u8] = s.as_bytes();
        let ghost regs0 = *regs;
        let n = bytes.len();
        let mut i: usize = 0;
        while i < n
            invariant
                i <= n,
                n == bytes@.len(),
                bytes@ == s.spec_bytes(),
                regs.trace@ =~= regs0.trace@ + print_events(bytes@.take(i as int)),
                forall|r: Reg| r != Reg::UsartDr ==> regs.reg_val(r) == regs0.reg_val(r),
                i > 0 ==> regs.reg_val(Reg::UsartDr) == bytes@[i - 1] as u32,
                i == 0 ==> regs.reg_val(Reg::UsartDr) == regs0.reg_val(Reg::UsartDr),
            decreases n - i,
        {
            let b = bytes[i];
            Serial::write_byte(regs, b);
            proof {
                lemma_print_events_snoc(bytes@.take(i as int), b);
                assert(bytes@.take(i as int).push(b) =~= bytes@.take(i as int + 1));
            }
            i = i + 1;
        }
        proof {
            assert(bytes@.take(n as int) =~= bytes@);
        }
    }

    /// Send the string, then line feed and carriage return.
    pub fn println(regs: &mut RegisterBank, s: &str)
        ensures
            final(regs).trace@ =~= old(regs).trace@ + print_events(s.spec_bytes()) + byte_events(
                0xA,
            ) + byte_events(0xD),
            forall|r: Reg| r != Reg::UsartDr ==> final(regs).reg_val(r) == old(regs).reg_val(r),
            final(regs).reg_val(Reg::UsartDr) == 0xD,
    {
        Serial::print(regs, s);
        Serial::new_line(regs);
    }

    /// Send line feed, then carriage return.
    pub fn new_line(regs: &mut RegisterBank)
        ensures
            final(regs).trace@ =~= old(regs).trace@ + byte_events(0xA) + byte_events(0xD),
            forall|r: Reg| r != Reg::UsartDr ==> final(regs).reg_val(r) == old(regs).reg_val(r),
            final(regs).reg_val(Reg::UsartDr) == 0xD,
    {
        Serial::write_byte(regs, 0xA);  // line feed
        Serial::write_byte(regs, 0xD);  // carriage return
    }

    /// Compute the divisor for the bus frequency of the high-speed
    /// peripheral bus and program the baud-rate register.
    pub fn set_baudrate_rs(regs: &mut RegisterBank, baudrate: u32)
        requires
            baudrate > 0,
        ensures
            final(regs).reg_val(Reg::UsartBrr) == brr_value(APB2_FREQUENCY, baudrate),
            forall|r: Reg| r != Reg::UsartBrr ==> final(regs).reg_val(r) == old(regs).reg_val(r),
            final(regs).trace@ =~= old(regs).trace@.push(
                Event::Write(Reg::UsartBrr, brr_value(APB2_FREQUENCY, baudrate)),
            ),
    {
        let d = baud_divisor(APB2_FREQUENCY, baudrate);
        regs.write_reg(Reg::UsartBrr, (d.0 << 4u32) | d.1);
    }

    /// Enable the UART: set the enable bit (control bit 13).
    pub fn enable(regs: &mut RegisterBank)
        ensures
            final(regs).reg_val(Reg::UsartCr1) == (old(regs).reg_val(Reg::UsartCr1) | 0x2000),
            forall|r: Reg| r != Reg::UsartCr1 ==> final(regs).reg_val(r) == old(regs).reg_val(r),
            final(regs).trace@ =~= old(regs).trace@.push(
                Event::Write(Reg::UsartCr1, old(regs).reg_val(Reg::UsartCr1) | 0x2000),
            ),
    {
        regs.set_bits(Reg::UsartCr1, 0x2000);
    }

    /// Disable the UART: clear the enable bit (control bit 13).
    pub fn disable(regs: &mut RegisterBank)
        ensures
            final(regs).reg_val(Reg::UsartCr1) == (old(regs).reg_val(Reg::UsartCr1) & !0x2000u32),
            forall|r: Reg| r != Reg::UsartCr1 ==> final(regs).reg_val(r) == old(regs).reg_val(r),
            final(regs).trace@ =~= old(regs).trace@.push(
                Event::Write(Reg::UsartCr1, old(regs).reg_val(Reg::UsartCr1) & !0x2000u32),
            ),
    {
        regs.clear_bits(Reg::UsartCr1, 0x2000);
    }

    /// Enable the clock gates of the UART (bit 14) and of the alternate
    /// function remap controller (bit 0).
    fn enable_clock(regs: &mut RegisterBank)
        ensures
            final(regs).reg_val(Reg::RccApb2enr) == ((old(regs).reg_val(Reg::RccApb2enr) | 0x4000)
                | 1),
            forall|r: Reg| r != Reg::RccApb2enr ==> final(regs).reg_val(r) == old(regs).reg_val(r),
            final(regs).trace@ =~= old(regs).trace@.push(
                Event::Write(Reg::RccApb2enr, old(regs).reg_val(Reg::RccApb2enr) | 0x4000),
            ).push(
                Event::Write(Reg::RccApb2enr, (old(regs).reg_val(Reg::RccApb2enr) | 0x4000) | 1),
            ),
    {
        regs.set_bits(Reg::RccApb2enr, 0x4000);
        regs.set_bits(Reg::RccApb2enr, 1);
    }

    /// Configure the two UART pins — transmit on bank A pin 9, receive on
    /// bank A pin 10 — with the shared alternate-push-pull configuration.
    pub fn configure_ports(regs: &mut RegisterBank)
        ensures
            final(regs).reg_val(Reg::RccApb2enr) == ((old(regs).reg_val(Reg::RccApb2enr) | 4) | 4),
            final(regs).reg_val(Reg::GpioCrh(GPIOPORT::GPIOA)) == configured_ctrl(
                configured_ctrl(old(regs).gpio_a.crh, 4, 2, 3),
                8,
                2,
                3,
            ),
            forall|r: Reg|
                r != Reg::RccApb2enr && r != Reg::GpioCrh(GPIOPORT::GPIOA) ==> final(regs).reg_val(
                    r,
                ) == old(regs).reg_val(r),
            final(regs).trace@ =~= old(regs).trace@ + configure_events(
                old(regs).reg_val(Reg::RccApb2enr),
                old(regs).gpio_a,
                GPIOPORT::GPIOA,
                serial_pin_config(),
                9,
            ) + configure_events(
                old(regs).reg_val(Reg::RccApb2enr) | 4,
                GpioRegs { crh: configured_ctrl(old(regs).gpio_a.crh, 4, 2, 3), ..old(regs).gpio_a },
                GPIOPORT::GPIOA,
                serial_pin_config(),
                10,
            ),
    {
        let tx_pin = Gpio { port: GPIOPORT::GPIOA, pin_number: 9 };
        let rx_pin = Gpio { port: GPIOPORT::GPIOA, pin_number: 10 };
        tx_pin.configure(regs, serial_type_gpio());
        rx_pin.configure(regs, serial_type_gpio());
    }

    /// Write the default guard-time/prescaler value, then enable the
    /// transmitter (control bit 3) and the receiver (control bit 2).
    fn configure_registers(regs: &mut RegisterBank)
        ensures
            final(regs).reg_val(Reg::UsartGtpr) == (old(regs).reg_val(Reg::UsartGtpr) | 1),
            final(regs).reg_val(Reg::UsartCr1) == ((old(regs).reg_val(Reg::UsartCr1) | 8) | 4),
            forall|r: Reg|
                r != Reg::UsartGtpr && r != Reg::UsartCr1 ==> final(regs).reg_val(r) == old(
                    regs,
                ).reg_val(r),
            final(regs).trace@ =~= old(regs).trace@.push(
                Event::Write(Reg::UsartGtpr, old(regs).reg_val(Reg::UsartGtpr) | 1),
            ).push(Event::Write(Reg::UsartCr1, old(regs).reg_val(Reg::UsartCr1) | 8)).push(
                Event::Write(Reg::UsartCr1, (old(regs).reg_val(Reg::UsartCr1) | 8) | 4),
            ),
    {
        regs.set_bits(Reg::UsartGtpr, 1);
        regs.set_bits(Reg::UsartCr1, 8);
        regs.set_bits(Reg::UsartCr1, 4);
    }
}

/// The shared pin configuration applied to both UART pins: alternate
/// push-pull output at the maximum slew rate, no pull.
pub open spec fn serial_pin_config() -> GpioConfig {
    GpioConfig {
        config: CONFIG::InputWithPullUpPullDownOrAlternateFuncOutputPushPull,
        mode: MODE::Output50Mhz,
        pull: None,
    }
}

/// The exec value of the shared UART pin configuration.
fn serial_type_gpio() -> (c: GpioConfig)
    ensures
        c == serial_pin_config(),
{
    GpioConfig {
        config: CONFIG::InputWithPullUpPullDownOrAlternateFuncOutputPushPull,
        mode: MODE::Output50Mhz,
        pull: None,
    }
}

} // verus!
