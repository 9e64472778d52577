use bluepill::gpio::{CONFIG, GPIOPORT, Gpio, GpioConfig, MODE, PULL};
use bluepill::regs::{Event, Reg, RegisterBank};

fn all_configs() -> Vec<(CONFIG, u32)> {
    vec![
        (CONFIG::AnalogModeOrGeneralPurposeOutputPushPull, 0),
        (CONFIG::FloatingInputOrGeneralPurposeOpenDrain, 1),
        (CONFIG::InputWithPullUpPullDownOrAlternateFuncOutputPushPull, 2),
        (CONFIG::AlternateFunctionOutputOpenDrain, 3),
    ]
}

fn all_modes() -> Vec<(MODE, u32)> {
    vec![
        (MODE::Input, 0),
        (MODE::Output10Mhz, 1),
        (MODE::Output2Mhz, 2),
        (MODE::Output50Mhz, 3),
    ]
}

#[test]
fn field_value_encodings() {
    for (c, expected) in all_configs() {
        let g = GpioConfig { config: c, mode: MODE::Input, pull: None };
        assert_eq!(g.config_as_u32(), expected);
    }
    for (m, expected) in all_modes() {
        let g = GpioConfig {
            config: CONFIG::AnalogModeOrGeneralPurposeOutputPushPull,
            mode: m,
            pull: None,
        };
        assert_eq!(g.mode_as_u32(), expected);
    }
    let down = GpioConfig {
        config: CONFIG::InputWithPullUpPullDownOrAlternateFuncOutputPushPull,
        mode: MODE::Input,
        pull: Some(PULL::PullDown),
    };
    assert_eq!(down.pull_as_u32(), 0);
    let up = GpioConfig {
        config: CONFIG::InputWithPullUpPullDownOrAlternateFuncOutputPushPull,
        mode: MODE::Input,
        pull: Some(PULL::PullUp),
    };
    assert_eq!(up.pull_as_u32(), 1);
    let none = GpioConfig {
        config: CONFIG::InputWithPullUpPullDownOrAlternateFuncOutputPushPull,
        mode: MODE::Input,
        pull: None,
    };
    assert_eq!(none.pull_as_u32(), 0);
}

#[test]
fn configure_writes_exact_nibble_for_every_pin_and_config() {
    for pin in 0u32..16 {
        for (c, cnf) in all_configs() {
            for (m, mode) in all_modes() {
                let mut bank = RegisterBank::new();
                // Stale bits everywhere: clear-before-set must remove them
                // in the pin's own nibble and keep them everywhere else.
                bank.gpio_b.crl = 0xFFFF_FFFF;
                bank.gpio_b.crh = 0xFFFF_FFFF;
                let gpio = Gpio { port: GPIOPORT::GPIOB, pin_number: pin };
                gpio.configure(&mut bank, GpioConfig { config: c, mode: m, pull: None });
                let (reg, offset) = if pin > 7 {
                    (bank.gpio_b.crh, pin * 4 - 32)
                } else {
                    (bank.gpio_b.crl, pin * 4)
                };
                let expected_nibble = (cnf << 2) | mode;
                assert_eq!((reg >> offset) & 0xF, expected_nibble);
                for j in 0..8u32 {
                    if j * 4 != offset {
                        assert_eq!((reg >> (j * 4)) & 0xF, 0xF);
                    }
                }
            }
        }
    }
}

#[test]
fn configure_targets_low_register_for_pins_0_to_7_and_high_above() {
    for pin in 0u32..16 {
        let mut bank = RegisterBank::new();
        let gpio = Gpio { port: GPIOPORT::GPIOA, pin_number: pin };
        gpio.configure(
            &mut bank,
            GpioConfig {
                config: CONFIG::AlternateFunctionOutputOpenDrain,
                mode: MODE::Output50Mhz,
                pull: None,
            },
        );
        if pin <= 7 {
            assert_eq!(bank.gpio_a.crl, 0xF << (pin * 4));
            assert_eq!(bank.gpio_a.crh, 0);
        } else {
            assert_eq!(bank.gpio_a.crl, 0);
            assert_eq!(bank.gpio_a.crh, 0xF << (pin * 4 - 32));
        }
    }
}

#[test]
fn pull_bit_written_iff_pulled_input_config_and_pull_supplied() {
    // Pulled-input configuration with an explicit pull-up: bit written.
    let mut bank = RegisterBank::new();
    let gpio = Gpio { port: GPIOPORT::GPIOC, pin_number: 5 };
    gpio.configure(
        &mut bank,
        GpioConfig {
            config: CONFIG::InputWithPullUpPullDownOrAlternateFuncOutputPushPull,
            mode: MODE::Input,
            pull: Some(PULL::PullUp),
        },
    );
    assert_eq!(bank.gpio_c.odr, 1 << 5);
    let odr_writes = bank
        .trace
        .iter()
        .filter(|e| matches!(e, Event::Write(Reg::GpioOdr(GPIOPORT::GPIOC), _)))
        .count();
    assert_eq!(odr_writes, 1);

    // Pull-down leaves the bit at zero but still writes the register.
    let mut bank = RegisterBank::new();
    gpio.configure(
        &mut bank,
        GpioConfig {
            config: CONFIG::InputWithPullUpPullDownOrAlternateFuncOutputPushPull,
            mode: MODE::Input,
            pull: Some(PULL::PullDown),
        },
    );
    assert_eq!(bank.gpio_c.odr, 0);
    let odr_writes = bank
        .trace
        .iter()
        .filter(|e| matches!(e, Event::Write(Reg::GpioOdr(GPIOPORT::GPIOC), _)))
        .count();
    assert_eq!(odr_writes, 1);

    // Pull-down clears the pin's bit even when it was set before, and
    // leaves every other bit of the register alone.
    let mut bank = RegisterBank::new();
    bank.gpio_c.odr = 0xFFFF_FFFF;
    gpio.configure(
        &mut bank,
        GpioConfig {
            config: CONFIG::InputWithPullUpPullDownOrAlternateFuncOutputPushPull,
            mode: MODE::Input,
            pull: Some(PULL::PullDown),
        },
    );
    assert_eq!(bank.gpio_c.odr, 0xFFFF_FFFF & !(1 << 5));

    // Pull-up keeps an already-set bit set.
    let mut bank = RegisterBank::new();
    bank.gpio_c.odr = 0xFFFF_FFFF;
    gpio.configure(
        &mut bank,
        GpioConfig {
            config: CONFIG::InputWithPullUpPullDownOrAlternateFuncOutputPushPull,
            mode: MODE::Input,
            pull: Some(PULL::PullUp),
        },
    );
    assert_eq!(bank.gpio_c.odr, 0xFFFF_FFFF);

    // Every other mode-and-pull combination leaves the register untouched.
    let untouched = [
        (CONFIG::InputWithPullUpPullDownOrAlternateFuncOutputPushPull, None),
        (CONFIG::AnalogModeOrGeneralPurposeOutputPushPull, Some(PULL::PullUp)),
        (CONFIG::FloatingInputOrGeneralPurposeOpenDrain, Some(PULL::PullUp)),
        (CONFIG::AlternateFunctionOutputOpenDrain, Some(PULL::PullUp)),
        (CONFIG::AnalogModeOrGeneralPurposeOutputPushPull, None),
    ];
    for (c, p) in untouched {
        let mut bank = RegisterBank::new();
        gpio.configure(&mut bank, GpioConfig { config: c, mode: MODE::Input, pull: p });
        assert_eq!(bank.gpio_c.odr, 0);
        let odr_writes = bank
            .trace
            .iter()
            .filter(|e| matches!(e, Event::Write(Reg::GpioOdr(GPIOPORT::GPIOC), _)))
            .count();
        assert_eq!(odr_writes, 0);
    }
}

#[test]
fn set_writes_exactly_one_bit() {
    for pin in 0u32..16 {
        let mut bank = RegisterBank::new();
        let gpio = Gpio { port: GPIOPORT::GPIOA, pin_number: pin };
        gpio.set(&mut bank, true);
        assert_eq!(bank.gpio_a.bsrr, 1 << pin);
        gpio.set(&mut bank, false);
        assert_eq!(bank.gpio_a.bsrr, 1 << (pin + 16));
    }
}

#[test]
fn high_and_low_match_set() {
    let mut bank = RegisterBank::new();
    let led = Gpio { port: GPIOPORT::GPIOC, pin_number: 13 };
    led.high(&mut bank);
    assert_eq!(bank.gpio_c.bsrr, 1 << 13);
    led.low(&mut bank);
    assert_eq!(bank.gpio_c.bsrr, 1 << 29);
    assert_eq!(
        bank.trace,
        vec![
            Event::Write(Reg::GpioBsrr(GPIOPORT::GPIOC), 1 << 13),
            Event::Write(Reg::GpioBsrr(GPIOPORT::GPIOC), 1 << 29),
        ]
    );
}

#[test]
fn configure_enables_the_port_clock_gate_for_every_bank() {
    let ports = [
        (GPIOPORT::GPIOA, 1u32 << 2),
        (GPIOPORT::GPIOB, 1 << 3),
        (GPIOPORT::GPIOC, 1 << 4),
        (GPIOPORT::GPIOD, 1 << 5),
        (GPIOPORT::GPIOE, 1 << 6),
        (GPIOPORT::GPIOF, 1 << 7),
        (GPIOPORT::GPIOG, 1 << 8),
    ];
    for (port, mask) in ports {
        let mut bank = RegisterBank::new();
        let gpio = Gpio { port, pin_number: 0 };
        gpio.configure(
            &mut bank,
            GpioConfig {
                config: CONFIG::AnalogModeOrGeneralPurposeOutputPushPull,
                mode: MODE::Output10Mhz,
                pull: None,
            },
        );
        assert_eq!(bank.rcc_apb2enr, mask);
    }
}
