use hd44780_driver::{
    DataBus, EightBitBus, EightBitBusPins, Error, FourBitBus, FourBitBusPins, Port, Signal,
    ENABLE_HOLD_MS,
};

fn pin(port: Port, high: bool) -> Signal {
    Signal::Pin { port, high }
}

fn pulse() -> Vec<Signal> {
    vec![pin(Port::EN, true), Signal::Hold { ms: 2 }, pin(Port::EN, false)]
}

fn four_bit() -> FourBitBus<u8, u8, u8, u8, u8, u8> {
    FourBitBus::from_pins(FourBitBusPins { rs: 1, en: 2, d4: 3, d5: 4, d6: 5, d7: 6 })
}

fn eight_bit() -> EightBitBus<u8, u8, u8, u8, u8, u8, u8, u8, u8, u8> {
    EightBitBus::from_pins(EightBitBusPins {
        rs: 1,
        en: 2,
        d0: 3,
        d1: 4,
        d2: 5,
        d3: 6,
        d4: 7,
        d5: 8,
        d6: 9,
        d7: 10,
    })
}

#[test]
fn hold_time_is_two_milliseconds() {
    assert_eq!(ENABLE_HOLD_MS, 2);
}

#[test]
fn four_bit_data_write_sends_upper_nibble_first() {
    let mut bus = four_bit();
    let (trace, result) = bus.write(0x41, true).dry_run::<()>(None);
    assert!(result.is_ok());
    let mut expected = vec![
        pin(Port::RS, true),
        pin(Port::D4, false),
        pin(Port::D5, false),
        pin(Port::D6, true),
        pin(Port::D7, false),
    ];
    expected.extend(pulse());
    expected.extend(vec![
        pin(Port::D4, true),
        pin(Port::D5, false),
        pin(Port::D6, false),
        pin(Port::D7, false),
    ]);
    expected.extend(pulse());
    expected.push(pin(Port::RS, false));
    assert_eq!(trace, expected);
}

#[test]
fn four_bit_command_write_never_raises_register_select() {
    let mut bus = four_bit();
    let (trace, result) = bus.write(0b1010_0101, false).dry_run::<()>(None);
    assert!(result.is_ok());
    let mut expected = vec![
        pin(Port::RS, false),
        pin(Port::D4, false),
        pin(Port::D5, true),
        pin(Port::D6, false),
        pin(Port::D7, true),
    ];
    expected.extend(pulse());
    expected.extend(vec![
        pin(Port::D4, true),
        pin(Port::D5, false),
        pin(Port::D6, true),
        pin(Port::D7, false),
    ]);
    expected.extend(pulse());
    assert_eq!(trace, expected);
    assert_eq!(trace.len(), 15);
}

#[test]
fn four_bit_write_pulses_enable_twice() {
    for byte in [0x00u8, 0x0F, 0xF0, 0xFF, 0x5A] {
        for data in [false, true] {
            let mut bus = four_bit();
            let (trace, _) = bus.write(byte, data).dry_run::<()>(None);
            let enable: Vec<Signal> = trace
                .iter()
                .copied()
                .filter(|s| matches!(s, Signal::Pin { port: Port::EN, .. } | Signal::Hold { .. }))
                .collect();
            let mut expected = pulse();
            expected.extend(pulse());
            assert_eq!(enable, expected);
        }
    }
}

#[test]
fn four_bit_write_shows_every_byte_as_two_nibbles() {
    for byte in 0..=255u8 {
        let mut bus = four_bit();
        let (trace, _) = bus.write(byte, false).dry_run::<()>(None);
        let mut nibbles: Vec<u8> = Vec::new();
        let mut lines: u8 = 0;
        for signal in trace {
            match signal {
                Signal::Pin { port: Port::D4, high } => lines = (lines & !1) | (high as u8),
                Signal::Pin { port: Port::D5, high } => lines = (lines & !2) | ((high as u8) << 1),
                Signal::Pin { port: Port::D6, high } => lines = (lines & !4) | ((high as u8) << 2),
                Signal::Pin { port: Port::D7, high } => lines = (lines & !8) | ((high as u8) << 3),
                Signal::Pin { port: Port::EN, high: false } => nibbles.push(lines),
                _ => {}
            }
        }
        assert_eq!(nibbles, vec![byte >> 4, byte & 0x0F]);
    }
}

#[test]
fn failure_on_d6_in_upper_nibble_aborts_before_enable() {
    let mut bus = four_bit();
    let (trace, result) = bus.write(0x41, true).dry_run(Some((3, "stuck")));
    match result {
        Err(Error::Io { port, error }) => {
            assert_eq!(port, Port::D6);
            assert_eq!(error, "stuck");
        }
        Ok(()) => panic!("the write went through"),
    }
    assert_eq!(
        trace,
        vec![
            pin(Port::RS, true),
            pin(Port::D4, false),
            pin(Port::D5, false),
            pin(Port::D6, true),
        ]
    );
    assert!(!trace.iter().any(|s| matches!(s, Signal::Pin { port: Port::EN, .. })));
}

#[test]
fn failure_on_enable_is_tagged_with_enable() {
    let mut bus = four_bit();
    let (trace, result) = bus.write(0x00, false).dry_run(Some((7, 5u32)));
    match result {
        Err(error) => {
            assert_eq!(error.port(), Port::EN);
            assert_eq!(error.into_inner(), 5);
        }
        Ok(()) => panic!("the write went through"),
    }
    assert_eq!(trace.len(), 8);
    assert_eq!(trace[7], pin(Port::EN, false));
}

#[test]
fn failure_on_register_select_release_is_tagged_with_register_select() {
    let mut bus = four_bit();
    let (trace, result) = bus.write(0x00, true).dry_run(Some((15, ())));
    assert!(matches!(result, Err(Error::Io { port: Port::RS, error: () })));
    assert_eq!(trace.len(), 16);
}

#[test]
fn a_hold_cannot_fail() {
    let mut bus = four_bit();
    let (trace, result) = bus.write(0x12, true).dry_run(Some((6, ())));
    assert!(result.is_ok());
    assert_eq!(trace.len(), 16);
}

#[test]
fn a_failure_behind_the_last_signal_never_happens() {
    let mut bus = four_bit();
    let (trace, result) = bus.write(0x12, false).dry_run(Some((15, ())));
    assert!(result.is_ok());
    assert_eq!(trace.len(), 15);
}

#[test]
fn four_bit_backlight_is_a_no_op() {
    let mut bus = four_bit();
    for state in [false, true] {
        let transfer = bus.set_backlight(state);
        assert_eq!(transfer.remaining(), 0);
        let (trace, result) = transfer.dry_run::<()>(None);
        assert!(trace.is_empty());
        assert!(result.is_ok());
    }
}

#[test]
fn four_bit_bus_gives_its_pins_back() {
    let mut bus = four_bit();
    bus.pins_mut().d6 = 50;
    let _ = bus.write(0x33, true);
    let pins = bus.destroy();
    assert_eq!((pins.rs, pins.en, pins.d4, pins.d5, pins.d6, pins.d7), (1, 2, 3, 4, 50, 6));
}

#[test]
fn eight_bit_data_write_shows_the_whole_byte_once() {
    let mut bus = eight_bit();
    let (trace, result) = bus.write(0x41, true).dry_run::<()>(None);
    assert!(result.is_ok());
    let mut expected = vec![
        pin(Port::RS, true),
        pin(Port::D0, true),
        pin(Port::D1, false),
        pin(Port::D2, false),
        pin(Port::D3, false),
        pin(Port::D4, false),
        pin(Port::D5, false),
        pin(Port::D6, true),
        pin(Port::D7, false),
    ];
    expected.extend(pulse());
    expected.push(pin(Port::RS, false));
    assert_eq!(trace, expected);
}

#[test]
fn eight_bit_command_write_pulses_enable_once() {
    let mut bus = eight_bit();
    let (trace, result) = bus.write(0b1000_0010, false).dry_run::<()>(None);
    assert!(result.is_ok());
    assert_eq!(trace.len(), 12);
    assert_eq!(trace[0], pin(Port::RS, false));
    assert_eq!(trace[2], pin(Port::D1, true));
    assert_eq!(trace[8], pin(Port::D7, true));
    assert_eq!(trace[9..].to_vec(), pulse());
    let rising = trace.iter().filter(|s| **s == pin(Port::EN, true)).count();
    assert_eq!(rising, 1);
}

#[test]
fn eight_bit_failure_on_d0_is_tagged_with_d0() {
    let mut bus = eight_bit();
    let (trace, result) = bus.write(0xFF, false).dry_run(Some((1, 9i32)));
    assert!(matches!(result, Err(Error::Io { port: Port::D0, error: 9 })));
    assert_eq!(trace, vec![pin(Port::RS, false), pin(Port::D0, true)]);
}

#[test]
fn eight_bit_backlight_is_a_no_op() {
    let mut bus = eight_bit();
    let (trace, result) = bus.set_backlight(true).dry_run::<()>(None);
    assert!(trace.is_empty());
    assert!(result.is_ok());
}

#[test]
fn eight_bit_bus_gives_its_pins_back() {
    let mut bus = eight_bit();
    bus.pins_mut().d0 = 30;
    let pins = bus.destroy();
    assert_eq!(pins.d0, 30);
    assert_eq!(pins.d7, 10);
}
