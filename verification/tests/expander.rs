use hd44780_driver::bus::i2c::{BACKLIGHT, ENABLE, REGISTER_SELECT};
use hd44780_driver::{DataBus, Error, Frame, I2CBus, Port, Signal};

fn bus_write(address: u8, frame: Frame) -> Signal {
    Signal::Bus { address, frame }
}

fn frames(trace: &[Signal]) -> Vec<(u8, Vec<u8>)> {
    let mut found = Vec::new();
    for signal in trace {
        if let Signal::Bus { address, frame } = signal {
            found.push((*address, frame.to_vec()));
        }
    }
    found
}

#[test]
fn expander_bits_are_where_the_wiring_has_them() {
    assert_eq!(BACKLIGHT, 0x08);
    assert_eq!(ENABLE, 0x04);
    assert_eq!(REGISTER_SELECT, 0x01);
}

#[test]
fn new_bus_has_backlight_on() {
    let bus = I2CBus::new((), 0x27);
    assert!(bus.backlight());
    assert_eq!(bus.address(), 0x27);
}

#[test]
fn letter_a_as_data_with_backlight_on() {
    let mut bus = I2CBus::new((), 0x27);
    let (trace, result) = bus.write(0x41, true).dry_run::<()>(None);
    assert!(result.is_ok());
    assert_eq!(
        trace,
        vec![
            bus_write(0x27, Frame::Pair(0x49, 0x4D)),
            Signal::Hold { ms: 2 },
            bus_write(0x27, Frame::Single(0x49)),
            bus_write(0x27, Frame::Pair(0x19, 0x1D)),
            Signal::Hold { ms: 2 },
            bus_write(0x27, Frame::Single(0x19)),
        ]
    );
}

#[test]
fn write_issues_four_bus_writes_to_the_address() {
    for byte in [0x00u8, 0x38, 0xC3, 0xFF] {
        for data in [false, true] {
            let mut bus = I2CBus::new((), 0x3F);
            let (trace, _) = bus.write(byte, data).dry_run::<()>(None);
            let writes = frames(&trace);
            assert_eq!(writes.len(), 4);
            for (address, _) in &writes {
                assert_eq!(*address, 0x3F);
            }
            assert_eq!(writes[0].1.len(), 2);
            assert_eq!(writes[1].1.len(), 1);
            assert_eq!(writes[2].1.len(), 2);
            assert_eq!(writes[3].1.len(), 1);
            assert_eq!(writes[0].1[1] & ENABLE, ENABLE);
            assert_eq!(writes[2].1[1] & ENABLE, ENABLE);
            assert_eq!(writes[0].1[0] & ENABLE, 0);
            assert_eq!(writes[1].1[0] & ENABLE, 0);
            assert_eq!(writes[2].1[0] & ENABLE, 0);
            assert_eq!(writes[3].1[0] & ENABLE, 0);
            for (_, bytes) in &writes {
                for b in bytes {
                    assert_eq!(b & BACKLIGHT, BACKLIGHT);
                    assert_eq!(b & REGISTER_SELECT != 0, data);
                }
            }
            assert_eq!(writes[0].1[0] >> 4, byte >> 4);
            assert_eq!(writes[2].1[0] >> 4, byte & 0x0F);
        }
    }
}

#[test]
fn command_write_with_backlight_off() {
    let mut bus = I2CBus::new((), 0x20);
    let _ = bus.set_backlight(false);
    let (trace, result) = bus.write(0x2C, false).dry_run::<()>(None);
    assert!(result.is_ok());
    assert_eq!(
        trace,
        vec![
            bus_write(0x20, Frame::Pair(0x20, 0x24)),
            Signal::Hold { ms: 2 },
            bus_write(0x20, Frame::Single(0x20)),
            bus_write(0x20, Frame::Pair(0xC0, 0xC4)),
            Signal::Hold { ms: 2 },
            bus_write(0x20, Frame::Single(0xC0)),
        ]
    );
}

#[test]
fn set_backlight_pushes_an_empty_command() {
    let mut bus = I2CBus::new((), 0x27);
    let (trace, result) = bus.set_backlight(false).dry_run::<()>(None);
    assert!(result.is_ok());
    assert!(!bus.backlight());
    assert_eq!(
        trace,
        vec![
            bus_write(0x27, Frame::Pair(0x00, 0x04)),
            Signal::Hold { ms: 2 },
            bus_write(0x27, Frame::Single(0x00)),
            bus_write(0x27, Frame::Pair(0x00, 0x04)),
            Signal::Hold { ms: 2 },
            bus_write(0x27, Frame::Single(0x00)),
        ]
    );
    let (trace, _) = bus.set_backlight(true).dry_run::<()>(None);
    assert!(bus.backlight());
    assert_eq!(
        trace,
        vec![
            bus_write(0x27, Frame::Pair(0x08, 0x0C)),
            Signal::Hold { ms: 2 },
            bus_write(0x27, Frame::Single(0x08)),
            bus_write(0x27, Frame::Pair(0x08, 0x0C)),
            Signal::Hold { ms: 2 },
            bus_write(0x27, Frame::Single(0x08)),
        ]
    );
}

#[test]
fn backlight_off_then_on_round_trips() {
    let mut bus = I2CBus::new((), 0x27);
    let _ = bus.set_backlight(false);
    let _ = bus.set_backlight(true);
    let (trace, _) = bus.write(0x41, true).dry_run::<()>(None);
    for (_, bytes) in frames(&trace) {
        for b in bytes {
            assert_eq!(b & BACKLIGHT, BACKLIGHT);
        }
    }
    let mut fresh = I2CBus::new((), 0x27);
    let (expected, _) = fresh.write(0x41, true).dry_run::<()>(None);
    assert_eq!(trace, expected);
}

#[test]
fn set_backlight_twice_gives_the_same_bytes() {
    for state in [false, true] {
        let mut bus = I2CBus::new((), 0x27);
        let (first, _) = bus.set_backlight(state).dry_run::<()>(None);
        let (second, _) = bus.set_backlight(state).dry_run::<()>(None);
        assert_eq!(first, second);
        assert_eq!(bus.backlight(), state);
    }
}

#[test]
fn failure_of_the_second_bus_write_is_tagged_with_the_bus() {
    let mut bus = I2CBus::new((), 0x27);
    let (trace, result) = bus.write(0x41, true).dry_run(Some((2, "nack")));
    match result {
        Err(Error::Io { port, error }) => {
            assert_eq!(port, Port::I2C);
            assert_eq!(error, "nack");
        }
        Ok(()) => panic!("the write went through"),
    }
    assert_eq!(
        trace,
        vec![
            bus_write(0x27, Frame::Pair(0x49, 0x4D)),
            Signal::Hold { ms: 2 },
            bus_write(0x27, Frame::Single(0x49)),
        ]
    );
}

#[test]
fn bus_handle_comes_back() {
    let mut bus = I2CBus::new(vec![1u8, 2, 3], 0x27);
    bus.bus_mut().push(4);
    let _ = bus.set_backlight(false);
    assert_eq!(bus.address(), 0x27);
    assert_eq!(bus.destroy(), vec![1, 2, 3, 4]);
}
