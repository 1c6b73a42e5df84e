use hd44780_driver::{
    DataBus, Error, FourBitBus, FourBitBusPins, Frame, I2CBus, Port, Signal, Step, Transfer,
};

fn sample_signals() -> Vec<Signal> {
    vec![
        Signal::Pin { port: Port::RS, high: true },
        Signal::Hold { ms: 7 },
        Signal::Bus { address: 0x27, frame: Frame::Pair(1, 2) },
    ]
}

#[test]
fn transfer_hands_out_its_signals_in_order() {
    let transfer = Transfer::new(sample_signals());
    assert_eq!(transfer.remaining(), 3);
    let transfer = match transfer.advance() {
        Step::Pin { port, high, pending } => {
            assert_eq!(port, Port::RS);
            assert!(high);
            match pending.settle::<()>(Ok(())) {
                Ok(rest) => rest,
                Err(_) => panic!("a success was reported"),
            }
        }
        _ => panic!("the first signal drives a pin"),
    };
    assert_eq!(transfer.remaining(), 2);
    let transfer = match transfer.advance() {
        Step::Hold { ms, rest } => {
            assert_eq!(ms, 7);
            rest
        }
        _ => panic!("the second signal is a hold"),
    };
    assert_eq!(transfer.remaining(), 1);
    let transfer = match transfer.advance() {
        Step::Bus { address, frame, pending } => {
            assert_eq!(address, 0x27);
            assert_eq!(frame, Frame::Pair(1, 2));
            match pending.settle::<()>(Ok(())) {
                Ok(rest) => rest,
                Err(_) => panic!("a success was reported"),
            }
        }
        _ => panic!("the third signal is a bus write"),
    };
    assert_eq!(transfer.remaining(), 0);
    assert!(matches!(transfer.advance(), Step::Done));
}

#[test]
fn empty_transfer_is_done_at_once() {
    let transfer = Transfer::new(Vec::new());
    assert_eq!(transfer.remaining(), 0);
    assert!(matches!(transfer.advance(), Step::Done));
}

#[test]
fn settle_tags_a_pin_failure_with_its_port() {
    let transfer = Transfer::new(vec![Signal::Pin { port: Port::D3, high: false }]);
    match transfer.advance() {
        Step::Pin { pending, .. } => match pending.settle(Err(17u8)) {
            Err(Error::Io { port, error }) => {
                assert_eq!(port, Port::D3);
                assert_eq!(error, 17);
            }
            Ok(_) => panic!("a failure was reported"),
        },
        _ => panic!("the signal drives a pin"),
    }
}

#[test]
fn settle_tags_a_bus_failure_with_the_bus() {
    let transfer =
        Transfer::new(vec![Signal::Bus { address: 0x10, frame: Frame::Single(0xAA) }]);
    match transfer.advance() {
        Step::Bus { pending, .. } => {
            assert!(matches!(
                pending.settle(Err("lost")),
                Err(Error::Io { port: Port::I2C, error: "lost" })
            ));
        }
        _ => panic!("the signal is a bus write"),
    }
}

#[test]
fn dry_run_without_fault_performs_everything() {
    let (trace, result) = Transfer::new(sample_signals()).dry_run::<()>(None);
    assert_eq!(trace, sample_signals());
    assert!(result.is_ok());
}

#[test]
fn dry_run_stops_at_the_fault() {
    let (trace, result) = Transfer::new(sample_signals()).dry_run(Some((0, 'x')));
    assert_eq!(trace, sample_signals()[..1].to_vec());
    assert!(matches!(result, Err(Error::Io { port: Port::RS, error: 'x' })));
}

#[test]
fn dry_run_ignores_a_fault_on_a_hold() {
    let (trace, result) = Transfer::new(sample_signals()).dry_run(Some((1, 'x')));
    assert_eq!(trace, sample_signals());
    assert!(result.is_ok());
}

#[test]
fn dry_run_of_a_transfer_under_way_starts_where_it_stands() {
    let transfer = Transfer::new(sample_signals());
    let rest = match transfer.advance() {
        Step::Pin { pending, .. } => match pending.settle::<char>(Ok(())) {
            Ok(rest) => rest,
            Err(_) => panic!("a success was reported"),
        },
        _ => panic!("the first signal drives a pin"),
    };
    let (trace, result) = rest.dry_run(Some((1, 'y')));
    assert_eq!(trace, sample_signals()[1..].to_vec());
    assert!(matches!(result, Err(Error::Io { port: Port::I2C, error: 'y' })));
}

#[test]
fn wrap_io_keeps_port_and_error() {
    let error = Error::wrap_io(Port::EN, 3u16);
    assert_eq!(error.port(), Port::EN);
    assert_eq!(error.into_inner(), 3);
}

#[test]
fn frame_bytes_come_in_sending_order() {
    assert_eq!(Frame::Single(9).to_vec(), vec![9]);
    assert_eq!(Frame::Pair(9, 13).to_vec(), vec![9, 13]);
    assert_eq!(Frame::Single(9).last(), 9);
    assert_eq!(Frame::Pair(9, 13).last(), 13);
}

#[test]
fn signal_port_names_what_can_fail() {
    assert_eq!(Signal::Pin { port: Port::D7, high: true }.port(), Some(Port::D7));
    assert_eq!(Signal::Bus { address: 1, frame: Frame::Single(0) }.port(), Some(Port::I2C));
    assert_eq!(Signal::Hold { ms: 2 }.port(), None);
}

#[test]
fn four_bit_write_given_up_in_the_first_hold_leaves_enable_high() {
    let mut bus =
        FourBitBus::from_pins(FourBitBusPins { rs: (), en: (), d4: (), d5: (), d6: (), d7: () });
    let mut transfer = bus.write(0x41, true);
    let mut enable = false;
    let mut register_select = false;
    let mut falls = 0;
    let left = loop {
        transfer = match transfer.advance() {
            Step::Pin { port, high, pending } => {
                match port {
                    Port::EN => {
                        if enable && !high {
                            falls += 1;
                        }
                        enable = high;
                    }
                    Port::RS => register_select = high,
                    _ => {}
                }
                match pending.settle::<()>(Ok(())) {
                    Ok(rest) => rest,
                    Err(_) => panic!("a success was reported"),
                }
            }
            Step::Hold { rest, .. } => break rest.remaining(),
            Step::Bus { .. } => panic!("a parallel transport plans no bus write"),
            Step::Done => panic!("the write has a hold in it"),
        };
    };
    assert!(enable);
    assert!(register_select);
    assert_eq!(falls, 0);
    assert_eq!(left, 9);
}

#[test]
fn expander_write_given_up_in_the_second_hold_has_sent_one_nibble() {
    let mut bus = I2CBus::new((), 0x27);
    let mut transfer = bus.write(0x41, false);
    let mut outputs: Vec<u8> = Vec::new();
    let mut holds = 0;
    loop {
        transfer = match transfer.advance() {
            Step::Bus { frame, pending, .. } => {
                outputs.extend(frame.to_vec());
                match pending.settle::<()>(Ok(())) {
                    Ok(rest) => rest,
                    Err(_) => panic!("a success was reported"),
                }
            }
            Step::Hold { rest, .. } => {
                holds += 1;
                if holds == 2 {
                    break;
                }
                rest
            }
            Step::Pin { .. } => panic!("the expander transport drives no line"),
            Step::Done => panic!("the write has two holds in it"),
        };
    }
    assert_eq!(outputs, vec![0x48, 0x4C, 0x48, 0x18, 0x1C]);
    assert_eq!(outputs.last().copied().map(|b| b & 0x04), Some(0x04));
}
