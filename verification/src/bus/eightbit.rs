//! The parallel transport over eight data lines.

use vstd::prelude::*;
use crate::bus::{
    enable_pulse, lemma_enable_pulse, lemma_rs_release, lemma_rs_select, push_enable_pulse,
    push_rs_release, rs_release, DataBus,
};
use crate::error::Port;
use crate::signal::{Signal, ENABLE_HOLD_MS};
use crate::transfer::Transfer;
use crate::wire::{keeps_rs, latched, lemma_rs_steady, lemma_then, wires_after, Sample, Wires};

verus! {

/// The lines of the eight-bit interface.
#[derive(Debug, Clone, Copy)]
pub struct EightBitBusPins<RS, EN, D0, D1, D2, D3, D4, D5, D6, D7> {
    pub rs: RS,
    pub en: EN,
    pub d0: D0,
    pub d1: D1,
    pub d2: D2,
    pub d3: D3,
    pub d4: D4,
    pub d5: D5,
    pub d6: D6,
    pub d7: D7,
}

/// A transport that sends each byte at once over eight data lines.
#[derive(Debug)]
pub struct EightBitBus<RS, EN, D0, D1, D2, D3, D4, D5, D6, D7> {
    pins: EightBitBusPins<RS, EN, D0, D1, D2, D3, D4, D5, D6, D7>,
}

/// The eight data lines showing `data`, bit 0 on the first of them.
pub open spec fn bus_bits(data: u8) -> Seq<Signal> {
    seq![
        Signal::Pin { port: Port::D0, high: 0b0000_0001 & data != 0 },
        Signal::Pin { port: Port::D1, high: 0b0000_0010 & data != 0 },
        Signal::Pin { port: Port::D2, high: 0b0000_0100 & data != 0 },
        Signal::Pin { port: Port::D3, high: 0b0000_1000 & data != 0 },
        Signal::Pin { port: Port::D4, high: 0b0001_0000 & data != 0 },
        Signal::Pin { port: Port::D5, high: 0b0010_0000 & data != 0 },
        Signal::Pin { port: Port::D6, high: 0b0100_0000 & data != 0 },
        Signal::Pin { port: Port::D7, high: 0b1000_0000 & data != 0 },
    ]
}

/// The signals that send `byte` over eight data lines: register-select, the
/// byte and one pulse, register-select back to rest.
pub open spec fn eight_bit_write(byte: u8, data: bool) -> Seq<Signal> {
    seq![Signal::Pin { port: Port::RS, high: data }] + bus_bits(byte) + enable_pulse()
        + rs_release(data)
}

impl<RS, EN, D0, D1, D2, D3, D4, D5, D6, D7> EightBitBus<RS, EN, D0, D1, D2, D3, D4, D5, D6, D7> {
    /// The lines that the transport owns.
    pub closed spec fn pins(&self) -> EightBitBusPins<RS, EN, D0, D1, D2, D3, D4, D5, D6, D7> {
        self.pins
    }

    /// A transport that owns `pins`.
    pub fn from_pins(pins: EightBitBusPins<RS, EN, D0, D1, D2, D3, D4, D5, D6, D7>) -> (bus:
        EightBitBus<RS, EN, D0, D1, D2, D3, D4, D5, D6, D7>)
        ensures
            bus.pins() == pins,
    {
        EightBitBus { pins }
    }

    /// Gives the lines back.
    pub fn destroy(self) -> (pins: EightBitBusPins<RS, EN, D0, D1, D2, D3, D4, D5, D6, D7>)
        ensures
            pins == self.pins(),
    {
        self.pins
    }

    /// The lines, for whoever performs a transfer on them.
    pub fn pins_mut(&mut self) -> (pins: &mut EightBitBusPins<
        RS,
        EN,
        D0,
        D1,
        D2,
        D3,
        D4,
        D5,
        D6,
        D7,
    >)
        ensures
            *pins == old(self).pins(),
            final(self).pins() == *final(pins),
    {
        &mut self.pins
    }

    fn set_bus_bits(data: u8, signals: &mut Vec<Signal>)
        ensures
            final(signals)@ == old(signals)@ + bus_bits(data),
    {
        let db0: bool = (0b0000_0001 & data) != 0;
        let db1: bool = (0b0000_0010 & data) != 0;
        let db2: bool = (0b0000_0100 & data) != 0;
        let db3: bool = (0b0000_1000 & data) != 0;
        let db4: bool = (0b0001_0000 & data) != 0;
        let db5: bool = (0b0010_0000 & data) != 0;
        let db6: bool = (0b0100_0000 & data) != 0;
        let db7: bool = (0b1000_0000 & data) != 0;

        signals.push(Signal::Pin { port: Port::D0, high: db0 });
        signals.push(Signal::Pin { port: Port::D1, high: db1 });
        signals.push(Signal::Pin { port: Port::D2, high: db2 });
        signals.push(Signal::Pin { port: Port::D3, high: db3 });
        signals.push(Signal::Pin { port: Port::D4, high: db4 });
        signals.push(Signal::Pin { port: Port::D5, high: db5 });
        signals.push(Signal::Pin { port: Port::D6, high: db6 });
        signals.push(Signal::Pin { port: Port::D7, high: db7 });
        assert(signals@ =~= old(signals)@ + bus_bits(data));
    }
}

impl<RS, EN, D0, D1, D2, D3, D4, D5, D6, D7> DataBus for EightBitBus<
    RS,
    EN,
    D0,
    D1,
    D2,
    D3,
    D4,
    D5,
    D6,
    D7,
> {
    open spec fn write_plan(&self, byte: u8, data: bool) -> Seq<Signal> {
        eight_bit_write(byte, data)
    }

    open spec fn backlight_plan(&self, state: bool) -> Seq<Signal> {
        Seq::empty()
    }

    open spec fn with_backlight(&self, state: bool) -> Self {
        *self
    }

    fn write(&mut self, byte: u8, data: bool) -> (transfer: Transfer) {
        let mut signals: Vec<Signal> = Vec::new();
        signals.push(Signal::Pin { port: Port::RS, high: data });
        assert(signals@ =~= seq![Signal::Pin { port: Port::RS, high: data }]);

        Self::set_bus_bits(byte, &mut signals);
        push_enable_pulse(&mut signals);

        push_rs_release(data, &mut signals);

        Transfer::new(signals)
    }

    /// This wiring has no backlight to switch: nothing is to be done.
    fn set_backlight(&mut self, state: bool) -> (transfer: Transfer) {
        Transfer::new(Vec::new())
    }
}

/// Showing `byte` puts its eight bits on the eight data lines and changes
/// nothing else; the controller takes no sample.
pub proof fn lemma_bus_bits(start: Wires, byte: u8)
    ensures
        wires_after(start, bus_bits(byte), 8) == (Wires { data: byte, ..start }),
        latched(start, bus_bits(byte), 8) == Seq::<Sample>::empty(),
{
    reveal_with_fuel(wires_after, 9);
    reveal_with_fuel(latched, 9);
    let d0 = start.data;
    let d1 = if 0b0000_0001 & byte != 0 { d0 | 0b0000_0001 } else { d0 & !0b0000_0001u8 };
    let d2 = if 0b0000_0010 & byte != 0 { d1 | 0b0000_0010 } else { d1 & !0b0000_0010u8 };
    let d3 = if 0b0000_0100 & byte != 0 { d2 | 0b0000_0100 } else { d2 & !0b0000_0100u8 };
    let d4 = if 0b0000_1000 & byte != 0 { d3 | 0b0000_1000 } else { d3 & !0b0000_1000u8 };
    let d5 = if 0b0001_0000 & byte != 0 { d4 | 0b0001_0000 } else { d4 & !0b0001_0000u8 };
    let d6 = if 0b0010_0000 & byte != 0 { d5 | 0b0010_0000 } else { d5 & !0b0010_0000u8 };
    let d7 = if 0b0100_0000 & byte != 0 { d6 | 0b0100_0000 } else { d6 & !0b0100_0000u8 };
    let d8 = if 0b1000_0000 & byte != 0 { d7 | 0b1000_0000 } else { d7 & !0b1000_0000u8 };
    assert(d8 == byte) by (bit_vector)
        requires
            d1 == if 0b0000_0001 & byte != 0 { d0 | 0b0000_0001 } else { d0 & !0b0000_0001u8 },
            d2 == if 0b0000_0010 & byte != 0 { d1 | 0b0000_0010 } else { d1 & !0b0000_0010u8 },
            d3 == if 0b0000_0100 & byte != 0 { d2 | 0b0000_0100 } else { d2 & !0b0000_0100u8 },
            d4 == if 0b0000_1000 & byte != 0 { d3 | 0b0000_1000 } else { d3 & !0b0000_1000u8 },
            d5 == if 0b0001_0000 & byte != 0 { d4 | 0b0001_0000 } else { d4 & !0b0001_0000u8 },
            d6 == if 0b0010_0000 & byte != 0 { d5 | 0b0010_0000 } else { d5 & !0b0010_0000u8 },
            d7 == if 0b0100_0000 & byte != 0 { d6 | 0b0100_0000 } else { d6 & !0b0100_0000u8 },
            d8 == if 0b1000_0000 & byte != 0 { d7 | 0b1000_0000 } else { d7 & !0b1000_0000u8 },
    ;
    assert(wires_after(start, bus_bits(byte), 8).data == d8);
    assert(latched(start, bus_bits(byte), 8) =~= Seq::<Sample>::empty());
}

/// What the controller sees of a byte sent over eight data lines, where the
/// enable line rests low before. It takes exactly one sample: the whole
/// byte, with register-select at the level that `data` asks for, after the
/// enable line was held for the full hold time. Register-select stands at
/// that level from the first signal on until the sample is taken. When the
/// write is over, register-select and the enable line rest low.
pub proof fn lemma_eight_bit_write(start: Wires, byte: u8, data: bool)
    requires
        !start.en,
    ensures
        ({
            let plan = eight_bit_write(byte, data);
            let samples = latched(start, plan, plan.len());
            let end = wires_after(start, plan, plan.len());
            &&& samples == seq![Sample { rs: data, data: byte, held: ENABLE_HOLD_MS as int }]
            &&& forall|count: nat|
                1 <= count <= 12 ==> wires_after(start, plan, count).rs == data
            &&& !end.rs
            &&& !end.en
        }),
{
    let select = seq![Signal::Pin { port: Port::RS, high: data }];
    let bits = bus_bits(byte);
    let pulse = enable_pulse();
    let release = rs_release(data);
    let plan = eight_bit_write(byte, data);
    let hold = ENABLE_HOLD_MS as int;

    let selected = Wires { rs: data, ..start };
    lemma_rs_select(start, data);

    let shown = Wires { data: byte, ..selected };
    lemma_bus_bits(selected, byte);
    lemma_then(start, select, bits, 8);

    let pulsed = Wires { held: hold, ..shown };
    lemma_enable_pulse(shown);
    lemma_then(start, select + bits, pulse, 3);

    lemma_rs_release(pulsed, data);
    lemma_then(start, select + bits + pulse, release, release.len());

    assert(latched(start, plan, plan.len()) =~= seq![
        Sample { rs: data, data: byte, held: hold },
    ]);

    assert(plan[0] == Signal::Pin { port: Port::RS, high: data });
    assert(wires_after(start, plan, 1).rs == data) by {
        reveal_with_fuel(wires_after, 2);
    }
    assert forall|i: int| 1 <= i < 12 implies keeps_rs(#[trigger] plan[i], start.expander) by {
        if i < 9 {
            assert(plan[i] == bits[i - 1]);
        } else {
            assert(plan[i] == pulse[i - 9]);
        }
    }
    assert forall|count: nat| 1 <= count <= 12 implies wires_after(start, plan, count).rs
        == data by {
        lemma_rs_steady(start, plan, 1, count);
    }
}

} // verus!
