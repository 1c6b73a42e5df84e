//! The parallel transport over four data lines.

use vstd::prelude::*;
use crate::bus::{
    enable_pulse, lemma_enable_pulse, lemma_rs_release, lemma_rs_select, push_enable_pulse,
    push_rs_release, rs_release, DataBus,
};
use crate::error::{Error, Port};
use crate::signal::Signal;
use crate::transfer::{performed, verdict, Transfer};
use crate::signal::ENABLE_HOLD_MS;
use crate::wire::{
    keeps_enable, keeps_rs, latched, lemma_no_edge_no_sample, lemma_prefix, lemma_rs_steady,
    lemma_then, wires_after, Sample, Wires,
};

verus! {

/// The lines of the four-bit interface.
#[derive(Debug, Clone, Copy)]
pub struct FourBitBusPins<RS, EN, D4, D5, D6, D7> {
    pub rs: RS,
    pub en: EN,
    pub d4: D4,
    pub d5: D5,
    pub d6: D6,
    pub d7: D7,
}

/// A transport that sends each byte as two nibbles over four data lines.
#[derive(Debug)]
pub struct FourBitBus<RS, EN, D4, D5, D6, D7> {
    pins: FourBitBusPins<RS, EN, D4, D5, D6, D7>,
}

/// The four data lines showing bits 4 to 7 of `data`.
pub open spec fn upper_nibble(data: u8) -> Seq<Signal> {
    seq![
        Signal::Pin { port: Port::D4, high: 0b0001_0000 & data != 0 },
        Signal::Pin { port: Port::D5, high: 0b0010_0000 & data != 0 },
        Signal::Pin { port: Port::D6, high: 0b0100_0000 & data != 0 },
        Signal::Pin { port: Port::D7, high: 0b1000_0000 & data != 0 },
    ]
}

/// The four data lines showing bits 0 to 3 of `data`.
pub open spec fn lower_nibble(data: u8) -> Seq<Signal> {
    seq![
        Signal::Pin { port: Port::D4, high: 0b0000_0001 & data != 0 },
        Signal::Pin { port: Port::D5, high: 0b0000_0010 & data != 0 },
        Signal::Pin { port: Port::D6, high: 0b0000_0100 & data != 0 },
        Signal::Pin { port: Port::D7, high: 0b0000_1000 & data != 0 },
    ]
}

/// The signals that send `byte` over four data lines: register-select, the
/// upper nibble and a pulse, the lower nibble and a pulse, register-select
/// back to rest.
pub open spec fn four_bit_write(byte: u8, data: bool) -> Seq<Signal> {
    seq![Signal::Pin { port: Port::RS, high: data }] + upper_nibble(byte) + enable_pulse()
        + lower_nibble(byte) + enable_pulse() + rs_release(data)
}

impl<RS, EN, D4, D5, D6, D7> FourBitBus<RS, EN, D4, D5, D6, D7> {
    /// The lines that the transport owns.
    pub closed spec fn pins(&self) -> FourBitBusPins<RS, EN, D4, D5, D6, D7> {
        self.pins
    }

    /// A transport that owns `pins`.
    pub fn from_pins(pins: FourBitBusPins<RS, EN, D4, D5, D6, D7>) -> (bus: FourBitBus<
        RS,
        EN,
        D4,
        D5,
        D6,
        D7,
    >)
        ensures
            bus.pins() == pins,
    {
        FourBitBus { pins }
    }

    /// Gives the lines back.
    pub fn destroy(self) -> (pins: FourBitBusPins<RS, EN, D4, D5, D6, D7>)
        ensures
            pins == self.pins(),
    {
        self.pins
    }

    /// The lines, for whoever performs a transfer on them.
    pub fn pins_mut(&mut self) -> (pins: &mut FourBitBusPins<RS, EN, D4, D5, D6, D7>)
        ensures
            *pins == old(self).pins(),
            final(self).pins() == *final(pins),
    {
        &mut self.pins
    }

    fn write_lower_nibble(data: u8, signals: &mut Vec<Signal>)
        ensures
            final(signals)@ == old(signals)@ + lower_nibble(data),
    {
        let db0: bool = (0b0000_0001 & data) != 0;
        let db1: bool = (0b0000_0010 & data) != 0;
        let db2: bool = (0b0000_0100 & data) != 0;
        let db3: bool = (0b0000_1000 & data) != 0;

        signals.push(Signal::Pin { port: Port::D4, high: db0 });
        signals.push(Signal::Pin { port: Port::D5, high: db1 });
        signals.push(Signal::Pin { port: Port::D6, high: db2 });
        signals.push(Signal::Pin { port: Port::D7, high: db3 });
        assert(signals@ =~= old(signals)@ + lower_nibble(data));
    }

    fn write_upper_nibble(data: u8, signals: &mut Vec<Signal>)
        ensures
            final(signals)@ == old(signals)@ + upper_nibble(data),
    {
        let db4: bool = (0b0001_0000 & data) != 0;
        let db5: bool = (0b0010_0000 & data) != 0;
        let db6: bool = (0b0100_0000 & data) != 0;
        let db7: bool = (0b1000_0000 & data) != 0;

        signals.push(Signal::Pin { port: Port::D4, high: db4 });
        signals.push(Signal::Pin { port: Port::D5, high: db5 });
        signals.push(Signal::Pin { port: Port::D6, high: db6 });
        signals.push(Signal::Pin { port: Port::D7, high: db7 });
        assert(signals@ =~= old(signals)@ + upper_nibble(data));
    }
}

impl<RS, EN, D4, D5, D6, D7> DataBus for FourBitBus<RS, EN, D4, D5, D6, D7> {
    open spec fn write_plan(&self, byte: u8, data: bool) -> Seq<Signal> {
        four_bit_write(byte, data)
    }

    open spec fn backlight_plan(&self, state: bool) -> Seq<Signal> {
        Seq::empty()
    }

    open spec fn with_backlight(&self, state: bool) -> Self {
        *self
    }

    fn write(&mut self, byte: u8, data: bool) -> (transfer: Transfer) {
        let mut signals: Vec<Signal> = Vec::new();
        signals.push(Signal::Pin { port: Port::RS, high: data });
        assert(signals@ =~= seq![Signal::Pin { port: Port::RS, high: data }]);

        Self::write_upper_nibble(byte, &mut signals);
        push_enable_pulse(&mut signals);

        Self::write_lower_nibble(byte, &mut signals);
        push_enable_pulse(&mut signals);

        push_rs_release(data, &mut signals);

        Transfer::new(signals)
    }

    /// This wiring has no backlight to switch: nothing is to be done.
    fn set_backlight(&mut self, state: bool) -> (transfer: Transfer) {
        Transfer::new(Vec::new())
    }
}

/// Showing the upper nibble of `byte` puts bits 4 to 7 of `byte` on data
/// lines 4 to 7 and changes nothing else; the controller takes no sample.
pub proof fn lemma_upper_nibble(start: Wires, byte: u8)
    ensures
        wires_after(start, upper_nibble(byte), 4) == (Wires {
            data: (byte & 0xF0) | (start.data & 0x0F),
            ..start
        }),
        latched(start, upper_nibble(byte), 4) == Seq::<Sample>::empty(),
{
    reveal_with_fuel(wires_after, 5);
    reveal_with_fuel(latched, 5);
    let d0 = start.data;
    let d1 = if 0b0001_0000 & byte != 0 { d0 | 0b0001_0000 } else { d0 & !0b0001_0000u8 };
    let d2 = if 0b0010_0000 & byte != 0 { d1 | 0b0010_0000 } else { d1 & !0b0010_0000u8 };
    let d3 = if 0b0100_0000 & byte != 0 { d2 | 0b0100_0000 } else { d2 & !0b0100_0000u8 };
    let d4 = if 0b1000_0000 & byte != 0 { d3 | 0b1000_0000 } else { d3 & !0b1000_0000u8 };
    assert(d4 == (byte & 0xF0) | (d0 & 0x0F)) by (bit_vector)
        requires
            d1 == if 0b0001_0000 & byte != 0 { d0 | 0b0001_0000 } else { d0 & !0b0001_0000u8 },
            d2 == if 0b0010_0000 & byte != 0 { d1 | 0b0010_0000 } else { d1 & !0b0010_0000u8 },
            d3 == if 0b0100_0000 & byte != 0 { d2 | 0b0100_0000 } else { d2 & !0b0100_0000u8 },
            d4 == if 0b1000_0000 & byte != 0 { d3 | 0b1000_0000 } else { d3 & !0b1000_0000u8 },
    ;
    assert(wires_after(start, upper_nibble(byte), 4).data == d4);
    assert(latched(start, upper_nibble(byte), 4) =~= Seq::<Sample>::empty());
}

/// Showing the lower nibble of `byte` puts bits 0 to 3 of `byte` on data
/// lines 4 to 7 and changes nothing else; the controller takes no sample.
pub proof fn lemma_lower_nibble(start: Wires, byte: u8)
    ensures
        wires_after(start, lower_nibble(byte), 4) == (Wires {
            data: ((byte & 0x0F) << 4) | (start.data & 0x0F),
            ..start
        }),
        latched(start, lower_nibble(byte), 4) == Seq::<Sample>::empty(),
{
    reveal_with_fuel(wires_after, 5);
    reveal_with_fuel(latched, 5);
    let d0 = start.data;
    let d1 = if 0b0000_0001 & byte != 0 { d0 | 0b0001_0000 } else { d0 & !0b0001_0000u8 };
    let d2 = if 0b0000_0010 & byte != 0 { d1 | 0b0010_0000 } else { d1 & !0b0010_0000u8 };
    let d3 = if 0b0000_0100 & byte != 0 { d2 | 0b0100_0000 } else { d2 & !0b0100_0000u8 };
    let d4 = if 0b0000_1000 & byte != 0 { d3 | 0b1000_0000 } else { d3 & !0b1000_0000u8 };
    assert(d4 == ((byte & 0x0F) << 4) | (d0 & 0x0F)) by (bit_vector)
        requires
            d1 == if 0b0000_0001 & byte != 0 { d0 | 0b0001_0000 } else { d0 & !0b0001_0000u8 },
            d2 == if 0b0000_0010 & byte != 0 { d1 | 0b0010_0000 } else { d1 & !0b0010_0000u8 },
            d3 == if 0b0000_0100 & byte != 0 { d2 | 0b0100_0000 } else { d2 & !0b0100_0000u8 },
            d4 == if 0b0000_1000 & byte != 0 { d3 | 0b1000_0000 } else { d3 & !0b1000_0000u8 },
    ;
    assert(wires_after(start, lower_nibble(byte), 4).data == d4);
    assert(latched(start, lower_nibble(byte), 4) =~= Seq::<Sample>::empty());
}

/// What the controller sees of a byte sent over four data lines, where the
/// enable line rests low before. It takes exactly two samples: the upper
/// nibble of the byte first and the lower nibble second, each with
/// register-select at the level that `data` asks for, and each after the
/// enable line was held for the full hold time. Register-select stands at
/// that level from the first signal on until the second sample is taken.
/// When the write is over, register-select and the enable line rest low.
pub proof fn lemma_four_bit_write(start: Wires, byte: u8, data: bool)
    requires
        !start.en,
    ensures
        ({
            let plan = four_bit_write(byte, data);
            let samples = latched(start, plan, plan.len());
            let end = wires_after(start, plan, plan.len());
            &&& samples == seq![
                Sample {
                    rs: data,
                    data: (byte & 0xF0) | (start.data & 0x0F),
                    held: ENABLE_HOLD_MS as int,
                },
                Sample {
                    rs: data,
                    data: ((byte & 0x0F) << 4) | (start.data & 0x0F),
                    held: ENABLE_HOLD_MS as int,
                },
            ]
            &&& samples[0].nibble() == byte >> 4
            &&& samples[1].nibble() == byte & 0x0F
            &&& forall|count: nat|
                1 <= count <= 15 ==> wires_after(start, plan, count).rs == data
            &&& !end.rs
            &&& !end.en
        }),
{
    let select = seq![Signal::Pin { port: Port::RS, high: data }];
    let upper = upper_nibble(byte);
    let lower = lower_nibble(byte);
    let pulse = enable_pulse();
    let release = rs_release(data);
    let plan = four_bit_write(byte, data);
    let idle = start.data;
    let first = (byte & 0xF0) | (idle & 0x0F);
    let second = ((byte & 0x0F) << 4) | (idle & 0x0F);
    let hold = ENABLE_HOLD_MS as int;

    let selected = Wires { rs: data, ..start };
    lemma_rs_select(start, data);

    let shown = Wires { data: first, ..selected };
    lemma_upper_nibble(selected, byte);
    lemma_then(start, select, upper, 4);

    let pulsed = Wires { held: hold, ..shown };
    lemma_enable_pulse(shown);
    lemma_then(start, select + upper, pulse, 3);

    let shown_again = Wires { data: second, ..pulsed };
    lemma_lower_nibble(pulsed, byte);
    lemma_then(start, select + upper + pulse, lower, 4);
    assert(((byte & 0x0F) << 4) | (first & 0x0F) == second) by (bit_vector)
        requires
            first == (byte & 0xF0) | (idle & 0x0F),
            second == ((byte & 0x0F) << 4) | (idle & 0x0F),
    ;

    lemma_enable_pulse(shown_again);
    lemma_then(start, select + upper + pulse + lower, pulse, 3);

    lemma_rs_release(shown_again, data);
    lemma_then(start, select + upper + pulse + lower + pulse, release, release.len());

    let samples = latched(start, plan, plan.len());
    assert(samples =~= seq![
        Sample { rs: data, data: first, held: hold },
        Sample { rs: data, data: second, held: hold },
    ]);
    assert(first >> 4 == byte >> 4 && second >> 4 == byte & 0x0F) by (bit_vector)
        requires
            first == (byte & 0xF0) | (idle & 0x0F),
            second == ((byte & 0x0F) << 4) | (idle & 0x0F),
    ;

    assert(plan[0] == Signal::Pin { port: Port::RS, high: data });
    assert(wires_after(start, plan, 1).rs == data) by {
        reveal_with_fuel(wires_after, 2);
    }
    assert forall|i: int| 1 <= i < 15 implies keeps_rs(#[trigger] plan[i], start.expander) by {
        if i < 5 {
            assert(plan[i] == upper[i - 1]);
        } else if i < 8 {
            assert(plan[i] == pulse[i - 5]);
        } else if i < 12 {
            assert(plan[i] == lower[i - 8]);
        } else {
            assert(plan[i] == pulse[i - 12]);
        }
    }
    assert forall|count: nat| 1 <= count <= 15 implies wires_after(start, plan, count).rs
        == data by {
        lemma_rs_steady(start, plan, 1, count);
    }
}

/// Where in a write over four data lines the upper nibble reaches the data
/// line `port`.
pub open spec fn upper_nibble_step(port: Port) -> int {
    match port {
        Port::D4 => 1,
        Port::D5 => 2,
        Port::D6 => 3,
        _ => 4,
    }
}

/// A data line that fails while the upper nibble is put on the lines ends
/// the write there. The error names that line. The signals that reached the
/// hardware are register-select and the data lines up to the one that
/// failed: none of them touches the enable line, so the controller takes no
/// sample, and nothing of the lower nibble is shown.
pub proof fn lemma_upper_nibble_failure<E>(
    start: Wires,
    byte: u8,
    data: bool,
    port: Port,
    error: E,
)
    requires
        port == Port::D4 || port == Port::D5 || port == Port::D6 || port == Port::D7,
    ensures
        ({
            let plan = four_bit_write(byte, data);
            let at = upper_nibble_step(port);
            let done = performed(plan, Some(at));
            &&& verdict(plan, Some((at, error))) == Err::<(), Error<E>>(Error::Io { port, error })
            &&& done == seq![Signal::Pin { port: Port::RS, high: data }] + upper_nibble(
                byte,
            ).take(at)
            &&& forall|i: int|
                0 <= i < done.len() ==> keeps_enable(#[trigger] done[i], start.expander)
            &&& latched(start, done, done.len()) == Seq::<Sample>::empty()
        }),
{
    let plan = four_bit_write(byte, data);
    let at = upper_nibble_step(port);
    let done = performed(plan, Some(at));
    let upper = upper_nibble(byte);
    assert(plan[at] == upper[at - 1]);
    assert(done =~= seq![Signal::Pin { port: Port::RS, high: data }] + upper.take(at));
    assert forall|i: int| 0 <= i < done.len() implies keeps_enable(
        #[trigger] done[i],
        start.expander,
    ) by {
        if i > 0 {
            assert(done[i] == upper[i - 1]);
        }
    }
    lemma_no_edge_no_sample(start, done, done.len());
}

/// A write over four data lines that is given up while the enable line is
/// being held leaves the lines in the middle of a pulse. Given up in the
/// first hold, after six signals: the enable line is high, register-select
/// stands at the level that `data` asks for, and the controller has taken
/// nothing. Given up in the second hold, after thirteen signals: the enable
/// line is high, and the controller has taken the upper nibble alone.
pub proof fn lemma_four_bit_write_abandoned(start: Wires, byte: u8, data: bool)
    requires
        !start.en,
    ensures
        ({
            let plan = four_bit_write(byte, data);
            &&& wires_after(start, plan, 6).en
            &&& wires_after(start, plan, 6).rs == data
            &&& latched(start, plan, 6) == Seq::<Sample>::empty()
            &&& wires_after(start, plan, 13).en
            &&& wires_after(start, plan, 13).rs == data
            &&& latched(start, plan, 13) == seq![
                Sample {
                    rs: data,
                    data: (byte & 0xF0) | (start.data & 0x0F),
                    held: ENABLE_HOLD_MS as int,
                },
            ]
        }),
{
    let select = seq![Signal::Pin { port: Port::RS, high: data }];
    let upper = upper_nibble(byte);
    let lower = lower_nibble(byte);
    let pulse = enable_pulse();
    let release = rs_release(data);
    let plan = four_bit_write(byte, data);
    let idle = start.data;
    let first = (byte & 0xF0) | (idle & 0x0F);
    let hold = ENABLE_HOLD_MS as int;

    let selected = Wires { rs: data, ..start };
    lemma_rs_select(start, data);
    let shown = Wires { data: first, ..selected };
    lemma_upper_nibble(selected, byte);
    lemma_then(start, select, upper, 4);

    assert(wires_after(shown, pulse, 1).en && latched(shown, pulse, 1) =~= Seq::<Sample>::empty())
        by {
        reveal_with_fuel(wires_after, 2);
        reveal_with_fuel(latched, 2);
    }
    lemma_then(start, select + upper, pulse, 1);
    lemma_prefix(start, select + upper + pulse, lower, 6);
    lemma_prefix(start, select + upper + pulse + lower, pulse, 6);
    lemma_prefix(start, select + upper + pulse + lower + pulse, release, 6);
    assert(latched(start, plan, 6) =~= Seq::<Sample>::empty());

    let pulsed = Wires { held: hold, ..shown };
    lemma_enable_pulse(shown);
    lemma_then(start, select + upper, pulse, 3);
    lemma_lower_nibble(pulsed, byte);
    lemma_then(start, select + upper + pulse, lower, 4);
    let shown_again = wires_after(pulsed, lower, 4);
    assert(wires_after(shown_again, pulse, 1).en && latched(shown_again, pulse, 1) =~= Seq::<
        Sample,
    >::empty()) by {
        reveal_with_fuel(wires_after, 2);
        reveal_with_fuel(latched, 2);
    }
    lemma_then(start, select + upper + pulse + lower, pulse, 1);
    lemma_prefix(start, select + upper + pulse + lower + pulse, release, 13);
    assert(latched(start, plan, 13) =~= seq![Sample { rs: data, data: first, held: hold }]);
}

} // verus!
