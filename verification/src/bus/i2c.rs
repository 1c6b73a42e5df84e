//! The transport through a port expander on the two-wire bus.
//!
//! The expander has eight outputs, set together by each byte written to it.
//! Its upper four outputs reach the controller's upper four data lines, so
//! a byte for the controller still travels as two nibbles. The lower four
//! outputs carry register-select, enable and the backlight.

use vstd::prelude::*;
use crate::bus::fourbit::{four_bit_write, lemma_four_bit_write};
use crate::bus::DataBus;
use crate::signal::{bus_writes, Frame, Signal, ENABLE_HOLD_MS};
use crate::transfer::Transfer;
use crate::wire::{latched, lemma_prefix, lemma_then, wires_after, Sample, Wires};

verus! {

/// The expander output that switches the backlight.
pub const BACKLIGHT: u8 = 0b0000_1000;

/// The expander output wired to the enable line.
pub const ENABLE: u8 = 0b0000_0100;

/// The expander output wired to register-select.
pub const REGISTER_SELECT: u8 = 0b0000_0001;

/// A transport that reaches the controller through a port expander.
pub struct I2CBus<I2C> {
    i2c_bus: I2C,
    address: u8,
    backlight: bool,
}

/// The expander byte that shows `nibble`, given in the upper four bits,
/// with register-select and the backlight as asked and enable low.
pub open spec fn expander_byte(nibble: u8, data: bool, backlight: bool) -> u8 {
    nibble | (if data {
        REGISTER_SELECT
    } else {
        0u8
    }) | (if backlight {
        BACKLIGHT
    } else {
        0u8
    })
}

/// The signals that hand one nibble to the controller: a bus write that puts
/// it on the outputs and then raises enable, the hold, and a bus write that
/// lowers enable again.
pub open spec fn expander_nibble(address: u8, backlight: bool, nibble: u8, data: bool) -> Seq<
    Signal,
> {
    let byte = expander_byte(nibble, data, backlight);
    seq![
        Signal::Bus { address, frame: Frame::Pair(byte, byte | ENABLE) },
        Signal::Hold { ms: ENABLE_HOLD_MS },
        Signal::Bus { address, frame: Frame::Single(byte) },
    ]
}

/// The signals that send `byte` through the expander: its upper nibble,
/// then its lower nibble moved up into the upper four bits.
pub open spec fn expander_write(address: u8, backlight: bool, byte: u8, data: bool) -> Seq<
    Signal,
> {
    expander_nibble(address, backlight, byte & 0xF0, data) + expander_nibble(
        address,
        backlight,
        (byte & 0x0F) << 4,
        data,
    )
}

/// Whether every byte of every write in `writes` has the backlight bit set
/// if `state` is set, and clear if not.
pub open spec fn backlight_throughout(writes: Seq<(u8, Frame)>, state: bool) -> bool {
    forall|i: int, j: int|
        0 <= i < writes.len() && 0 <= j < writes[i].1.bytes().len() ==> (
        #[trigger] writes[i].1.bytes()[j] & BACKLIGHT != 0) == state
}

impl<I2C> I2CBus<I2C> {
    /// The bus handle that the transport owns.
    pub closed spec fn i2c_bus(&self) -> I2C {
        self.i2c_bus
    }

    /// The address of the expander.
    pub closed spec fn spec_address(&self) -> u8 {
        self.address
    }

    /// Whether the backlight is on.
    pub closed spec fn spec_backlight(&self) -> bool {
        self.backlight
    }

    /// A transport to the expander at `address` on `i2c_bus`, with the
    /// backlight on.
    pub fn new(i2c_bus: I2C, address: u8) -> (bus: I2CBus<I2C>)
        ensures
            bus.i2c_bus() == i2c_bus,
            bus.address() == address,
            bus.backlight(),
    {
        I2CBus { i2c_bus, address, backlight: true }
    }

    /// Gives the bus handle back.
    pub fn destroy(self) -> (i2c_bus: I2C)
        ensures
            i2c_bus == self.i2c_bus(),
    {
        self.i2c_bus
    }

    /// The address of the expander.
    #[verifier::when_used_as_spec(spec_address)]
    pub fn address(&self) -> (address: u8)
        ensures
            address == self.address(),
    {
        self.address
    }

    /// Whether the backlight is on.
    #[verifier::when_used_as_spec(spec_backlight)]
    pub fn backlight(&self) -> (backlight: bool)
        ensures
            backlight == self.backlight(),
    {
        self.backlight
    }

    /// The bus handle, for whoever performs a transfer on it.
    pub fn bus_mut(&mut self) -> (i2c_bus: &mut I2C)
        ensures
            *i2c_bus == old(self).i2c_bus(),
            final(self).i2c_bus() == *final(i2c_bus),
            final(self).address() == old(self).address(),
            final(self).backlight() == old(self).backlight(),
    {
        &mut self.i2c_bus
    }

    /// Appends the signals for one nibble, which is given in the upper four
    /// bits of `nibble`.
    fn write_nibble(&self, nibble: u8, data: bool, signals: &mut Vec<Signal>)
        ensures
            final(signals)@ == old(signals)@ + expander_nibble(
                self.address(),
                self.backlight(),
                nibble,
                data,
            ),
    {
        let rs: u8 = match data {
            false => 0u8,
            true => REGISTER_SELECT,
        };
        let byte: u8 = nibble | rs | if self.backlight {
            BACKLIGHT
        } else {
            0
        };

        signals.push(Signal::Bus { address: self.address, frame: Frame::Pair(byte, byte | ENABLE) });
        signals.push(Signal::Hold { ms: ENABLE_HOLD_MS });
        signals.push(Signal::Bus { address: self.address, frame: Frame::Single(byte) });
        assert(signals@ =~= old(signals)@ + expander_nibble(
            self.address(),
            self.backlight(),
            nibble,
            data,
        ));
    }
}

impl<I2C> DataBus for I2CBus<I2C> {
    open spec fn write_plan(&self, byte: u8, data: bool) -> Seq<Signal> {
        expander_write(self.address(), self.backlight(), byte, data)
    }

    open spec fn backlight_plan(&self, state: bool) -> Seq<Signal> {
        expander_write(self.address(), state, 0, false)
    }

    closed spec fn with_backlight(&self, state: bool) -> Self {
        I2CBus { i2c_bus: self.i2c_bus, address: self.address, backlight: state }
    }

    fn write(&mut self, byte: u8, data: bool) -> (transfer: Transfer) {
        let mut signals: Vec<Signal> = Vec::new();

        let upper_nibble: u8 = byte & 0xF0;
        self.write_nibble(upper_nibble, data, &mut signals);

        let lower_nibble: u8 = (byte & 0x0F) << 4;
        self.write_nibble(lower_nibble, data, &mut signals);

        assert(signals@ =~= expander_write(self.address(), self.backlight(), byte, data));
        Transfer::new(signals)
    }

    /// Stores the new state, and plans the sending of a command byte that
    /// the controller ignores, so that the expander shows the new state at
    /// once.
    fn set_backlight(&mut self, state: bool) -> (transfer: Transfer)
        ensures
            final(self).backlight() == state,
            final(self).address() == old(self).address(),
            final(self).i2c_bus() == old(self).i2c_bus(),
    {
        self.backlight = state;
        self.write(0, false)
    }
}

/// Switching the backlight changes the stored state and nothing else.
pub proof fn lemma_with_backlight<I2C>(bus: I2CBus<I2C>, state: bool)
    ensures
        bus.with_backlight(state).backlight() == state,
        bus.with_backlight(state).address() == bus.address(),
        bus.with_backlight(state).i2c_bus() == bus.i2c_bus(),
{
}

/// Switching the backlight depends on the state asked for alone, not on
/// what was stored before: asked twice for the same state, the transport
/// plans the same signals both times, and is the same after the second time
/// as after the first.
pub proof fn lemma_set_backlight_repeats<I2C>(bus: I2CBus<I2C>, state: bool)
    ensures
        bus.with_backlight(state).backlight_plan(state) == bus.backlight_plan(state),
        bus.with_backlight(state).with_backlight(state) == bus.with_backlight(state),
        bus.backlight_plan(state) == bus.with_backlight(state).write_plan(0, false),
{
}

/// Switching the backlight off and on again leaves the transport with the
/// backlight on: every byte of every bus write of a later `write` carries
/// the backlight bit.
pub proof fn lemma_backlight_round_trip<I2C>(bus: I2CBus<I2C>, byte: u8, data: bool)
    ensures
        ({
            let again = bus.with_backlight(false).with_backlight(true);
            let plan = again.write_plan(byte, data);
            &&& again.backlight()
            &&& again.address() == bus.address()
            &&& plan == expander_write(bus.address(), true, byte, data)
            &&& backlight_throughout(bus_writes(plan, plan.len()), true)
        }),
{
    lemma_expander_traffic(bus.address(), true, byte, data);
}

/// What an expander byte holds, where the nibble it was made from keeps to
/// the upper four bits: the nibble there, register-select and the backlight
/// as asked, and enable low. Raising enable in it changes that bit alone.
pub proof fn lemma_expander_byte(nibble: u8, data: bool, backlight: bool)
    requires
        nibble & 0x0F == 0,
    ensures
        ({
            let byte = expander_byte(nibble, data, backlight);
            &&& byte & 0xF0 == nibble
            &&& (byte & REGISTER_SELECT != 0) == data
            &&& (byte & BACKLIGHT != 0) == backlight
            &&& byte & ENABLE == 0
            &&& (byte | ENABLE) & 0xF0 == nibble
            &&& ((byte | ENABLE) & REGISTER_SELECT != 0) == data
            &&& ((byte | ENABLE) & BACKLIGHT != 0) == backlight
            &&& (byte | ENABLE) & ENABLE == ENABLE
        }),
{
    let rs: u8 = if data { REGISTER_SELECT } else { 0u8 };
    let bl: u8 = if backlight { BACKLIGHT } else { 0u8 };
    let byte = expander_byte(nibble, data, backlight);
    assert(byte == nibble | rs | bl);
    assert({
        &&& byte & 0xF0 == nibble
        &&& byte & 0x01 == rs
        &&& byte & 0x08 == bl
        &&& byte & 0x04 == 0
        &&& (byte | 0x04) & 0xF0 == nibble
        &&& (byte | 0x04) & 0x01 == rs
        &&& (byte | 0x04) & 0x08 == bl
        &&& (byte | 0x04) & 0x04 == 0x04
    }) by (bit_vector)
        requires
            nibble & 0x0F == 0,
            rs == 0x01 || rs == 0,
            bl == 0x08 || bl == 0,
            byte == nibble | rs | bl,
    ;
}

/// Handing one nibble to the controller through the expander, where the
/// enable line rests low before: the controller takes one sample, of the
/// nibble on data lines 4 to 7 with register-select at the level that `data`
/// asks for, after the full hold time. The backlight stands as asked, and
/// the enable line rests low again.
pub proof fn lemma_expander_nibble(start: Wires, backlight: bool, nibble: u8, data: bool)
    requires
        !start.en,
        nibble & 0x0F == 0,
    ensures
        ({
            let plan = expander_nibble(start.expander, backlight, nibble, data);
            let shown = nibble | (start.data & 0x0F);
            &&& wires_after(start, plan, 3) == (Wires {
                rs: data,
                backlight,
                data: shown,
                held: ENABLE_HOLD_MS as int,
                ..start
            })
            &&& latched(start, plan, 3) == seq![
                Sample { rs: data, data: shown, held: ENABLE_HOLD_MS as int },
            ]
            &&& forall|count: nat|
                1 <= count <= 3 ==> {
                    &&& wires_after(start, plan, count).rs == data
                    &&& wires_after(start, plan, count).backlight == backlight
                }
        }),
{
    let plan = expander_nibble(start.expander, backlight, nibble, data);
    let byte = expander_byte(nibble, data, backlight);
    let idle = start.data;
    let shown = nibble | (idle & 0x0F);
    lemma_expander_byte(nibble, data, backlight);
    assert((nibble | (idle & 0x0F)) & 0x0F == idle & 0x0F) by (bit_vector)
        requires
            nibble & 0x0F == 0,
    ;
    reveal_with_fuel(wires_after, 4);
    reveal_with_fuel(latched, 4);
    assert(latched(start, plan, 3) =~= seq![
        Sample { rs: data, data: shown, held: ENABLE_HOLD_MS as int },
    ]);
}

/// What the controller sees of a byte sent through the expander, where the
/// enable line rests low before. It takes exactly two samples: the upper
/// nibble of the byte first and the lower nibble second, each with
/// register-select at the level that `data` asks for, and each after the
/// enable line was held for the full hold time. From the first signal on,
/// register-select stands at that level and the backlight as the transport
/// has it. When the write is over, the enable line rests low.
pub proof fn lemma_expander_write(start: Wires, backlight: bool, byte: u8, data: bool)
    requires
        !start.en,
    ensures
        ({
            let plan = expander_write(start.expander, backlight, byte, data);
            let samples = latched(start, plan, plan.len());
            let end = wires_after(start, plan, plan.len());
            &&& plan.len() == 6
            &&& samples == seq![
                Sample {
                    rs: data,
                    data: (byte & 0xF0) | (start.data & 0x0F),
                    held: ENABLE_HOLD_MS as int,
                },
                Sample {
                    rs: data,
                    data: ((byte & 0x0F) << 4) | (start.data & 0x0F),
                    held: ENABLE_HOLD_MS as int,
                },
            ]
            &&& samples[0].nibble() == byte >> 4
            &&& samples[1].nibble() == byte & 0x0F
            &&& forall|count: nat|
                1 <= count <= 6 ==> {
                    &&& wires_after(start, plan, count).rs == data
                    &&& wires_after(start, plan, count).backlight == backlight
                }
            &&& !end.en
        }),
{
    let upper = byte & 0xF0;
    let lower = (byte & 0x0F) << 4;
    let head = expander_nibble(start.expander, backlight, upper, data);
    let tail = expander_nibble(start.expander, backlight, lower, data);
    let plan = expander_write(start.expander, backlight, byte, data);
    let idle = start.data;
    let first = upper | (idle & 0x0F);
    let second = lower | (idle & 0x0F);
    let hold = ENABLE_HOLD_MS as int;
    assert(upper & 0x0F == 0 && lower & 0x0F == 0 && lower | (first & 0x0F) == second && first
        >> 4 == byte >> 4 && second >> 4 == byte & 0x0F) by (bit_vector)
        requires
            upper == byte & 0xF0,
            lower == (byte & 0x0F) << 4,
            first == upper | (idle & 0x0F),
            second == lower | (idle & 0x0F),
    ;

    lemma_expander_nibble(start, backlight, upper, data);
    let middle = wires_after(start, head, 3);
    lemma_expander_nibble(middle, backlight, lower, data);
    assert(latched(start, plan, 6) =~= seq![
        Sample { rs: data, data: first, held: hold },
        Sample { rs: data, data: second, held: hold },
    ]) by {
        lemma_then(start, head, tail, 3);
    }
    assert(!wires_after(start, plan, 6).en) by {
        lemma_then(start, head, tail, 3);
    }
    assert forall|count: nat| 1 <= count <= 6 implies {
        &&& wires_after(start, plan, count).rs == data
        &&& wires_after(start, plan, count).backlight == backlight
    } by {
        if count <= 3 {
            lemma_prefix(start, head, tail, count);
        } else {
            lemma_then(start, head, tail, (count - 3) as nat);
        }
    }
}

/// Sending a byte through the expander shows the controller the very
/// samples that sending it over four data lines shows.
pub proof fn lemma_expander_matches_four_bit(start: Wires, backlight: bool, byte: u8, data: bool)
    requires
        !start.en,
    ensures
        ({
            let through_expander = expander_write(start.expander, backlight, byte, data);
            let over_lines = four_bit_write(byte, data);
            latched(start, through_expander, through_expander.len()) == latched(
                start,
                over_lines,
                over_lines.len(),
            )
        }),
{
    lemma_expander_write(start, backlight, byte, data);
    lemma_four_bit_write(start, byte, data);
}

/// The traffic on the two-wire bus for one byte: exactly four writes, all to
/// the expander's address. The first and the third end in a byte with the
/// enable bit set, the second and the fourth clear it again. Every byte
/// carries the backlight bit as the transport has it and the register-select
/// bit as `data` asks for; the bytes of the first two writes carry the upper
/// nibble of `byte` in their upper four bits, those of the last two the
/// lower nibble.
pub proof fn lemma_expander_traffic(address: u8, backlight: bool, byte: u8, data: bool)
    ensures
        ({
            let plan = expander_write(address, backlight, byte, data);
            let first = expander_byte(byte & 0xF0, data, backlight);
            let second = expander_byte((byte & 0x0F) << 4, data, backlight);
            &&& bus_writes(plan, plan.len()) == seq![
                (address, Frame::Pair(first, first | ENABLE)),
                (address, Frame::Single(first)),
                (address, Frame::Pair(second, second | ENABLE)),
                (address, Frame::Single(second)),
            ]
            &&& (first | ENABLE) & ENABLE == ENABLE
            &&& first & ENABLE == 0
            &&& (second | ENABLE) & ENABLE == ENABLE
            &&& second & ENABLE == 0
            &&& backlight_throughout(bus_writes(plan, plan.len()), backlight)
            &&& (first & REGISTER_SELECT != 0) == data
            &&& ((first | ENABLE) & REGISTER_SELECT != 0) == data
            &&& (second & REGISTER_SELECT != 0) == data
            &&& ((second | ENABLE) & REGISTER_SELECT != 0) == data
            &&& first >> 4 == byte >> 4
            &&& (first | ENABLE) >> 4 == byte >> 4
            &&& second >> 4 == byte & 0x0F
            &&& (second | ENABLE) >> 4 == byte & 0x0F
        }),
{
    let plan = expander_write(address, backlight, byte, data);
    let upper = byte & 0xF0;
    let lower = (byte & 0x0F) << 4;
    let first = expander_byte(upper, data, backlight);
    let second = expander_byte(lower, data, backlight);
    assert(upper & 0x0F == 0 && lower & 0x0F == 0) by (bit_vector)
        requires
            upper == byte & 0xF0,
            lower == (byte & 0x0F) << 4,
    ;
    lemma_expander_byte(upper, data, backlight);
    lemma_expander_byte(lower, data, backlight);
    assert(first >> 4 == byte >> 4 && (first | 0x04) >> 4 == byte >> 4) by (bit_vector)
        requires
            first & 0xF0 == upper,
            upper == byte & 0xF0,
    ;
    assert(second >> 4 == byte & 0x0F && (second | 0x04) >> 4 == byte & 0x0F) by (bit_vector)
        requires
            second & 0xF0 == lower,
            lower == (byte & 0x0F) << 4,
    ;
    assert(plan.len() == 6);
    reveal_with_fuel(bus_writes, 7);
    assert(bus_writes(plan, 6) =~= seq![
        (address, Frame::Pair(first, first | ENABLE)),
        (address, Frame::Single(first)),
        (address, Frame::Pair(second, second | ENABLE)),
        (address, Frame::Single(second)),
    ]);
}

/// A write through the expander that is given up while the enable line is
/// being held leaves the lines in the middle of a pulse. Given up in the
/// first hold, after one signal: the enable line is high and the controller
/// has taken nothing. Given up in the second hold, after four signals: the
/// enable line is high, and the controller has taken the upper nibble alone.
pub proof fn lemma_expander_write_abandoned(start: Wires, backlight: bool, byte: u8, data: bool)
    requires
        !start.en,
    ensures
        ({
            let plan = expander_write(start.expander, backlight, byte, data);
            &&& wires_after(start, plan, 1).en
            &&& latched(start, plan, 1) == Seq::<Sample>::empty()
            &&& wires_after(start, plan, 4).en
            &&& latched(start, plan, 4) == seq![
                Sample {
                    rs: data,
                    data: (byte & 0xF0) | (start.data & 0x0F),
                    held: ENABLE_HOLD_MS as int,
                },
            ]
        }),
{
    let upper = byte & 0xF0;
    let lower = (byte & 0x0F) << 4;
    let head = expander_nibble(start.expander, backlight, upper, data);
    let tail = expander_nibble(start.expander, backlight, lower, data);
    let plan = expander_write(start.expander, backlight, byte, data);
    assert(upper & 0x0F == 0 && lower & 0x0F == 0) by (bit_vector)
        requires
            upper == byte & 0xF0,
            lower == (byte & 0x0F) << 4,
    ;
    lemma_expander_byte(upper, data, backlight);
    lemma_expander_byte(lower, data, backlight);
    lemma_expander_nibble(start, backlight, upper, data);
    let middle = wires_after(start, head, 3);

    assert(wires_after(start, head, 1).en && latched(start, head, 1) =~= Seq::<Sample>::empty())
        by {
        reveal_with_fuel(wires_after, 2);
        reveal_with_fuel(latched, 2);
    }
    lemma_prefix(start, head, tail, 1);

    assert(wires_after(middle, tail, 1).en && latched(middle, tail, 1) =~= Seq::<Sample>::empty())
        by {
        reveal_with_fuel(wires_after, 2);
        reveal_with_fuel(latched, 2);
    }
    lemma_then(start, head, tail, 1);
    assert(latched(start, plan, 4) =~= latched(start, head, 3));
}

} // verus!
