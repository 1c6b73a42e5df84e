//! The display's side of the lines: what the controller gets to see.
//!
//! The controller watches register-select and its data lines, and takes a
//! sample of them each time the enable line falls. This module says, for any
//! sequence of signals, how the lines stand after it and which samples the
//! controller took on the way. It is a model for stating what the transports
//! achieve; none of it runs.

use vstd::prelude::*;
use crate::bus::i2c::{BACKLIGHT, ENABLE, REGISTER_SELECT};
use crate::error::Port;
use crate::signal::{Frame, Signal};

verus! {

/// How the lines stand at one moment.
pub struct Wires {
    /// The address that the port expander answers to, where there is one.
    pub expander: u8,
    /// The level of register-select.
    pub rs: bool,
    /// The level of the enable line.
    pub en: bool,
    /// The levels of the eight data lines, line 0 in bit 0.
    pub data: u8,
    /// Whether the backlight is lit.
    pub backlight: bool,
    /// For how many milliseconds the enable line has been held since it last
    /// rose.
    pub held: int,
}

/// What the controller takes in when the enable line falls.
pub struct Sample {
    /// The level of register-select.
    pub rs: bool,
    /// The levels of the eight data lines, line 0 in bit 0.
    pub data: u8,
    /// For how many milliseconds the enable line had been held.
    pub held: int,
}

impl Sample {
    /// What a controller in four-bit mode reads from the sample: the levels
    /// of data lines 4 to 7, line 4 in bit 0.
    pub open spec fn nibble(self) -> u8 {
        self.data >> 4
    }
}

/// The bit of the data lines that `port` drives, or no bit for a port that
/// is no data line.
pub open spec fn data_mask(port: Port) -> u8 {
    match port {
        Port::D0 => 0b0000_0001,
        Port::D1 => 0b0000_0010,
        Port::D2 => 0b0000_0100,
        Port::D3 => 0b0000_1000,
        Port::D4 => 0b0001_0000,
        Port::D5 => 0b0010_0000,
        Port::D6 => 0b0100_0000,
        Port::D7 => 0b1000_0000,
        _ => 0,
    }
}

/// The lines with enable at the level `high`. When it rises, the count of
/// how long it has been held starts anew.
pub open spec fn drive_enable(wires: Wires, high: bool) -> Wires {
    Wires { en: high, held: if high && !wires.en { 0 } else { wires.held }, ..wires }
}

/// The lines after `port` was driven high or low.
pub open spec fn drive_pin(wires: Wires, port: Port, high: bool) -> Wires {
    match port {
        Port::RS => Wires { rs: high, ..wires },
        Port::EN => drive_enable(wires, high),
        Port::I2C => wires,
        _ => Wires {
            data: if high {
                wires.data | data_mask(port)
            } else {
                wires.data & !data_mask(port)
            },
            ..wires
        },
    }
}

/// The lines after `byte` was written to the expander: each of its outputs
/// takes the level of its bit. The lower four data lines are not connected
/// to it and stay as they are.
pub open spec fn drive_byte(wires: Wires, byte: u8) -> Wires {
    drive_enable(
        Wires {
            rs: byte & REGISTER_SELECT != 0,
            backlight: byte & BACKLIGHT != 0,
            data: (byte & 0xF0) | (wires.data & 0x0F),
            ..wires
        },
        byte & ENABLE != 0,
    )
}

/// The lines after `ms` milliseconds have passed.
pub open spec fn wait(wires: Wires, ms: u32) -> Wires {
    Wires { held: if wires.en { wires.held + ms } else { wires.held }, ..wires }
}

/// The lines after `signal` was performed.
pub open spec fn drive(wires: Wires, signal: Signal) -> Wires {
    match signal {
        Signal::Pin { port, high } => drive_pin(wires, port, high),
        Signal::Hold { ms } => wait(wires, ms),
        Signal::Bus { address, frame } => if address != wires.expander {
            wires
        } else {
            match frame {
                Frame::Single(only) => drive_byte(wires, only),
                Frame::Pair(first, second) => drive_byte(drive_byte(wires, first), second),
            }
        },
    }
}

/// The sample that the controller takes as the lines go from `before` to
/// `after`: one if the enable line falls, with the levels that were there
/// for it to see, and none otherwise.
pub open spec fn edge(before: Wires, after: Wires) -> Seq<Sample> {
    if before.en && !after.en {
        seq![Sample { rs: before.rs, data: before.data, held: before.held }]
    } else {
        Seq::empty()
    }
}

/// The samples that the controller takes while `signal` is performed.
pub open spec fn latched_by(wires: Wires, signal: Signal) -> Seq<Sample> {
    match signal {
        Signal::Bus { address, frame: Frame::Pair(first, second) } => if address
            != wires.expander {
            Seq::empty()
        } else {
            edge(wires, drive_byte(wires, first)) + edge(
                drive_byte(wires, first),
                drive_byte(drive_byte(wires, first), second),
            )
        },
        _ => edge(wires, drive(wires, signal)),
    }
}

/// The lines after the first `count` of `signals` were performed, in order,
/// starting from `start`.
pub open spec fn wires_after(start: Wires, signals: Seq<Signal>, count: nat) -> Wires
    decreases count,
{
    if count == 0 {
        start
    } else {
        drive(wires_after(start, signals, (count - 1) as nat), signals[count - 1])
    }
}

/// The samples that the controller takes while the first `count` of
/// `signals` are performed, in order, starting from `start`.
pub open spec fn latched(start: Wires, signals: Seq<Signal>, count: nat) -> Seq<Sample>
    decreases count,
{
    if count == 0 {
        Seq::empty()
    } else {
        latched(start, signals, (count - 1) as nat) + latched_by(
            wires_after(start, signals, (count - 1) as nat),
            signals[count - 1],
        )
    }
}

/// Signals performed one after the other: the lines after `head` and then
/// `count` signals of `tail` are those that `tail` alone leads to from where
/// `head` left them, and the samples are those of `head` followed by those
/// of `tail`.
pub proof fn lemma_then(start: Wires, head: Seq<Signal>, tail: Seq<Signal>, count: nat)
    requires
        count <= tail.len(),
    ensures
        wires_after(start, head + tail, head.len() + count) == wires_after(
            wires_after(start, head, head.len()),
            tail,
            count,
        ),
        latched(start, head + tail, head.len() + count) == latched(start, head, head.len())
            + latched(wires_after(start, head, head.len()), tail, count),
    decreases count,
{
    let whole = head + tail;
    let middle = wires_after(start, head, head.len());
    if count == 0 {
        lemma_prefix(start, head, tail, head.len());
        assert(latched(start, head, head.len()) + Seq::<Sample>::empty() =~= latched(
            start,
            head,
            head.len(),
        ));
    } else {
        lemma_then(start, head, tail, (count - 1) as nat);
        assert(whole[head.len() + count - 1] == tail[count - 1]);
        assert(latched(start, whole, head.len() + count) =~= latched(start, head, head.len())
            + latched(middle, tail, count));
    }
}

/// What the first `count` signals do depends on those signals alone, not on
/// what follows them.
pub proof fn lemma_prefix(start: Wires, head: Seq<Signal>, tail: Seq<Signal>, count: nat)
    requires
        count <= head.len(),
    ensures
        wires_after(start, head + tail, count) == wires_after(start, head, count),
        latched(start, head + tail, count) == latched(start, head, count),
    decreases count,
{
    if count > 0 {
        lemma_prefix(start, head, tail, (count - 1) as nat);
        assert((head + tail)[count - 1] == head[count - 1]);
    }
}

/// Whether `signal` leaves register-select alone on lines whose expander
/// answers to `expander`.
pub open spec fn keeps_rs(signal: Signal, expander: u8) -> bool {
    match signal {
        Signal::Pin { port, .. } => port != Port::RS,
        Signal::Hold { .. } => true,
        Signal::Bus { address, .. } => address != expander,
    }
}

/// No signal changes the address that the expander answers to.
pub proof fn lemma_expander_fixed(start: Wires, signals: Seq<Signal>, count: nat)
    ensures
        wires_after(start, signals, count).expander == start.expander,
    decreases count,
{
    if count > 0 {
        lemma_expander_fixed(start, signals, (count - 1) as nat);
    }
}

/// Register-select stays where it is while signals that leave it alone are
/// performed.
pub proof fn lemma_rs_steady(start: Wires, signals: Seq<Signal>, from: nat, to: nat)
    requires
        from <= to,
        forall|i: int| from <= i < to ==> keeps_rs(#[trigger] signals[i], start.expander),
    ensures
        wires_after(start, signals, to).rs == wires_after(start, signals, from).rs,
    decreases to - from,
{
    if from < to {
        lemma_rs_steady(start, signals, from, (to - 1) as nat);
        lemma_expander_fixed(start, signals, (to - 1) as nat);
        assert(keeps_rs(signals[to - 1], start.expander));
    }
}

/// Whether `signal` leaves the enable line alone on lines whose expander
/// answers to `expander`.
pub open spec fn keeps_enable(signal: Signal, expander: u8) -> bool {
    match signal {
        Signal::Pin { port, .. } => port != Port::EN,
        Signal::Hold { .. } => true,
        Signal::Bus { address, .. } => address != expander,
    }
}

/// While signals that leave the enable line alone are performed, the line
/// stays where it is and the controller takes no sample.
pub proof fn lemma_no_edge_no_sample(start: Wires, signals: Seq<Signal>, count: nat)
    requires
        forall|i: int| 0 <= i < count ==> keeps_enable(#[trigger] signals[i], start.expander),
    ensures
        wires_after(start, signals, count).en == start.en,
        latched(start, signals, count) == Seq::<Sample>::empty(),
    decreases count,
{
    if count > 0 {
        lemma_no_edge_no_sample(start, signals, (count - 1) as nat);
        lemma_expander_fixed(start, signals, (count - 1) as nat);
        assert(keeps_enable(signals[count - 1], start.expander));
        assert(latched(start, signals, count) =~= Seq::<Sample>::empty());
    }
}

} // verus!
