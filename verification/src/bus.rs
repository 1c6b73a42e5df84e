//! The transports, and what they have in common.

use vstd::prelude::*;
use crate::error::Port;
use crate::signal::{Signal, ENABLE_HOLD_MS};
use crate::transfer::Transfer;
use crate::wire::{latched, wires_after, Sample, Wires};

pub mod eightbit;
pub mod fourbit;
pub mod i2c;

verus! {

/// A way to get bytes to the display controller.
pub trait DataBus: Sized {
    /// The signals that send `byte` to the controller, as data if `data` is
    /// set and as a command if not.
    spec fn write_plan(&self, byte: u8, data: bool) -> Seq<Signal>;

    /// The signals that switch the backlight to `state`.
    spec fn backlight_plan(&self, state: bool) -> Seq<Signal>;

    /// The transport once its backlight has been switched to `state`.
    spec fn with_backlight(&self, state: bool) -> Self;

    /// Plans the sending of one byte. The transport itself is left as it was.
    fn write(&mut self, byte: u8, data: bool) -> (transfer: Transfer)
        ensures
            transfer@ == old(self).write_plan(byte, data),
            *final(self) == *old(self),
    ;

    /// Switches the backlight, and plans the signals that make the switch
    /// visible.
    fn set_backlight(&mut self, state: bool) -> (transfer: Transfer)
        ensures
            transfer@ == old(self).backlight_plan(state),
            *final(self) == old(self).with_backlight(state),
    ;
}

/// One pulse of the enable line: up, held, down. The controller samples its
/// inputs as the line comes down.
pub open spec fn enable_pulse() -> Seq<Signal> {
    seq![
        Signal::Pin { port: Port::EN, high: true },
        Signal::Hold { ms: ENABLE_HOLD_MS },
        Signal::Pin { port: Port::EN, high: false },
    ]
}

/// What brings register-select back to rest after a byte was sent: nothing
/// after a command, for which it was never raised.
pub open spec fn rs_release(data: bool) -> Seq<Signal> {
    if data {
        seq![Signal::Pin { port: Port::RS, high: false }]
    } else {
        Seq::empty()
    }
}

/// Appends one pulse of the enable line.
pub(crate) fn push_enable_pulse(signals: &mut Vec<Signal>)
    ensures
        final(signals)@ == old(signals)@ + enable_pulse(),
{
    signals.push(Signal::Pin { port: Port::EN, high: true });
    signals.push(Signal::Hold { ms: ENABLE_HOLD_MS });
    signals.push(Signal::Pin { port: Port::EN, high: false });
    assert(signals@ =~= old(signals)@ + enable_pulse());
}

/// Appends what brings register-select back to rest.
pub(crate) fn push_rs_release(data: bool, signals: &mut Vec<Signal>)
    ensures
        final(signals)@ == old(signals)@ + rs_release(data),
{
    if data {
        signals.push(Signal::Pin { port: Port::RS, high: false });
    }
    assert(signals@ =~= old(signals)@ + rs_release(data));
}

/// A pulse of the enable line, begun while the line is low, makes the
/// controller take one sample, of the lines as they stood before the pulse
/// and after the full hold. It changes no other line.
pub proof fn lemma_enable_pulse(start: Wires)
    requires
        !start.en,
    ensures
        wires_after(start, enable_pulse(), 3) == (Wires { held: ENABLE_HOLD_MS as int, ..start }),
        latched(start, enable_pulse(), 3) == seq![
            Sample { rs: start.rs, data: start.data, held: ENABLE_HOLD_MS as int },
        ],
{
    reveal_with_fuel(wires_after, 4);
    reveal_with_fuel(latched, 4);
    assert(latched(start, enable_pulse(), 3) =~= seq![
        Sample { rs: start.rs, data: start.data, held: ENABLE_HOLD_MS as int },
    ]);
}

/// Driving register-select changes that line alone, and the controller
/// takes no sample.
pub proof fn lemma_rs_select(start: Wires, data: bool)
    ensures
        wires_after(start, seq![Signal::Pin { port: Port::RS, high: data }], 1) == (Wires {
            rs: data,
            ..start
        }),
        latched(start, seq![Signal::Pin { port: Port::RS, high: data }], 1) == Seq::<
            Sample,
        >::empty(),
{
    reveal_with_fuel(wires_after, 2);
    reveal_with_fuel(latched, 2);
    assert(latched(start, seq![Signal::Pin { port: Port::RS, high: data }], 1) =~= Seq::<
        Sample,
    >::empty());
}

/// Bringing register-select back to rest leaves it low, where it stood at
/// the level `data` before, changes no other line, and the controller takes
/// no sample.
pub proof fn lemma_rs_release(start: Wires, data: bool)
    requires
        start.rs == data,
    ensures
        wires_after(start, rs_release(data), rs_release(data).len()) == (Wires {
            rs: false,
            ..start
        }),
        latched(start, rs_release(data), rs_release(data).len()) == Seq::<Sample>::empty(),
{
    reveal_with_fuel(wires_after, 2);
    reveal_with_fuel(latched, 2);
    assert(latched(start, rs_release(data), rs_release(data).len()) =~= Seq::<Sample>::empty());
}

} // verus!
