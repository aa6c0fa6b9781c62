//! The monitor: what the program knows between two reads from the device, and
//! what it prints after each.

use crate::events::{all_fit, apply_events, has_led_event, lit_after, RawEvent};
use crate::led_set::LedSet;
use crate::widget::{render_widget, widget_of};
use vstd::prelude::*;

verus! {

/// The two states of the monitor.
#[derive(Clone, Copy, Debug, PartialEq, Eq, Structural)]
pub enum Phase {
    /// Nothing has been printed yet, and the LEDs are not known.
    Initializing,
    /// The first widget has been printed; the monitor follows the device's
    /// events.
    Watching,
}

/// The monitor. It starts out initializing, without LEDs. `start` seeds it with
/// the state that the device reported and makes it watching; it stays so.
pub enum Monitor {
    Initializing,
    Watching(LedSet),
}

impl Monitor {
    /// The state the monitor is in.
    pub open spec fn phase_of(self) -> Phase {
        match self {
            Monitor::Initializing => Phase::Initializing,
            Monitor::Watching(_) => Phase::Watching,
        }
    }

    /// The LEDs that the monitor takes to be lit. It knows of none before it is
    /// seeded.
    pub open spec fn lit(self) -> Set<u16> {
        match self {
            Monitor::Initializing => Set::<u16>::empty(),
            Monitor::Watching(leds) => leds@,
        }
    }

    /// A monitor that is initializing.
    pub fn new() -> (monitor: Monitor)
        ensures
            monitor == Monitor::Initializing,
    {
        Monitor::Initializing
    }

    /// The state the monitor is in.
    pub fn phase(&self) -> (phase: Phase)
        ensures
            phase == self.phase_of(),
    {
        match self {
            Monitor::Initializing => Phase::Initializing,
            Monitor::Watching(_) => Phase::Watching,
        }
    }

    /// Whether the monitor takes the LED `code` to be lit.
    pub fn is_lit(&self, code: u16) -> (lit: bool)
        ensures
            lit == self.lit().contains(code),
    {
        match self {
            Monitor::Initializing => false,
            Monitor::Watching(leds) => leds.contains(code),
        }
    }

    /// Seeds the monitor with the LEDs that the device reported as lit, and
    /// hands back the first widget to print. This happens once: a monitor that
    /// is watching already keeps its state, drops `initial` and has nothing to
    /// print.
    pub fn start(&mut self, initial: LedSet) -> (line: Option<String>)
        ensures
            final(self).phase_of() == Phase::Watching,
            old(self).phase_of() == Phase::Initializing ==> {
                &&& *final(self) == Monitor::Watching(initial)
                &&& line matches Some(text)
                &&& text@ == widget_of(initial@)
            },
            old(self).phase_of() == Phase::Watching ==> {
                &&& *final(self) == *old(self)
                &&& line is None
            },
    {
        match self {
            Monitor::Initializing => {
                let text = render_widget(&initial);
                *self = Monitor::Watching(initial);
                Some(text)
            },
            Monitor::Watching(_) => None,
        }
    }

    /// Takes in one batch of events, as one read from the device delivered
    /// them. A watching monitor follows every LED event of the batch, in order,
    /// and then has one widget to print, for the state after the last event, if
    /// the batch held an LED event at all; after a batch without one it has
    /// nothing to print. A monitor that is still initializing has no state to
    /// follow: it stays as it is, with nothing to print.
    pub fn on_batch(&mut self, events: &Vec<RawEvent>) -> (line: Option<String>)
        requires
            all_fit(events@),
        ensures
            final(self).phase_of() == old(self).phase_of(),
            old(self).phase_of() == Phase::Initializing ==> {
                &&& *final(self) == *old(self)
                &&& line is None
            },
            old(self).phase_of() == Phase::Watching ==> {
                &&& final(self).lit() == lit_after(old(self).lit(), events@)
                &&& line is Some <==> has_led_event(events@)
                &&& line matches Some(text) ==> text@ == widget_of(final(self).lit())
            },
    {
        match self {
            Monitor::Initializing => None,
            Monitor::Watching(leds) => {
                if apply_events(leds, events) {
                    Some(render_widget(leds))
                } else {
                    None
                }
            },
        }
    }
}

} // verus!
