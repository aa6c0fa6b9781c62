//! Input events as plain values, and what a batch of them does to the set of
//! lit LEDs.

use crate::led_set::{LedSet, LED_COUNT};
use evdev::{EventSummary, InputEvent};
use vstd::prelude::*;

verus! {

/// The event type under which the input subsystem reports that an LED changed.
pub const EV_LED: u16 = 0x11;

/// One input event as the kernel delivers it, without its time stamp: the
/// event type, the code within that type, and the value.
#[derive(Clone, Copy, Debug, PartialEq, Eq, Structural)]
pub struct RawEvent {
    pub kind: u16,
    pub code: u16,
    pub value: i32,
}

impl RawEvent {
    /// Whether the event reports an LED change.
    pub open spec fn is_led(self) -> bool {
        self.kind == EV_LED
    }

    /// Whether the event reports a change of the LED `code`.
    pub open spec fn reports(self, code: u16) -> bool {
        self.kind == EV_LED && self.code == code
    }

    /// Whether a `LedSet` can take the event in: an LED event must name a code
    /// below `LED_COUNT`; any other event is ignored and may hold anything.
    pub open spec fn fits(self) -> bool {
        self.kind == EV_LED ==> self.code < LED_COUNT
    }
}

/// Trusted: `InputEvent::new` followed by `InputEvent::destructure`. The
/// summary is the variant `Led` exactly for an event of type `EV_LED`, and
/// that variant carries the event's own code and value.
#[verifier::external_body]
fn led_change(kind: u16, code: u16, value: i32) -> (change: Option<(u16, i32)>)
    ensures
        change == if kind == EV_LED {
            Some((code, value))
        } else {
            None::<(u16, i32)>
        },
{
    match InputEvent::new(kind, code, value).destructure() {
        EventSummary::Led(_, led, state) => Some((led.0, state)),
        _ => None,
    }
}

/// The value of the last event in `events` that reports the LED `code`, if
/// there is one.
pub open spec fn last_report(events: Seq<RawEvent>, code: u16) -> Option<i32>
    decreases events.len(),
{
    if events.len() == 0 {
        None
    } else if events.last().reports(code) {
        Some(events.last().value)
    } else {
        last_report(events.drop_last(), code)
    }
}

/// The LEDs that are lit once `events` have arrived in order, given those that
/// were `lit` before: an LED whose last report carries a value other than zero
/// is lit, one whose last report carries zero is dark, and one that no event
/// reports is as it was.
pub open spec fn lit_after(lit: Set<u16>, events: Seq<RawEvent>) -> Set<u16> {
    Set::new(
        |code: u16|
            match last_report(events, code) {
                Some(value) => value != 0,
                None => lit.contains(code),
            },
    )
}

/// The LEDs that are lit once the single `event` has arrived, given those that
/// were `lit` before.
pub open spec fn lit_after_event(lit: Set<u16>, event: RawEvent) -> Set<u16> {
    if !event.is_led() {
        lit
    } else if event.value != 0 {
        lit.insert(event.code)
    } else {
        lit.remove(event.code)
    }
}

/// Whether some event in `events` reports an LED change.
pub open spec fn has_led_event(events: Seq<RawEvent>) -> bool {
    exists|i: int| 0 <= i < events.len() && (#[trigger] events[i]).is_led()
}

/// Whether a `LedSet` can take in every event of `events`.
pub open spec fn all_fit(events: Seq<RawEvent>) -> bool {
    forall|i: int| 0 <= i < events.len() ==> (#[trigger] events[i]).fits()
}

/// No event changes nothing.
pub proof fn lemma_lit_after_none(lit: Set<u16>)
    ensures
        lit_after(lit, Seq::<RawEvent>::empty()) == lit,
{
}

/// One more event at the end: an LED event switches its own LED on or off
/// and leaves the others alone; any other event leaves all of them alone.
pub proof fn lemma_lit_after_push(lit: Set<u16>, events: Seq<RawEvent>, event: RawEvent)
    ensures
        lit_after(lit, events.push(event)) == lit_after_event(lit_after(lit, events), event),
{
    assert(events.push(event).drop_last() == events);
}

/// Whether `at` is the place of the last event in `events` that reports the
/// LED `code`.
pub open spec fn is_last_report(events: Seq<RawEvent>, code: u16, at: int) -> bool {
    &&& 0 <= at < events.len()
    &&& events[at].reports(code)
    &&& forall|j: int| at < j < events.len() ==> !(#[trigger] events[j]).reports(code)
}

/// Whether no event in `events` reports the LED `code`.
pub open spec fn is_unreported(events: Seq<RawEvent>, code: u16) -> bool {
    forall|j: int| 0 <= j < events.len() ==> !(#[trigger] events[j]).reports(code)
}

/// An LED is lit after a sequence of events exactly when the last event that
/// reports it carries a value other than zero, whatever came before.
pub proof fn lemma_last_report_decides(lit: Set<u16>, events: Seq<RawEvent>, code: u16, at: int)
    requires
        is_last_report(events, code, at),
    ensures
        lit_after(lit, events).contains(code) <==> events[at].value != 0,
{
    lemma_last_report_found(events, code, at);
}

/// An LED that no event of a sequence reports is lit after it exactly when it
/// was lit before.
pub proof fn lemma_unreported_led_unchanged(lit: Set<u16>, events: Seq<RawEvent>, code: u16)
    requires
        is_unreported(events, code),
    ensures
        lit_after(lit, events).contains(code) <==> lit.contains(code),
{
    lemma_last_report_missing(events, code);
}

/// The LEDs that are lit after a sequence of events are exactly those whose
/// most recent report carries a value other than zero, together with those
/// that were lit before and that no event reports.
pub proof fn lemma_lit_after_is_last_reports(lit: Set<u16>, events: Seq<RawEvent>)
    ensures
        forall|code: u16| #[trigger]
            lit_after(lit, events).contains(code) <==> {
                ||| exists|at: int| is_last_report(events, code, at) && events[at].value != 0
                ||| lit.contains(code) && is_unreported(events, code)
            },
{
    assert forall|code: u16| #[trigger]
        lit_after(lit, events).contains(code) <==> {
            ||| exists|at: int| is_last_report(events, code, at) && events[at].value != 0
            ||| lit.contains(code) && is_unreported(events, code)
        } by {
        lemma_last_report_place(events, code);
    }
}

proof fn lemma_last_report_found(events: Seq<RawEvent>, code: u16, at: int)
    requires
        is_last_report(events, code, at),
    ensures
        last_report(events, code) == Some(events[at].value),
    decreases events.len(),
{
    if at < events.len() - 1 {
        lemma_last_report_found(events.drop_last(), code, at);
    }
}

proof fn lemma_last_report_missing(events: Seq<RawEvent>, code: u16)
    requires
        is_unreported(events, code),
    ensures
        last_report(events, code) is None,
    decreases events.len(),
{
    if events.len() > 0 {
        lemma_last_report_missing(events.drop_last(), code);
    }
}

proof fn lemma_last_report_place(events: Seq<RawEvent>, code: u16)
    ensures
        match last_report(events, code) {
            Some(value) => exists|at: int|
                is_last_report(events, code, at) && events[at].value == value,
            None => is_unreported(events, code),
        },
    decreases events.len(),
{
    if events.len() > 0 {
        let end = events.len() - 1;
        if events[end].reports(code) {
            assert(is_last_report(events, code, end));
        } else {
            let front = events.drop_last();
            lemma_last_report_place(front, code);
            match last_report(front, code) {
                Some(value) => {
                    let at = choose|at: int|
                        is_last_report(front, code, at) && front[at].value == value;
                    assert forall|j: int| at < j < events.len() implies !(
                    #[trigger] events[j]).reports(code) by {
                        if j < end {
                            assert(!front[j].reports(code));
                        }
                    }
                    assert(is_last_report(events, code, at));
                },
                None => {
                    assert forall|j: int| 0 <= j < events.len() implies !(
                    #[trigger] events[j]).reports(code) by {
                        if j < end {
                            assert(!front[j].reports(code));
                        }
                    }
                },
            }
        }
    }
}

/// Takes one event in. An LED event switches its LED on (value other than
/// zero) or off (zero); any other event is ignored. The answer tells whether
/// it was an LED event.
pub fn apply_event(leds: &mut LedSet, event: &RawEvent) -> (was_led: bool)
    requires
        event.fits(),
    ensures
        was_led == event.is_led(),
        final(leds)@ == lit_after_event(old(leds)@, *event),
{
    match led_change(event.kind, event.code, event.value) {
        Some((code, value)) => {
            leds.set_led(code, value != 0);
            true
        },
        None => false,
    }
}

/// Tells whether a `LedSet` can take in every event of `events`, which is what
/// `apply_events` asks of a batch.
pub fn events_fit(events: &Vec<RawEvent>) -> (fit: bool)
    ensures
        fit == all_fit(events@),
{
    let mut i: usize = 0;
    while i < events.len()
        invariant
            i <= events@.len(),
            forall|k: int| 0 <= k < i ==> (#[trigger] events@[k]).fits(),
        decreases events@.len() - i,
    {
        if events[i].kind == EV_LED && events[i].code >= LED_COUNT {
            return false;
        }
        i += 1;
    }
    true
}

/// Takes a batch of events in, in order. The answer tells whether the batch
/// held an LED event.
pub fn apply_events(leds: &mut LedSet, events: &Vec<RawEvent>) -> (any_led: bool)
    requires
        all_fit(events@),
    ensures
        any_led == has_led_event(events@),
        final(leds)@ == lit_after(old(leds)@, events@),
{
    let mut any_led = false;
    let mut i: usize = 0;
    proof {
        lemma_lit_after_none(leds@);
    }
    while i < events.len()
        invariant
            i <= events@.len(),
            all_fit(events@),
            any_led == has_led_event(events@.take(i as int)),
            leds@ == lit_after(old(leds)@, events@.take(i as int)),
        decreases events@.len() - i,
    {
        proof {
            let seen = events@.take(i as int);
            let event = events@[i as int];
            assert(events@.take(i + 1) == seen.push(event));
            lemma_lit_after_push(old(leds)@, seen, event);
            lemma_has_led_event_push(seen, event);
        }
        if apply_event(leds, &events[i]) {
            any_led = true;
        }
        i += 1;
    }
    proof {
        assert(events@.take(i as int) == events@);
    }
    any_led
}

proof fn lemma_has_led_event_push(events: Seq<RawEvent>, event: RawEvent)
    ensures
        has_led_event(events.push(event)) == (has_led_event(events) || event.is_led()),
{
    let longer = events.push(event);
    if has_led_event(events) {
        let k = choose|k: int| 0 <= k < events.len() && (#[trigger] events[k]).is_led();
        assert(longer[k].is_led());
    }
    if event.is_led() {
        assert(longer[events.len() as int].is_led());
    }
    if has_led_event(longer) && !event.is_led() {
        let k = choose|k: int| 0 <= k < longer.len() && (#[trigger] longer[k]).is_led();
        assert(events[k].is_led());
    }
}

} // verus!
