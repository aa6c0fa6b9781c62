use led_widget::events::{RawEvent, EV_LED};
use led_widget::led_set::{LedSet, LED_CAPSL, LED_NUML};
use led_widget::monitor::{Monitor, Phase};

const NONE_LIT_LINE: &str = "(box :spacing 6 (label :class ' led' :valign 'center' :text 'A' :width 18 ) (label :class ' led' :valign 'center' :text '1' :width 18 ))";
const CAPS_LIT_LINE: &str = "(box :spacing 6 (label :class 'locked led' :valign 'center' :text 'A' :width 18 ) (label :class ' led' :valign 'center' :text '1' :width 18 ))";
const NUM_LIT_LINE: &str = "(box :spacing 6 (label :class ' led' :valign 'center' :text 'A' :width 18 ) (label :class 'locked led' :valign 'center' :text '1' :width 18 ))";
const BOTH_LIT_LINE: &str = "(box :spacing 6 (label :class 'locked led' :valign 'center' :text 'A' :width 18 ) (label :class 'locked led' :valign 'center' :text '1' :width 18 ))";

fn led_event(code: u16, value: i32) -> RawEvent {
    RawEvent { kind: EV_LED, code, value }
}

fn sync_event() -> RawEvent {
    RawEvent { kind: 0, code: 0, value: 0 }
}

fn watching(codes: &[u16]) -> Monitor {
    let mut monitor = Monitor::new();
    monitor.start(LedSet::from_codes(&codes.to_vec()).unwrap());
    monitor
}

#[test]
fn new_monitor_is_initializing() {
    let monitor = Monitor::new();
    assert_eq!(monitor.phase(), Phase::Initializing);
    assert!(!monitor.is_lit(LED_CAPSL));
    assert!(!monitor.is_lit(LED_NUML));
}

#[test]
fn start_prints_the_initial_state_and_watches() {
    let mut monitor = Monitor::new();
    let line = monitor.start(LedSet::from_codes(&vec![LED_NUML]).unwrap());
    assert_eq!(line, Some(String::from(NUM_LIT_LINE)));
    assert_eq!(monitor.phase(), Phase::Watching);
    assert!(monitor.is_lit(LED_NUML));
    assert!(!monitor.is_lit(LED_CAPSL));
}

#[test]
fn start_happens_once() {
    let mut monitor = watching(&[LED_CAPSL]);
    let again = monitor.start(LedSet::from_codes(&vec![LED_NUML]).unwrap());
    assert_eq!(again, None);
    assert_eq!(monitor.phase(), Phase::Watching);
    assert!(monitor.is_lit(LED_CAPSL));
    assert!(!monitor.is_lit(LED_NUML));
}

#[test]
fn batch_before_start_is_not_followed() {
    let mut monitor = Monitor::new();
    let line = monitor.on_batch(&vec![led_event(LED_CAPSL, 1), sync_event()]);
    assert_eq!(line, None);
    assert_eq!(monitor.phase(), Phase::Initializing);
    assert!(!monitor.is_lit(LED_CAPSL));
}

#[test]
fn caps_lock_on_prints_the_locked_label() {
    let mut monitor = watching(&[]);
    let line = monitor.on_batch(&vec![led_event(LED_CAPSL, 1), sync_event()]);
    assert_eq!(line, Some(String::from(CAPS_LIT_LINE)));
    assert!(monitor.is_lit(LED_CAPSL));
}

#[test]
fn on_and_off_in_one_batch_print_one_line_for_the_final_state() {
    let mut monitor = watching(&[]);
    let line = monitor.on_batch(&vec![led_event(LED_CAPSL, 1), led_event(LED_CAPSL, 0)]);
    assert_eq!(line, Some(String::from(NONE_LIT_LINE)));
    assert!(!monitor.is_lit(LED_CAPSL));
    assert_eq!(monitor.phase(), Phase::Watching);
}

#[test]
fn batch_without_led_event_prints_nothing() {
    let mut monitor = watching(&[LED_CAPSL]);
    let batch = vec![RawEvent { kind: 1, code: 30, value: 1 }, sync_event()];
    assert_eq!(monitor.on_batch(&batch), None);
    assert_eq!(monitor.on_batch(&Vec::new()), None);
    assert!(monitor.is_lit(LED_CAPSL));
}

#[test]
fn untracked_led_event_prints_the_unchanged_widget() {
    let mut monitor = watching(&[LED_NUML]);
    let line = monitor.on_batch(&vec![led_event(2, 1), sync_event()]);
    assert_eq!(line, Some(String::from(NUM_LIT_LINE)));
    assert!(monitor.is_lit(2));
}

#[test]
fn state_carries_over_from_batch_to_batch() {
    let mut monitor = watching(&[]);
    assert_eq!(
        monitor.on_batch(&vec![led_event(LED_NUML, 1), sync_event()]),
        Some(String::from(NUM_LIT_LINE))
    );
    assert_eq!(
        monitor.on_batch(&vec![led_event(LED_CAPSL, 1), sync_event()]),
        Some(String::from(BOTH_LIT_LINE))
    );
    assert_eq!(monitor.on_batch(&vec![sync_event()]), None);
    assert_eq!(
        monitor.on_batch(&vec![led_event(LED_NUML, 0), sync_event()]),
        Some(String::from(CAPS_LIT_LINE))
    );
    assert_eq!(
        monitor.on_batch(&vec![led_event(LED_CAPSL, 0), led_event(LED_CAPSL, 1), led_event(LED_CAPSL, 0)]),
        Some(String::from(NONE_LIT_LINE))
    );
    assert_eq!(monitor.phase(), Phase::Watching);
}
