use led_widget::led_set::{Indicator, LedSet, LED_CAPSL, LED_NUML};
use led_widget::widget::{render_label, render_widget};

const NONE_LIT: &str = "(box :spacing 6 (label :class ' led' :valign 'center' :text 'A' :width 18 ) (label :class ' led' :valign 'center' :text '1' :width 18 ))";
const CAPS_LIT: &str = "(box :spacing 6 (label :class 'locked led' :valign 'center' :text 'A' :width 18 ) (label :class ' led' :valign 'center' :text '1' :width 18 ))";
const NUM_LIT: &str = "(box :spacing 6 (label :class ' led' :valign 'center' :text 'A' :width 18 ) (label :class 'locked led' :valign 'center' :text '1' :width 18 ))";
const BOTH_LIT: &str = "(box :spacing 6 (label :class 'locked led' :valign 'center' :text 'A' :width 18 ) (label :class 'locked led' :valign 'center' :text '1' :width 18 ))";

#[test]
fn renders_neither_lit() {
    let leds = LedSet::new();
    assert_eq!(render_widget(&leds), NONE_LIT);
}

#[test]
fn renders_caps_lock_lit() {
    let leds = LedSet::from_codes(&vec![LED_CAPSL]).unwrap();
    assert_eq!(render_widget(&leds), CAPS_LIT);
}

#[test]
fn renders_num_lock_lit() {
    let leds = LedSet::from_codes(&vec![LED_NUML]).unwrap();
    assert_eq!(render_widget(&leds), NUM_LIT);
}

#[test]
fn renders_both_lit() {
    let leds = LedSet::from_codes(&vec![LED_NUML, LED_CAPSL]).unwrap();
    assert_eq!(render_widget(&leds), BOTH_LIT);
}

#[test]
fn rendering_twice_gives_the_same_text() {
    for codes in [vec![], vec![0], vec![1], vec![0, 1], vec![2, 5], vec![1, 9]] {
        let leds = LedSet::from_codes(&codes).unwrap();
        let first = render_widget(&leds);
        let second = render_widget(&leds);
        assert_eq!(first, second);
    }
}

#[test]
fn other_leds_do_not_change_the_text() {
    let scroll_only = LedSet::from_codes(&vec![2]).unwrap();
    assert_eq!(render_widget(&scroll_only), NONE_LIT);
    let all_but_tracked: Vec<u16> = (2..16).collect();
    let leds = LedSet::from_codes(&all_but_tracked).unwrap();
    assert_eq!(render_widget(&leds), NONE_LIT);
    let caps_and_others = LedSet::from_codes(&vec![1, 2, 3, 15]).unwrap();
    assert_eq!(render_widget(&caps_and_others), CAPS_LIT);
    let every: Vec<u16> = (0..16).collect();
    assert_eq!(render_widget(&LedSet::from_codes(&every).unwrap()), BOTH_LIT);
}

#[test]
fn the_four_texts_differ() {
    let texts = [NONE_LIT, CAPS_LIT, NUM_LIT, BOTH_LIT];
    for i in 0..4 {
        for j in 0..4 {
            assert_eq!(texts[i] == texts[j], i == j);
        }
    }
}

#[test]
fn label_of_a_dark_indicator() {
    assert_eq!(
        render_label(false, "A"),
        "(label :class ' led' :valign 'center' :text 'A' :width 18 )"
    );
}

#[test]
fn label_of_a_lit_indicator() {
    assert_eq!(
        render_label(true, "1"),
        "(label :class 'locked led' :valign 'center' :text '1' :width 18 )"
    );
}

#[test]
fn symbols_of_the_indicators() {
    assert_eq!(Indicator::CapsLock.symbol(), "A");
    assert_eq!(Indicator::NumLock.symbol(), "1");
}

#[test]
fn widget_matches_the_formatted_template() {
    for (caps, num) in [(false, false), (true, false), (false, true), (true, true)] {
        let mut leds = LedSet::new();
        leds.set_led(LED_CAPSL, caps);
        leds.set_led(LED_NUML, num);
        let labels: Vec<String> = [(caps, "A"), (num, "1")]
            .iter()
            .map(|(lit, name)| {
                let locked = if *lit { "locked" } else { "" };
                format!("(label :class '{locked} led' :valign 'center' :text '{name}' :width 18 )")
            })
            .collect();
        assert_eq!(render_widget(&leds), format!("(box :spacing 6 {})", labels.join(" ")));
    }
}
