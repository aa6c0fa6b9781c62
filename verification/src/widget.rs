//! The widget: one line of text that a status bar reads, with one label for
//! Caps Lock and one for Num Lock.

use crate::led_set::{Indicator, LedSet, LED_CAPSL, LED_NUML};
use vstd::prelude::*;
use vstd::string::StringExecFns;

verus! {

/// The class that marks the label of a lit indicator.
pub open spec fn class_text(lit: bool) -> Seq<char> {
    if lit {
        "locked"@
    } else {
        Seq::<char>::empty()
    }
}

/// The label of one indicator: its class, then the fixed class `led`, and the
/// symbol as the label's text.
pub open spec fn label_text(lit: bool, symbol: Seq<char>) -> Seq<char> {
    "(label :class '"@ + class_text(lit) + " led' :valign 'center' :text '"@ + symbol
        + "' :width 18 )"@
}

impl Indicator {
    /// The symbol that stands for the indicator in the widget.
    pub open spec fn symbol_text(self) -> Seq<char> {
        match self {
            Indicator::CapsLock => "A"@,
            Indicator::NumLock => "1"@,
        }
    }

    /// The symbol that stands for the indicator in the widget.
    pub fn symbol(self) -> (symbol: &'static str)
        ensures
            symbol@ == self.symbol_text(),
    {
        match self {
            Indicator::CapsLock => "A",
            Indicator::NumLock => "1",
        }
    }
}

/// The whole widget: a box with the Caps Lock label first and the Num Lock
/// label second, one space between them.
pub open spec fn widget_text(caps_lit: bool, num_lit: bool) -> Seq<char> {
    "(box :spacing 6 "@ + label_text(caps_lit, Indicator::CapsLock.symbol_text()) + " "@
        + label_text(num_lit, Indicator::NumLock.symbol_text()) + ")"@
}

/// The widget for a set of lit LED codes. Only Caps Lock and Num Lock count.
pub open spec fn widget_of(lit: Set<u16>) -> Seq<char> {
    widget_text(lit.contains(LED_CAPSL), lit.contains(LED_NUML))
}

/// Renders the label of one indicator.
pub fn render_label(lit: bool, symbol: &str) -> (text: String)
    ensures
        text@ == label_text(lit, symbol@),
{
    let mut text = String::from_str("(label :class '");
    if lit {
        text.append("locked");
    }
    text.append(" led' :valign 'center' :text '");
    text.append(symbol);
    text.append("' :width 18 )");
    text
}

/// Renders the widget for the LEDs that are lit. Only Caps Lock and Num Lock
/// count: no other code in `leds` changes the text.
pub fn render_widget(leds: &LedSet) -> (text: String)
    ensures
        text@ == widget_of(leds@),
{
    let caps = render_label(leds.is_lit(Indicator::CapsLock), Indicator::CapsLock.symbol());
    let num = render_label(leds.is_lit(Indicator::NumLock), Indicator::NumLock.symbol());
    let mut text = String::from_str("(box :spacing 6 ");
    text.append(caps.as_str());
    text.append(" ");
    text.append(num.as_str());
    text.append(")");
    text
}

/// The label of a dark indicator carries the class `led` alone.
pub proof fn lemma_dark_label(symbol: Seq<char>)
    ensures
        label_text(false, symbol) == "(label :class ' led' :valign 'center' :text '"@ + symbol
            + "' :width 18 )"@,
{
    reveal_strlit("(label :class '");
    reveal_strlit(" led' :valign 'center' :text '");
    reveal_strlit("(label :class ' led' :valign 'center' :text '");
    assert("(label :class '"@ + class_text(false) + " led' :valign 'center' :text '"@
        =~= "(label :class ' led' :valign 'center' :text '"@);
}

/// The label of a lit indicator carries the classes `locked` and `led`.
pub proof fn lemma_lit_label(symbol: Seq<char>)
    ensures
        label_text(true, symbol) == "(label :class 'locked led' :valign 'center' :text '"@ + symbol
            + "' :width 18 )"@,
{
    reveal_strlit("(label :class '");
    reveal_strlit("locked");
    reveal_strlit(" led' :valign 'center' :text '");
    reveal_strlit("(label :class 'locked led' :valign 'center' :text '");
    assert("(label :class '"@ + class_text(true) + " led' :valign 'center' :text '"@
        =~= "(label :class 'locked led' :valign 'center' :text '"@);
}

/// With neither Caps Lock nor Num Lock lit, both labels are dark.
pub proof fn lemma_widget_none_lit()
    ensures
        widget_text(false, false)
            == "(box :spacing 6 (label :class ' led' :valign 'center' :text 'A' :width 18 ) (label :class ' led' :valign 'center' :text '1' :width 18 ))"@,
{
    lemma_dark_label("A"@);
    lemma_dark_label("1"@);
    reveal_strlit("(box :spacing 6 ");
    reveal_strlit("(label :class ' led' :valign 'center' :text '");
    reveal_strlit("' :width 18 )");
    reveal_strlit("A");
    reveal_strlit("1");
    reveal_strlit(" ");
    reveal_strlit(")");
    reveal_strlit("(box :spacing 6 (label :class ' led' :valign 'center' :text 'A' :width 18 ) (label :class ' led' :valign 'center' :text '1' :width 18 ))");
    assert(widget_text(false, false)
        =~= "(box :spacing 6 (label :class ' led' :valign 'center' :text 'A' :width 18 ) (label :class ' led' :valign 'center' :text '1' :width 18 ))"@);
}

/// With Caps Lock lit and Num Lock dark, the first label alone is `locked`.
pub proof fn lemma_widget_caps_lit()
    ensures
        widget_text(true, false)
            == "(box :spacing 6 (label :class 'locked led' :valign 'center' :text 'A' :width 18 ) (label :class ' led' :valign 'center' :text '1' :width 18 ))"@,
{
    lemma_lit_label("A"@);
    lemma_dark_label("1"@);
    reveal_strlit("(box :spacing 6 ");
    reveal_strlit("(label :class 'locked led' :valign 'center' :text '");
    reveal_strlit("(label :class ' led' :valign 'center' :text '");
    reveal_strlit("' :width 18 )");
    reveal_strlit("A");
    reveal_strlit("1");
    reveal_strlit(" ");
    reveal_strlit(")");
    reveal_strlit("(box :spacing 6 (label :class 'locked led' :valign 'center' :text 'A' :width 18 ) (label :class ' led' :valign 'center' :text '1' :width 18 ))");
    assert(widget_text(true, false)
        =~= "(box :spacing 6 (label :class 'locked led' :valign 'center' :text 'A' :width 18 ) (label :class ' led' :valign 'center' :text '1' :width 18 ))"@);
}

/// With Num Lock lit and Caps Lock dark, the second label alone is `locked`.
pub proof fn lemma_widget_num_lit()
    ensures
        widget_text(false, true)
            == "(box :spacing 6 (label :class ' led' :valign 'center' :text 'A' :width 18 ) (label :class 'locked led' :valign 'center' :text '1' :width 18 ))"@,
{
    lemma_dark_label("A"@);
    lemma_lit_label("1"@);
    reveal_strlit("(box :spacing 6 ");
    reveal_strlit("(label :class ' led' :valign 'center' :text '");
    reveal_strlit("(label :class 'locked led' :valign 'center' :text '");
    reveal_strlit("' :width 18 )");
    reveal_strlit("A");
    reveal_strlit("1");
    reveal_strlit(" ");
    reveal_strlit(")");
    reveal_strlit("(box :spacing 6 (label :class ' led' :valign 'center' :text 'A' :width 18 ) (label :class 'locked led' :valign 'center' :text '1' :width 18 ))");
    assert(widget_text(false, true)
        =~= "(box :spacing 6 (label :class ' led' :valign 'center' :text 'A' :width 18 ) (label :class 'locked led' :valign 'center' :text '1' :width 18 ))"@);
}

/// With Caps Lock and Num Lock lit, both labels are `locked`.
pub proof fn lemma_widget_both_lit()
    ensures
        widget_text(true, true)
            == "(box :spacing 6 (label :class 'locked led' :valign 'center' :text 'A' :width 18 ) (label :class 'locked led' :valign 'center' :text '1' :width 18 ))"@,
{
    lemma_lit_label("A"@);
    lemma_lit_label("1"@);
    reveal_strlit("(box :spacing 6 ");
    reveal_strlit("(label :class 'locked led' :valign 'center' :text '");
    reveal_strlit("' :width 18 )");
    reveal_strlit("A");
    reveal_strlit("1");
    reveal_strlit(" ");
    reveal_strlit(")");
    reveal_strlit("(box :spacing 6 (label :class 'locked led' :valign 'center' :text 'A' :width 18 ) (label :class 'locked led' :valign 'center' :text '1' :width 18 ))");
    assert(widget_text(true, true)
        =~= "(box :spacing 6 (label :class 'locked led' :valign 'center' :text 'A' :width 18 ) (label :class 'locked led' :valign 'center' :text '1' :width 18 ))"@);
}

/// Rendering reads the two indicators and nothing else: a state rendered
/// twice, or two states that agree on Caps Lock and on Num Lock, give one and
/// the same text.
pub proof fn lemma_render_stable(first: Set<u16>, second: Set<u16>)
    requires
        first.contains(LED_CAPSL) == second.contains(LED_CAPSL),
        first.contains(LED_NUML) == second.contains(LED_NUML),
    ensures
        widget_of(first) == widget_of(second),
{
}

/// The text tells the state of both indicators: states that differ on Caps
/// Lock or on Num Lock never render alike.
pub proof fn lemma_widget_text_distinct(caps_a: bool, num_a: bool, caps_b: bool, num_b: bool)
    requires
        widget_text(caps_a, num_a) == widget_text(caps_b, num_b),
    ensures
        caps_a == caps_b,
        num_a == num_b,
{
    lemma_widget_none_lit();
    lemma_widget_caps_lit();
    lemma_widget_num_lit();
    lemma_widget_both_lit();
    reveal_strlit("(box :spacing 6 (label :class ' led' :valign 'center' :text 'A' :width 18 ) (label :class ' led' :valign 'center' :text '1' :width 18 ))");
    reveal_strlit("(box :spacing 6 (label :class 'locked led' :valign 'center' :text 'A' :width 18 ) (label :class ' led' :valign 'center' :text '1' :width 18 ))");
    reveal_strlit("(box :spacing 6 (label :class ' led' :valign 'center' :text 'A' :width 18 ) (label :class 'locked led' :valign 'center' :text '1' :width 18 ))");
    reveal_strlit("(box :spacing 6 (label :class 'locked led' :valign 'center' :text 'A' :width 18 ) (label :class 'locked led' :valign 'center' :text '1' :width 18 ))");
    let a = widget_text(caps_a, num_a);
    let b = widget_text(caps_b, num_b);
    // Each `locked` adds six characters, so texts of one length agree on how
    // many labels are lit. The class of the first label starts at index 31,
    // which tells which one is lit where it is one of the two.
    assert(a.len() == b.len());
    assert(a[31] == b[31]);
}

} // verus!
