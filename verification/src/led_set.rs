//! Sets of keyboard LED codes, kept in the bit set that the input subsystem's
//! bindings use for device capabilities and for device state.

use evdev::{AttributeSet, LedCode};
use vstd::prelude::*;

verus! {

/// Code of the Num Lock LED.
pub const LED_NUML: u16 = 0x00;

/// Code of the Caps Lock LED.
pub const LED_CAPSL: u16 = 0x01;

/// Number of LED codes that the input subsystem defines. A `LedSet` has one
/// bit for each code below it and none for any other.
pub const LED_COUNT: u16 = 0x10;

/// The keyboard indicators that the widget shows.
#[derive(Clone, Copy, Debug, PartialEq, Eq, Structural)]
pub enum Indicator {
    NumLock,
    CapsLock,
}

impl Indicator {
    /// The LED code under which the input subsystem reports the indicator.
    pub open spec fn led_code(self) -> u16 {
        match self {
            Indicator::NumLock => LED_NUML,
            Indicator::CapsLock => LED_CAPSL,
        }
    }

    /// The LED code under which the input subsystem reports the indicator.
    pub fn code(self) -> (code: u16)
        ensures
            code == self.led_code(),
            code < LED_COUNT,
    {
        match self {
            Indicator::NumLock => LED_NUML,
            Indicator::CapsLock => LED_CAPSL,
        }
    }
}

/// A set of LED codes: the LEDs that a device has, or the LEDs that are lit.
///
/// The codes live in an `evdev::AttributeSet<LedCode>`, whose type cannot be
/// declared to the verifier (its bound is a trait that `evdev` keeps private),
/// so the field is hidden and every access goes through the four private
/// functions below, whose contracts are taken on trust.
#[verifier::external_body]
pub struct LedSet {
    bits: AttributeSet<LedCode>,
}

/// The codes that a `LedSet` holds: `code` is among them exactly when
/// `AttributeSetRef::contains(LedCode(code))` answers `true` on the bit set
/// inside.
pub uninterp spec fn lit_codes(leds: LedSet) -> Set<u16>;

impl View for LedSet {
    type V = Set<u16>;

    open spec fn view(&self) -> Set<u16> {
        lit_codes(*self)
    }
}

impl LedSet {
    /// Trusted: `AttributeSet::new`. It starts from a zeroed bit array, so the
    /// new set contains no code.
    #[verifier::external_body]
    fn zeroed() -> (leds: LedSet)
        ensures
            lit_codes(leds) == Set::<u16>::empty(),
    {
        LedSet { bits: AttributeSet::new() }
    }

    /// Trusted: `AttributeSetRef::contains`. It reads the bit at the code's
    /// index and answers `false` for an index beyond the bit array, which is
    /// how `lit_codes` is defined.
    #[verifier::external_body]
    fn test_bit(&self, code: u16) -> (lit: bool)
        ensures
            lit == lit_codes(*self).contains(code),
    {
        self.bits.contains(LedCode(code))
    }

    /// Trusted: `AttributeSetRef::insert`. It sets the bit at the code's index
    /// and touches no other bit. The bit array has `LED_COUNT` bits, and an
    /// index beyond it panics, hence the precondition.
    #[verifier::external_body]
    fn set_bit(&mut self, code: u16)
        requires
            code < LED_COUNT,
        ensures
            lit_codes(*final(self)) == lit_codes(*old(self)).insert(code),
    {
        self.bits.insert(LedCode(code))
    }

    /// Trusted: `AttributeSetRef::remove`. It clears the bit at the code's
    /// index and touches no other bit. The bit array has `LED_COUNT` bits, and
    /// an index beyond it panics, hence the precondition.
    #[verifier::external_body]
    fn clear_bit(&mut self, code: u16)
        requires
            code < LED_COUNT,
        ensures
            lit_codes(*final(self)) == lit_codes(*old(self)).remove(code),
    {
        self.bits.remove(LedCode(code))
    }

    /// The empty set: no LED is lit.
    pub fn new() -> (leds: LedSet)
        ensures
            leds@ == Set::<u16>::empty(),
    {
        LedSet::zeroed()
    }

    /// Whether the set holds `code`. A code from `LED_COUNT` on is in no set.
    pub fn contains(&self, code: u16) -> (lit: bool)
        ensures
            lit == self@.contains(code),
    {
        self.test_bit(code)
    }

    /// Whether the set holds the code of `indicator`.
    pub fn is_lit(&self, indicator: Indicator) -> (lit: bool)
        ensures
            lit == self@.contains(indicator.led_code()),
    {
        self.test_bit(indicator.code())
    }

    /// Records that the LED `code` is lit (`lit` is true) or dark: the code
    /// enters or leaves the set, and every other code stays as it was.
    pub fn set_led(&mut self, code: u16, lit: bool)
        requires
            code < LED_COUNT,
        ensures
            final(self)@ == if lit {
                old(self)@.insert(code)
            } else {
                old(self)@.remove(code)
            },
    {
        if lit {
            self.set_bit(code);
        } else {
            self.clear_bit(code);
        }
    }

    /// Builds the set that holds exactly the listed codes. A set has no room
    /// for a code from `LED_COUNT` on: with such a code in the list there is no
    /// set to build, and the answer is `None`.
    pub fn from_codes(codes: &Vec<u16>) -> (built: Option<LedSet>)
        ensures
            built is Some <==> (forall|i: int| 0 <= i < codes@.len() ==> codes@[i] < LED_COUNT),
            built matches Some(leds) ==> leds@ == codes@.to_set(),
    {
        let mut leds = LedSet::new();
        let mut i: usize = 0;
        while i < codes.len()
            invariant
                i <= codes@.len(),
                forall|k: int| 0 <= k < i ==> codes@[k] < LED_COUNT,
                leds@ == codes@.take(i as int).to_set(),
            decreases codes@.len() - i,
        {
            let code = codes[i];
            if code >= LED_COUNT {
                return None;
            }
            leds.set_bit(code);
            proof {
                let seen = codes@.take(i as int);
                assert(codes@.take(i + 1) == seen.push(code));
                seen.lemma_push_to_set_commute(code);
            }
            i += 1;
        }
        proof {
            assert(codes@.take(i as int) == codes@);
        }
        Some(leds)
    }
}

} // verus!
