//! Choosing the device to watch: the first one that has a Num Lock or a Caps
//! Lock LED.

use crate::error::MonitorError;
use crate::led_set::{Indicator, LedSet, LED_CAPSL, LED_NUML};
use vstd::prelude::*;

verus! {

/// Whether a device is worth watching, given the LEDs it declares (`None`
/// where it declares no LED capability at all): it is when it has a Num Lock
/// or a Caps Lock LED.
pub open spec fn has_tracked_led(leds: Option<LedSet>) -> bool {
    leds matches Some(set) && (set@.contains(LED_NUML) || set@.contains(LED_CAPSL))
}

/// Whether the device at `at` is the first in `devices` that is worth watching.
pub open spec fn is_first_match(devices: Seq<Option<LedSet>>, at: int) -> bool {
    &&& 0 <= at < devices.len()
    &&& has_tracked_led(devices[at])
    &&& forall|j: int| 0 <= j < at ==> !has_tracked_led(#[trigger] devices[j])
}

/// Whether no device in `devices` is worth watching.
pub open spec fn has_no_match(devices: Seq<Option<LedSet>>) -> bool {
    forall|j: int| 0 <= j < devices.len() ==> !has_tracked_led(#[trigger] devices[j])
}

/// Whether a device with these LEDs has a Num Lock or a Caps Lock LED.
pub fn supports_tracked_leds(leds: &Option<LedSet>) -> (supported: bool)
    ensures
        supported == has_tracked_led(*leds),
{
    match leds {
        Some(set) => set.is_lit(Indicator::NumLock) || set.is_lit(Indicator::CapsLock),
        None => false,
    }
}

/// Finds the device to watch among `devices`, which holds the LEDs of each
/// device in the order in which the devices were enumerated: the position of
/// the first device that has a Num Lock or a Caps Lock LED, or `None` where no
/// device has one.
pub fn find_device_for_leds(devices: &Vec<Option<LedSet>>) -> (found: Option<usize>)
    ensures
        match found {
            Some(at) => is_first_match(devices@, at as int),
            None => has_no_match(devices@),
        },
{
    let mut i: usize = 0;
    while i < devices.len()
        invariant
            i <= devices@.len(),
            forall|j: int| 0 <= j < i ==> !has_tracked_led(#[trigger] devices@[j]),
        decreases devices@.len() - i,
    {
        if supports_tracked_leds(&devices[i]) {
            return Some(i);
        }
        i += 1;
    }
    None
}

/// Chooses the device to watch, or fails with `DeviceNotFound` where no device
/// has a Num Lock or a Caps Lock LED.
pub fn select_device(devices: &Vec<Option<LedSet>>) -> (chosen: Result<usize, MonitorError>)
    ensures
        match chosen {
            Ok(at) => is_first_match(devices@, at as int),
            Err(error) => error == MonitorError::DeviceNotFound && has_no_match(devices@),
        },
{
    match find_device_for_leds(devices) {
        Some(at) => Ok(at),
        None => Err(MonitorError::DeviceNotFound),
    }
}

} // verus!
