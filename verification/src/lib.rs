//! Keyboard LED state for a status bar: which device to watch, which LEDs are
//! lit after the events it sends, and the widget text that shows Caps Lock and
//! Num Lock.

pub mod error;
pub mod events;
pub mod led_set;
pub mod locator;
pub mod monitor;
pub mod widget;
