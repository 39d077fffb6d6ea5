//! Protocol layer for driving the RGB lightbar of a DualSense controller:
//! CRC-32 checksum engine, HSV color model, per-transport HID report
//! encoding, and the session bookkeeping (de-duplication and statistics)
//! around the raw HID writes.

pub mod checksum;
pub mod color;
pub mod effect;
pub mod report;
pub mod session;
