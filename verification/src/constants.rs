use vstd::prelude::*;

verus! {

/// Number of physical keys in the switch matrix.
pub const KEY_NUM: usize = 8;

/// Number of key-map layers; higher layers take precedence when active.
pub const LAYER_NUM: usize = 4;

/// Bytes needed to hold one bit per physical key.
pub const KEY_BYTES_LEN: usize = (KEY_NUM + 7) / 8;

/// Capacity of the outbound report queue.
pub const REPORT_CHANNEL_SIZE: usize = 16;

/// Capacity of the inbound key-event queue.
pub const KEY_EVENT_CHANNEL_SIZE: usize = 32;

/// Matrix scan rate, in scans per second.
pub const SCAN_FREQUENCY: u64 = 10_000;

/// Minimum settle time before a contact change is accepted, in milliseconds.
pub const DEBOUNCE_SETTLE_MS: u64 = 10;

/// Consecutive disagreeing samples a key must accumulate before its stable
/// state flips: the number of scans in one settle window, that is the scan
/// rate times the settle time.
pub const DEBOUNCE_THRESHOLD: u16 = (SCAN_FREQUENCY * DEBOUNCE_SETTLE_MS / 1000) as u16;

} // verus!
