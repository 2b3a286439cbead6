//! Event-driven keyboard-controller core.
//!
//! The crate turns raw, noisy switch-matrix samples into a clean, ordered
//! stream of USB boot-protocol keyboard reports, in three stages:
//!
//! * [`debounce`] — a per-key saturating-counter debouncer that converts a raw
//!   bit-matrix sample into a stable bit-matrix plus the set of keys whose
//!   stable state just flipped;
//! * [`key_buffer`] — the modifier bitmask and the ordered sequence of at most
//!   six held plain keycodes, rendered into the fixed wire report;
//! * [`kbd_core`] — the key-resolution state machine: layer lookup with
//!   transparent fall-through, tap/hold disambiguation of uncertain keys, and
//!   the press/release mutations of the key buffer.
//!
//! Everything here is synchronous and allocation-light: the surrounding
//! program owns the queues and the clock, feeds events (or a timeout verdict)
//! into [`kbd_core::KbdCore::step`], and forwards the reports it returns.

pub mod constants;
pub mod debounce;
pub mod key;
pub mod key_action;
pub mod key_buffer;
pub mod key_event;
pub mod key_state;
pub mod kbd_core;
