use vstd::prelude::*;

verus! {

use crate::key::{KbdKey, StateKey};

/// One cell of the key map: what pressing the key at that position means.
#[allow(unused)]
#[derive(Debug, Copy, Clone, PartialEq, Eq, Hash)]
pub enum KeyAction {
    /// Fires immediately.
    CK(KbdKey),
    /// Uncertain: requires tap/hold disambiguation before anything fires.
    UK(UncertKey),
    /// Transparent: defer to the next lower active layer.
    TS,
    /// No effect.
    NoOp,
}

impl KeyAction {
    pub open spec fn wf(self) -> bool {
        match self {
            KeyAction::CK(kbd_key) => kbd_key.wf(),
            KeyAction::UK(uncert_key) => uncert_key.wf(),
            KeyAction::TS => true,
            KeyAction::NoOp => true,
        }
    }

    /// Check that every layer this action addresses exists.
    pub fn is_wf(&self) -> (ok: bool)
        ensures
            ok == self.wf(),
    {
        match self {
            KeyAction::CK(kbd_key) => kbd_key.is_wf(),
            KeyAction::UK(uncert_key) => uncert_key.is_wf(),
            KeyAction::TS => true,
            KeyAction::NoOp => true,
        }
    }
}

/// A key that carries both a hold meaning (a stateful key) and a tap meaning,
/// disambiguated only by what happens after its press.
#[allow(unused)]
#[derive(Debug, Copy, Clone, PartialEq, Eq, Hash)]
pub enum UncertKey {
    /// Resolved by the next event alone.
    SK(StateKey, KbdKey),
    /// Resolved by the next event or by a timeout, whichever is first. The
    /// last field is the timeout in milliseconds.
    MK(StateKey, KbdKey, u16),
}

impl UncertKey {
    /// The stateful key applied when the key resolves as a hold.
    pub open spec fn hold_spec(self) -> StateKey {
        match self {
            UncertKey::SK(hold, _) => hold,
            UncertKey::MK(hold, _, _) => hold,
        }
    }

    /// The key applied (pressed, then released) when the key resolves as a
    /// tap.
    pub open spec fn tap_spec(self) -> KbdKey {
        match self {
            UncertKey::SK(_, tap) => tap,
            UncertKey::MK(_, tap, _) => tap,
        }
    }

    pub open spec fn wf(self) -> bool {
        self.hold_spec().wf() && self.tap_spec().wf()
    }

    /// The timeout after which the key resolves as a hold on its own, if it
    /// has one, in milliseconds.
    pub open spec fn timeout_spec(self) -> Option<u16> {
        match self {
            UncertKey::SK(_, _) => None,
            UncertKey::MK(_, _, time_ms) => Some(time_ms),
        }
    }

    /// Check that every layer this key addresses exists.
    pub fn is_wf(&self) -> (ok: bool)
        ensures
            ok == self.wf(),
    {
        self.hold().is_wf() && self.tap().is_wf()
    }

    /// The stateful key applied when the key resolves as a hold.
    pub fn hold(&self) -> (hold: StateKey)
        ensures
            hold == self.hold_spec(),
    {
        match self {
            UncertKey::SK(hold, _) => *hold,
            UncertKey::MK(hold, _, _) => *hold,
        }
    }

    /// The key applied (pressed, then released) when the key resolves as a
    /// tap.
    pub fn tap(&self) -> (tap: KbdKey)
        ensures
            tap == self.tap_spec(),
    {
        match self {
            UncertKey::SK(_, tap) => *tap,
            UncertKey::MK(_, tap, _) => *tap,
        }
    }
}

} // verus!
