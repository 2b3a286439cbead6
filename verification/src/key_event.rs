use vstd::prelude::*;

verus! {

/// One physical key transition, as reported by the debounced scanner.
#[derive(Debug, Copy, Clone, PartialEq, Eq, Hash)]
pub struct KeyEvent {
    pub is_pressed: bool,
    /// Index into the key map. At most 256 keys are addressable; the producer
    /// is responsible for keeping the index inside the compiled map.
    pub key_index: u8,
}

impl KeyEvent {
    pub fn new(is_pressed: bool, key_index: u8) -> (event: KeyEvent)
        ensures
            event == (KeyEvent { is_pressed, key_index }),
    {
        KeyEvent { is_pressed, key_index }
    }
}

} // verus!
