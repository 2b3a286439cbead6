use vstd::prelude::*;

verus! {

use crate::constants::{DEBOUNCE_THRESHOLD, KEY_BYTES_LEN, KEY_NUM};
use crate::key_event::KeyEvent;
use crate::key_state::{bit_at, lemma_or_bit_other, lemma_or_bit_same, lemma_zero_bit, BitKeyStates, KeyStates};
use vstd::arithmetic::div_mod::lemma_fundamental_div_mod;

/// The set of key indices whose stable state flipped in one scan cycle, one
/// bit per key.
pub struct KeyDiffs(BitKeyStates);

impl Default for KeyDiffs {
    /// No key marked as changed.
    fn default() -> (diff: KeyDiffs)
        ensures
            forall|i: int| 0 <= i < KEY_NUM ==> !diff.diff_at(i),
    {
        let diff = KeyDiffs([0u8; KEY_BYTES_LEN]);
        proof {
            assert forall|i: int| 0 <= i < KEY_NUM implies !diff.diff_at(i) by {
                assert(diff.0@[i / 8] == 0);
                lemma_zero_bit((i % 8) as u8);
            }
        }
        diff
    }
}

pub trait KeyDiffTrait: Sized {
    /// Whether key `index` is marked as changed.
    spec fn diff_at(&self, index: int) -> bool;

    /// Mark key `index` as changed, leaving every other key unchanged.
    fn set_different(&mut self, index: usize)
        requires
            index < KEY_NUM,
        ensures
            final(self).diff_at(index as int),
            forall|j: int|
                0 <= j < KEY_NUM && j != index as int ==> final(self).diff_at(j) == old(
                    self,
                ).diff_at(j),
    ;

    /// Read whether key `index` is marked as changed.
    fn is_different(&self, index: usize) -> (different: bool)
        requires
            index < KEY_NUM,
        ensures
            different == self.diff_at(index as int),
    ;
}

impl KeyDiffTrait for KeyDiffs {
    closed spec fn diff_at(&self, index: int) -> bool {
        bit_at(self.0@, index)
    }

    fn set_different(&mut self, index: usize) {
        let byte: usize = index / 8;
        let sh: u8 = (index % 8) as u8;
        self.0[byte] = self.0[byte] | (1u8 << sh);
        proof {
            assert forall|j: int| 0 <= j < KEY_NUM implies #[trigger] bit_at(self.0@, j) == (if j
                == index as int {
                true
            } else {
                bit_at(old(self).0@, j)
            }) by {
                if j / 8 == byte as int {
                    if j == index as int {
                        lemma_or_bit_same(old(self).0@[byte as int], sh);
                    } else if j % 8 == index as int % 8 {
                        lemma_fundamental_div_mod(j, 8);
                        lemma_fundamental_div_mod(index as int, 8);
                    } else {
                        lemma_or_bit_other(old(self).0@[byte as int], sh, (j % 8) as u8);
                    }
                }
            }
        }
    }

    fn is_different(&self, index: usize) -> (different: bool) {
        let byte: usize = index / 8;
        let sh: u8 = (index % 8) as u8;
        (self.0[byte] >> sh) & 1 == 1
    }
}

/// The counter of one key after one scan cycle: it drains toward zero while
/// the sample agrees with the stable state, and otherwise charges up to the
/// threshold, where it resets together with the toggle.
pub open spec fn spec_counter_step(same: bool, counter: u16) -> u16 {
    if same {
        if counter > 0 {
            (counter - 1) as u16
        } else {
            0
        }
    } else if counter < DEBOUNCE_THRESHOLD {
        (counter + 1) as u16
    } else {
        0
    }
}

/// Whether one key's stable state flips in one scan cycle: only when the
/// sample disagrees and the counter has already reached the threshold.
pub open spec fn spec_toggles(same: bool, counter: u16) -> bool {
    !same && counter >= DEBOUNCE_THRESHOLD
}

/// The stable state of one key after one scan cycle.
pub open spec fn spec_stable_step(same: bool, counter: u16, stable: bool) -> bool {
    if spec_toggles(same, counter) {
        !stable
    } else {
        stable
    }
}

/// A debouncing view of the switch matrix: feeding it one raw sample per
/// scan cycle yields the stable state plus the set of keys that flipped.
pub trait DebounceKeyStates: Sized {
    /// The debounced, official press state of key `index`.
    spec fn stable_at(&self, index: int) -> bool;

    /// The saturating disagreement counter of key `index`.
    spec fn counter_at(&self, index: int) -> u16;

    /// Run one scan cycle against the previous stable state: for every key
    /// independently, an agreeing sample drains the counter, a disagreeing
    /// sample charges it, and a disagreeing sample on a charged counter
    /// resets the counter, flips the stable state and reports the key as
    /// changed.
    fn debounce(&mut self, input: &BitKeyStates) -> (diff: KeyDiffs)
        ensures
            forall|i: int|
                0 <= i < KEY_NUM ==> {
                    let same = bit_at(input@, i) == old(self).stable_at(i);
                    &&& final(self).counter_at(i) == spec_counter_step(
                        same,
                        old(self).counter_at(i),
                    )
                    &&& final(self).stable_at(i) == spec_stable_step(
                        same,
                        old(self).counter_at(i),
                        old(self).stable_at(i),
                    )
                    &&& #[trigger] diff.diff_at(i) == spec_toggles(same, old(self).counter_at(i))
                },
    ;

    /// Read the debounced press state of key `index`.
    fn is_pressed(&self, index: usize) -> (pressed: bool)
        requires
            index < KEY_NUM,
        ensures
            pressed == self.stable_at(index as int),
    ;
}

/// The saturating-counter debouncer: a stable bitset plus one counter per
/// key.
pub struct PingPongKeyStates {
    inner: BitKeyStates,
    counter: [u16; KEY_NUM],
}

impl Default for PingPongKeyStates {
    /// A fresh debouncer: every key released, every counter drained.
    fn default() -> (states: PingPongKeyStates)
        ensures
            forall|i: int| 0 <= i < KEY_NUM ==> !states.stable_at(i),
            forall|i: int| 0 <= i < KEY_NUM ==> states.counter_at(i) == 0,
    {
        let states = PingPongKeyStates { inner: [0u8; KEY_BYTES_LEN], counter: [0u16; KEY_NUM] };
        proof {
            assert forall|i: int| 0 <= i < KEY_NUM implies !states.stable_at(i)
                && states.counter_at(i) == 0 by {
                assert(states.inner@[i / 8] == 0);
                lemma_zero_bit((i % 8) as u8);
            }
        }
        states
    }
}

impl DebounceKeyStates for PingPongKeyStates {
    closed spec fn stable_at(&self, index: int) -> bool {
        bit_at(self.inner@, index)
    }

    closed spec fn counter_at(&self, index: int) -> u16 {
        self.counter@[index]
    }

    fn debounce(&mut self, input: &BitKeyStates) -> (diff: KeyDiffs) {
        let mut diff = KeyDiffs::default();
        let mut index: usize = 0;
        while index < KEY_NUM
            invariant
                index <= KEY_NUM,
                forall|i: int|
                    index <= i < KEY_NUM ==> #[trigger] self.counter_at(i) == old(self).counter_at(
                        i,
                    ),
                forall|i: int|
                    index <= i < KEY_NUM ==> #[trigger] self.stable_at(i) == old(self).stable_at(i),
                forall|i: int| index <= i < KEY_NUM ==> !(#[trigger] diff.diff_at(i)),
                forall|i: int|
                    0 <= i < index ==> #[trigger] self.counter_at(i) == spec_counter_step(
                        bit_at(input@, i) == old(self).stable_at(i),
                        old(self).counter_at(i),
                    ),
                forall|i: int|
                    0 <= i < index ==> #[trigger] self.stable_at(i) == spec_stable_step(
                        bit_at(input@, i) == old(self).stable_at(i),
                        old(self).counter_at(i),
                        old(self).stable_at(i),
                    ),
                forall|i: int|
                    0 <= i < index ==> #[trigger] diff.diff_at(i) == spec_toggles(
                        bit_at(input@, i) == old(self).stable_at(i),
                        old(self).counter_at(i),
                    ),
            decreases KEY_NUM - index,
        {
            let ghost prev = *self;
            let ghost prev_diff = diff;
            if input.is_pressed(index) == self.inner.is_pressed(index) {
                if self.counter[index] > 0 {
                    self.counter[index] = self.counter[index] - 1;
                }
            } else if self.counter[index] < DEBOUNCE_THRESHOLD {
                self.counter[index] = self.counter[index] + 1;
            } else {
                self.counter[index] = 0;
                self.inner.toggle(index);
                diff.set_different(index);
            }
            proof {
                assert forall|i: int| index + 1 <= i < KEY_NUM implies #[trigger] self.counter_at(
                    i,
                ) == old(self).counter_at(i) by {
                    assert(prev.counter_at(i) == old(self).counter_at(i));
                }
                assert forall|i: int| index + 1 <= i < KEY_NUM implies #[trigger] self.stable_at(i)
                    == old(self).stable_at(i) by {
                    assert(prev.stable_at(i) == old(self).stable_at(i));
                    assert(prev.inner.pressed_at(i) == bit_at(prev.inner@, i));
                    assert(self.inner.pressed_at(i) == bit_at(self.inner@, i));
                }
                assert forall|i: int| index + 1 <= i < KEY_NUM implies !(#[trigger] diff.diff_at(
                    i,
                )) by {
                    assert(!prev_diff.diff_at(i));
                }
                assert forall|i: int| 0 <= i < index implies #[trigger] self.counter_at(i)
                    == spec_counter_step(
                    bit_at(input@, i) == old(self).stable_at(i),
                    old(self).counter_at(i),
                ) by {
                    assert(prev.counter_at(i) == spec_counter_step(
                        bit_at(input@, i) == old(self).stable_at(i),
                        old(self).counter_at(i),
                    ));
                }
                assert forall|i: int| 0 <= i < index implies #[trigger] self.stable_at(i)
                    == spec_stable_step(
                    bit_at(input@, i) == old(self).stable_at(i),
                    old(self).counter_at(i),
                    old(self).stable_at(i),
                ) by {
                    assert(prev.stable_at(i) == spec_stable_step(
                        bit_at(input@, i) == old(self).stable_at(i),
                        old(self).counter_at(i),
                        old(self).stable_at(i),
                    ));
                    assert(prev.inner.pressed_at(i) == bit_at(prev.inner@, i));
                    assert(self.inner.pressed_at(i) == bit_at(self.inner@, i));
                }
                assert forall|i: int| 0 <= i < index implies #[trigger] diff.diff_at(i)
                    == spec_toggles(
                    bit_at(input@, i) == old(self).stable_at(i),
                    old(self).counter_at(i),
                ) by {
                    assert(prev_diff.diff_at(i) == spec_toggles(
                        bit_at(input@, i) == old(self).stable_at(i),
                        old(self).counter_at(i),
                    ));
                }
                assert(prev.counter_at(index as int) == old(self).counter_at(index as int));
                assert(prev.stable_at(index as int) == old(self).stable_at(index as int));
                assert(prev.inner.pressed_at(index as int) == bit_at(prev.inner@, index as int));
                assert(self.inner.pressed_at(index as int) == bit_at(self.inner@, index as int));
                assert(input.pressed_at(index as int) == bit_at(input@, index as int));
                assert(self.counter_at(index as int) == spec_counter_step(
                    bit_at(input@, index as int) == old(self).stable_at(index as int),
                    old(self).counter_at(index as int),
                ));
                assert(self.stable_at(index as int) == spec_stable_step(
                    bit_at(input@, index as int) == old(self).stable_at(index as int),
                    old(self).counter_at(index as int),
                    old(self).stable_at(index as int),
                ));
                assert(diff.diff_at(index as int) == spec_toggles(
                    bit_at(input@, index as int) == old(self).stable_at(index as int),
                    old(self).counter_at(index as int),
                ));
            }
            index = index + 1;
        }
        diff
    }

    fn is_pressed(&self, index: usize) -> (pressed: bool) {
        self.inner.is_pressed(index)
    }
}

/// The key events one scan cycle produces for the first `bound` keys: one
/// event per changed index, in index order, pressed when the new stable
/// state is pressed.
pub open spec fn spec_key_events<D: DebounceKeyStates>(
    states: &D,
    diff: &KeyDiffs,
    bound: int,
) -> Seq<KeyEvent>
    decreases bound,
{
    if bound <= 0 {
        Seq::empty()
    } else {
        let rest = spec_key_events(states, diff, bound - 1);
        if diff.diff_at(bound - 1) {
            rest.push(
                KeyEvent { is_pressed: states.stable_at(bound - 1), key_index: (bound - 1) as u8 },
            )
        } else {
            rest
        }
    }
}

/// Turn the outcome of one scan cycle into the key events to hand on: one
/// per changed index, in index order, carrying the new stable state.
pub fn key_events<D: DebounceKeyStates>(states: &D, diff: &KeyDiffs) -> (events: Vec<KeyEvent>)
    ensures
        events@ == spec_key_events(states, diff, KEY_NUM as int),
{
    let mut events: Vec<KeyEvent> = Vec::new();
    let mut index: usize = 0;
    while index < KEY_NUM
        invariant
            index <= KEY_NUM,
            events@ == spec_key_events(states, diff, index as int),
        decreases KEY_NUM - index,
    {
        if diff.is_different(index) {
            events.push(KeyEvent::new(states.is_pressed(index), index as u8));
        }
        index = index + 1;
    }
    events
}

/// The counter and stable state of one key after `cycles` scan cycles in
/// which the raw sample for that key reads `sample` throughout.
pub open spec fn spec_debounce_run(stable: bool, counter: u16, sample: bool, cycles: nat) -> (
    u16,
    bool,
)
    decreases cycles,
{
    if cycles == 0 {
        (counter, stable)
    } else {
        let (c, b) = spec_debounce_run(stable, counter, sample, (cycles - 1) as nat);
        (spec_counter_step(sample == b, c), spec_stable_step(sample == b, c, b))
    }
}

/// Whether the key toggles on the `cycle`-th cycle (1-based) of such a run.
pub open spec fn spec_run_toggles(stable: bool, counter: u16, sample: bool, cycle: nat) -> bool
    recommends
        cycle >= 1,
{
    let (c, b) = spec_debounce_run(stable, counter, sample, (cycle - 1) as nat);
    spec_toggles(sample == b, c)
}

/// Debounce stability: a sample that disagrees with the stable state and is
/// held constant from a drained counter charges the counter by one per cycle
/// and reports no toggle while the counter is at most the threshold; on the
/// following cycle it reports exactly one toggle, after which the stable
/// state equals the sample and the counter is drained again.
pub proof fn lemma_debounce_stability(stable: bool, sample: bool, cycles: nat)
    requires
        sample != stable,
    ensures
        cycles <= DEBOUNCE_THRESHOLD ==> spec_debounce_run(stable, 0, sample, cycles) == (
        (cycles as u16),
        stable,
        ),
        1 <= cycles <= DEBOUNCE_THRESHOLD ==> !spec_run_toggles(stable, 0, sample, cycles),
        cycles == DEBOUNCE_THRESHOLD + 1 ==> spec_debounce_run(stable, 0, sample, cycles) == (
        0u16,
        sample,
        ) && spec_run_toggles(stable, 0, sample, cycles),
    decreases cycles,
{
    if cycles > 0 {
        lemma_debounce_stability(stable, sample, (cycles - 1) as nat);
    }
}

/// Debounce rejection: while the sample agrees with the stable state, no
/// toggle is ever reported and the counter drains by one per cycle back
/// toward zero.
pub proof fn lemma_debounce_rejection(stable: bool, counter: u16, cycles: nat)
    ensures
        spec_debounce_run(stable, counter, stable, cycles) == (
            (if cycles < counter {
                (counter - cycles) as u16
            } else {
                0u16
            }),
            stable,
        ),
        forall|cycle: nat|
            1 <= cycle <= cycles ==> !spec_run_toggles(stable, counter, stable, cycle),
    decreases cycles,
{
    if cycles > 0 {
        lemma_debounce_rejection(stable, counter, (cycles - 1) as nat);
        assert forall|cycle: nat|
            1 <= cycle <= cycles implies !spec_run_toggles(stable, counter, stable, cycle) by {
            lemma_debounce_rejection(stable, counter, (cycle - 1) as nat);
        }
    }
}

} // verus!
