use vstd::prelude::*;

verus! {

use crate::constants::{KEY_NUM, LAYER_NUM};
use crate::key::{KbdKey, LayerKey, StateKey};
use crate::key_action::{KeyAction, UncertKey};
use crate::key_buffer::{
    buf_press,
    buf_release,
    spec_render,
    KeyBuffer,
    KeyBufferView,
    KeyReport,
    ReportView,
};
use crate::key_event::KeyEvent;

/// The compiled key map: one action per key per layer, immutable at run
/// time.
pub type KeyMap = [[KeyAction; KEY_NUM]; LAYER_NUM];

/// One input to the key-resolution state machine: the next key event, or the
/// verdict that the pending key's disambiguation timeout elapsed before any
/// event arrived.
#[derive(Debug, Copy, Clone, PartialEq, Eq)]
pub enum CoreInput {
    Event(KeyEvent),
    Timeout,
}

/// The abstract state of the key-resolution state machine.
#[verifier::ext_equal]
pub ghost struct CoreView {
    /// The key buffer the reports are rendered from.
    pub buffer: KeyBufferView,
    /// The at most one uncertain key awaiting disambiguation, with the index
    /// it was pressed at.
    pub pending: Option<(UncertKey, int)>,
    /// The compiled key map.
    pub key_map: Seq<Seq<KeyAction>>,
    /// Which layers are active.
    pub layers: Seq<bool>,
    /// Per key, the concrete key whose press is live there, to be undone by
    /// the matching release.
    pub cache: Seq<Option<KbdKey>>,
}

/// The outcome of one abstract transition: the next state and the reports it
/// emits, in order.
#[verifier::ext_equal]
pub ghost struct CoreStep {
    pub state: CoreView,
    pub reports: Seq<ReportView>,
}

/// A transition that changes nothing and emits nothing.
pub open spec fn spec_nothing(state: CoreView) -> CoreStep {
    CoreStep { state, reports: Seq::empty() }
}

/// A well-formed key map: one row per layer, one action per key, and every
/// layer an action refers to exists.
pub open spec fn wf_key_map(key_map: Seq<Seq<KeyAction>>) -> bool {
    &&& key_map.len() == LAYER_NUM
    &&& forall|layer: int| 0 <= layer < LAYER_NUM ==> (#[trigger] key_map[layer]).len() == KEY_NUM
    &&& forall|layer: int, key: int|
        0 <= layer < LAYER_NUM && 0 <= key < KEY_NUM ==> (#[trigger] key_map[layer][key]).wf()
}

/// A well-formed machine state: the sizes fit the compiled-in constants and
/// every cached or pending key is itself well-formed.
pub open spec fn wf_view(state: CoreView) -> bool {
    &&& state.buffer.held.len() <= 6
    &&& wf_key_map(state.key_map)
    &&& state.layers.len() == LAYER_NUM
    &&& state.cache.len() == KEY_NUM
    &&& forall|i: int|
        0 <= i < KEY_NUM ==> ((#[trigger] state.cache[i]) matches Some(key) ==> key.wf())
    &&& (state.pending matches Some((uncert, origin)) ==> uncert.wf() && 0 <= origin < KEY_NUM)
}

/// Press semantics of a concrete key at `index`: a plain key enters the
/// buffer (dropped when six keys are held) and emits a report; a modifier
/// sets its bit and emits a report; a layer key activates its layer and
/// emits nothing. The key is cached under `index` so the matching release
/// can undo it.
pub open spec fn spec_press_kbd(state: CoreView, key: KbdKey, index: int) -> CoreStep {
    match key {
        KbdKey::Normal(qwerty_key) => {
            let buffer = KeyBufferView {
                modifier: state.buffer.modifier,
                held: buf_press(state.buffer.held, qwerty_key.code_spec()),
            };
            CoreStep {
                state: CoreView {
                    buffer,
                    pending: state.pending,
                    key_map: state.key_map,
                    layers: state.layers,
                    cache: state.cache.update(index, Some(key)),
                },
                reports: seq![spec_render(buffer)],
            }
        },
        KbdKey::State(StateKey::Modifier(modifier_key)) => {
            let buffer = KeyBufferView {
                modifier: state.buffer.modifier | (1u8 << (modifier_key.code_spec() & 0x0f)),
                held: state.buffer.held,
            };
            CoreStep {
                state: CoreView {
                    buffer,
                    pending: state.pending,
                    key_map: state.key_map,
                    layers: state.layers,
                    cache: state.cache.update(index, Some(key)),
                },
                reports: seq![spec_render(buffer)],
            }
        },
        KbdKey::State(StateKey::Layer(layer_key)) => {
            CoreStep {
                state: CoreView {
                    buffer: state.buffer,
                    pending: state.pending,
                    key_map: state.key_map,
                    layers: state.layers.update(layer_key.layer_spec() as int, true),
                    cache: state.cache.update(index, Some(key)),
                },
                reports: Seq::empty(),
            }
        },
    }
}

/// Release semantics of a concrete key at `index`: the inverse mutation of
/// its press, except that a sticky layer key leaves its layer active. The
/// cache slot of `index` is cleared.
pub open spec fn spec_release_kbd(state: CoreView, key: KbdKey, index: int) -> CoreStep {
    match key {
        KbdKey::Normal(qwerty_key) => {
            let buffer = KeyBufferView {
                modifier: state.buffer.modifier,
                held: buf_release(state.buffer.held, qwerty_key.code_spec()),
            };
            CoreStep {
                state: CoreView {
                    buffer,
                    pending: state.pending,
                    key_map: state.key_map,
                    layers: state.layers,
                    cache: state.cache.update(index, None),
                },
                reports: seq![spec_render(buffer)],
            }
        },
        KbdKey::State(StateKey::Modifier(modifier_key)) => {
            let buffer = KeyBufferView {
                modifier: state.buffer.modifier & !(1u8 << (modifier_key.code_spec() & 0x0f)),
                held: state.buffer.held,
            };
            CoreStep {
                state: CoreView {
                    buffer,
                    pending: state.pending,
                    key_map: state.key_map,
                    layers: state.layers,
                    cache: state.cache.update(index, None),
                },
                reports: seq![spec_render(buffer)],
            }
        },
        KbdKey::State(StateKey::Layer(layer_key)) => {
            let layers = match layer_key {
                LayerKey::LayerOn(layer) => state.layers.update(layer as int, false),
                LayerKey::LayerSwitch(_) => state.layers,
            };
            CoreStep {
                state: CoreView {
                    buffer: state.buffer,
                    pending: state.pending,
                    key_map: state.key_map,
                    layers,
                    cache: state.cache.update(index, None),
                },
                reports: Seq::empty(),
            }
        },
    }
}

/// Scan the layers from `layer` downward: the first active layer whose cell
/// for `index` is not transparent decides; an active layer's transparent
/// cell falls through; when nothing decides, the effective action is no
/// action.
pub open spec fn spec_action_scan(state: CoreView, layer: int, index: int) -> KeyAction
    decreases layer + 1,
{
    if layer < 0 {
        KeyAction::NoOp
    } else if state.layers[layer] && !(state.key_map[layer][index] is TS) {
        state.key_map[layer][index]
    } else {
        spec_action_scan(state, layer - 1, index)
    }
}

/// The effective action of a press at `index`: the layer scan from the
/// highest layer down.
pub open spec fn spec_get_press_action(state: CoreView, index: int) -> KeyAction {
    spec_action_scan(state, LAYER_NUM - 1, index)
}

/// What a resolved press action does: a certain key fires at once; an
/// uncertain key becomes pending, with nothing fired yet; a transparent or
/// empty cell does nothing.
pub open spec fn spec_press_action(state: CoreView, action: KeyAction, index: int) -> CoreStep {
    match action {
        KeyAction::CK(key) => spec_press_kbd(state, key, index),
        KeyAction::UK(uncert) => CoreStep {
            state: CoreView {
                buffer: state.buffer,
                pending: Some((uncert, index)),
                key_map: state.key_map,
                layers: state.layers,
                cache: state.cache,
            },
            reports: Seq::empty(),
        },
        KeyAction::TS => spec_nothing(state),
        KeyAction::NoOp => spec_nothing(state),
    }
}

/// One event processed from the idle state: a release undoes whatever key is
/// cached under its index (and is ignored on a cache miss); a press resolves
/// the effective action of its index.
pub open spec fn spec_process_event(state: CoreView, event: KeyEvent) -> CoreStep {
    let index = event.key_index as int;
    if !event.is_pressed {
        match state.cache[index] {
            Some(key) => spec_release_kbd(state, key, index),
            None => spec_nothing(state),
        }
    } else {
        spec_press_action(state, spec_get_press_action(state, index), index)
    }
}

/// Resolution of the pending uncertain key (already removed from `state`):
/// an event at the origin index is a tap — the tap key is pressed and at
/// once released, and the event is consumed; an event elsewhere is a hold —
/// the hold key is pressed under the origin index and the event is then
/// processed as a fresh idle-state event; a timeout is a hold with no event
/// consumed.
pub open spec fn spec_resolve(
    state: CoreView,
    uncert: UncertKey,
    origin: int,
    input: CoreInput,
) -> CoreStep {
    match input {
        CoreInput::Event(event) => {
            if event.key_index as int == origin {
                let tapped = spec_press_kbd(state, uncert.tap_spec(), origin);
                let released = spec_release_kbd(tapped.state, uncert.tap_spec(), origin);
                CoreStep { state: released.state, reports: tapped.reports + released.reports }
            } else {
                let held = spec_press_kbd(state, KbdKey::State(uncert.hold_spec()), origin);
                let rest = spec_process_event(held.state, event);
                CoreStep { state: rest.state, reports: held.reports + rest.reports }
            }
        },
        CoreInput::Timeout => spec_press_kbd(state, KbdKey::State(uncert.hold_spec()), origin),
    }
}

/// The whole transition on one input: with a pending key, the input resolves
/// it; in the idle state, an event is processed and a timeout verdict (which
/// the idle state never asks for) does nothing.
pub open spec fn spec_step(state: CoreView, input: CoreInput) -> CoreStep {
    match state.pending {
        Some((uncert, origin)) => spec_resolve(
            CoreView {
                buffer: state.buffer,
                pending: None,
                key_map: state.key_map,
                layers: state.layers,
                cache: state.cache,
            },
            uncert,
            origin,
            input,
        ),
        None => match input {
            CoreInput::Event(event) => spec_process_event(state, event),
            CoreInput::Timeout => spec_nothing(state),
        },
    }
}

/// The reports a step hands back match the emitted abstract reports, in
/// order.
pub open spec fn reports_match(reports: Seq<KeyReport>, emitted: Seq<ReportView>) -> bool {
    &&& reports.len() == emitted.len()
    &&& forall|i: int| 0 <= i < emitted.len() ==> (#[trigger] reports[i])@ == emitted[i]
}

/// A report vector grew by exactly the emitted abstract reports, in order,
/// leaving what was there before in place.
pub open spec fn reports_appended(
    before: Seq<KeyReport>,
    after: Seq<KeyReport>,
    emitted: Seq<ReportView>,
) -> bool {
    &&& after.len() == before.len() + emitted.len()
    &&& after.take(before.len() as int) == before
    &&& forall|i: int|
        0 <= i < emitted.len() ==> (#[trigger] after[before.len() + i])@ == emitted[i]
}

/// Two successive appends compose.
proof fn lemma_reports_appended_trans(
    before: Seq<KeyReport>,
    mid: Seq<KeyReport>,
    after: Seq<KeyReport>,
    first: Seq<ReportView>,
    second: Seq<ReportView>,
)
    requires
        reports_appended(before, mid, first),
        reports_appended(mid, after, second),
    ensures
        reports_appended(before, after, first + second),
{
    assert(after.take(mid.len() as int) == mid);
    assert forall|i: int| 0 <= i < before.len() implies after[i] == before[i] by {
        assert(mid[i] == after.take(mid.len() as int)[i]);
        assert(before[i] == mid.take(before.len() as int)[i]);
    }
    assert(after.take(before.len() as int) =~= before);
    assert forall|i: int| 0 <= i < (first + second).len() implies (#[trigger] after[before.len()
        + i])@ == (first + second)[i] by {
        if i < first.len() {
            assert(mid[before.len() + i] == after.take(mid.len() as int)[before.len() + i]);
            assert((mid[before.len() + i])@ == first[i]);
        } else {
            assert((after[mid.len() + (i - first.len())])@ == second[i - first.len()]);
        }
    }
}

/// Check a compiled key map before handing it to [`KbdCore::new`]: every
/// layer any of its actions refers to must exist.
pub fn key_map_is_wf(key_map: &KeyMap) -> (ok: bool)
    ensures
        ok == wf_key_map(key_map@.map_values(|row: [KeyAction; KEY_NUM]| row@)),
{
    let ghost map_view = key_map@.map_values(|row: [KeyAction; KEY_NUM]| row@);
    let mut layer: usize = 0;
    while layer < LAYER_NUM
        invariant
            layer <= LAYER_NUM,
            map_view == key_map@.map_values(|row: [KeyAction; KEY_NUM]| row@),
            forall|l: int, k: int|
                0 <= l < layer && 0 <= k < KEY_NUM ==> (#[trigger] map_view[l][k]).wf(),
        decreases LAYER_NUM - layer,
    {
        let mut key: usize = 0;
        while key < KEY_NUM
            invariant
                layer < LAYER_NUM,
                key <= KEY_NUM,
                map_view == key_map@.map_values(|row: [KeyAction; KEY_NUM]| row@),
                forall|l: int, k: int|
                    0 <= l < layer && 0 <= k < KEY_NUM ==> (#[trigger] map_view[l][k]).wf(),
                forall|k: int| 0 <= k < key ==> (#[trigger] map_view[layer as int][k]).wf(),
            decreases KEY_NUM - key,
        {
            proof {
                assert(map_view[layer as int] == key_map@[layer as int]@);
            }
            if !key_map[layer][key].is_wf() {
                proof {
                    assert(!map_view[layer as int][key as int].wf());
                }
                return false;
            }
            key = key + 1;
        }
        layer = layer + 1;
    }
    true
}

/// Appending to an empty vector yields exactly the emitted reports.
proof fn lemma_appended_from_empty(
    before: Seq<KeyReport>,
    after: Seq<KeyReport>,
    emitted: Seq<ReportView>,
)
    requires
        before.len() == 0,
        reports_appended(before, after, emitted),
    ensures
        reports_match(after, emitted),
{
    assert forall|i: int| 0 <= i < emitted.len() implies (#[trigger] after[i])@ == emitted[i] by {
        assert((after[before.len() + i])@ == emitted[i]);
    }
}

/// The key-resolution state machine: consumes key events (and timeout
/// verdicts for pending tap/hold keys), resolves layer, tap and hold
/// semantics, mutates the key buffer, and emits reports.
pub struct KbdCore {
    /// The held-key sequence and modifier mask the reports are built from.
    key_buffer: KeyBuffer,
    /// The at most one uncertain key awaiting disambiguation.
    uncert_key: Option<(UncertKey, usize)>,
    /// The compiled key map.
    key_map: KeyMap,
    /// Which layers are active; higher layers take precedence.
    layer_state: [bool; LAYER_NUM],
    /// What a later release at each index has to undo, even if the layers
    /// have changed since the press.
    kbd_cache: [Option<KbdKey>; KEY_NUM],
}

impl View for KbdCore {
    type V = CoreView;

    closed spec fn view(&self) -> CoreView {
        CoreView {
            buffer: self.key_buffer@,
            pending: match self.uncert_key {
                Some((uncert, origin)) => Some((uncert, origin as int)),
                None => None,
            },
            key_map: self.key_map@.map_values(|row: [KeyAction; KEY_NUM]| row@),
            layers: self.layer_state@,
            cache: self.kbd_cache@,
        }
    }
}

impl KbdCore {
    /// The machine's invariant: its view is well-formed and the buffer's
    /// internal representation is sound.
    pub closed spec fn wf(&self) -> bool {
        &&& self.key_buffer.wf()
        &&& wf_view(self@)
    }

    /// A fresh machine over a compiled key map: nothing held, nothing
    /// pending, nothing cached, and only the base layer active.
    pub fn new(key_map: KeyMap) -> (core: KbdCore)
        requires
            wf_key_map(key_map@.map_values(|row: [KeyAction; KEY_NUM]| row@)),
        ensures
            core.wf(),
            core@.key_map == key_map@.map_values(|row: [KeyAction; KEY_NUM]| row@),
            core@.buffer.modifier == 0,
            core@.buffer.held == Seq::<u8>::empty(),
            core@.pending is None,
            core@.layers == Seq::new(LAYER_NUM as nat, |i: int| i == 0),
            core@.cache == Seq::new(KEY_NUM as nat, |i: int| None::<KbdKey>),
    {
        let mut layer_state = [false; LAYER_NUM];
        layer_state[0] = true;
        let core = KbdCore {
            key_buffer: KeyBuffer::default(),
            uncert_key: None,
            key_map,
            layer_state,
            kbd_cache: [None; KEY_NUM],
        };
        proof {
            assert(core@.layers =~= Seq::new(LAYER_NUM as nat, |i: int| i == 0));
            assert(core@.cache =~= Seq::new(KEY_NUM as nat, |i: int| None::<KbdKey>));
        }
        core
    }

    /// Whether the given layer is currently active.
    pub fn layer_active(&self, layer: usize) -> (active: bool)
        requires
            self.wf(),
            layer < LAYER_NUM,
        ensures
            active == self@.layers[layer as int],
    {
        self.layer_state[layer]
    }

    /// Apply press semantics for a concrete key and cache it under
    /// `key_index`, appending any emitted report.
    fn process_press_kbd_key(&mut self, kbd_key: KbdKey, key_index: usize, reports: &mut Vec<
        KeyReport,
    >)
        requires
            old(self).wf(),
            kbd_key.wf(),
            key_index < KEY_NUM,
        ensures
            final(self).wf(),
            final(self)@ == spec_press_kbd(old(self)@, kbd_key, key_index as int).state,
            reports_appended(
                old(reports)@,
                final(reports)@,
                spec_press_kbd(old(self)@, kbd_key, key_index as int).reports,
            ),
    {
        match kbd_key {
            KbdKey::Normal(qwerty_key) => {
                self.key_buffer.presse_key(qwerty_key.code());
                let report = self.key_buffer.get_cur_report();
                reports.push(report);
                proof {
                    assert(report@ =~= spec_render(self.key_buffer@));
                }
            },
            KbdKey::State(StateKey::Modifier(modifier_key)) => {
                let code = modifier_key.code();
                proof {
                    assert(0xE0 <= code && code <= 0xE7);
                    assert(code & 0x0f < 8) by (bit_vector)
                        requires
                            0xE0 <= code && code <= 0xE7,
                    ;
                }
                self.key_buffer.set_modifier(code);
                let report = self.key_buffer.get_cur_report();
                reports.push(report);
                proof {
                    assert(report@ =~= spec_render(self.key_buffer@));
                }
            },
            KbdKey::State(StateKey::Layer(layer_key)) => {
                match layer_key {
                    LayerKey::LayerOn(layer) => {
                        self.layer_state[layer as usize] = true;
                    },
                    LayerKey::LayerSwitch(layer) => {
                        self.layer_state[layer as usize] = true;
                    },
                }
            },
        }
        self.kbd_cache[key_index] = Some(kbd_key);
        proof {
            let step = spec_press_kbd(old(self)@, kbd_key, key_index as int);
            assert(self@ =~= step.state);
            assert(final(reports)@.take(old(reports)@.len() as int) =~= old(reports)@);
        }
    }

    /// Apply release semantics for a concrete key and clear its cache slot,
    /// appending any emitted report.
    fn process_release_kbd_key(&mut self, kbd_key: KbdKey, key_index: usize, reports: &mut Vec<
        KeyReport,
    >)
        requires
            old(self).wf(),
            kbd_key.wf(),
            key_index < KEY_NUM,
        ensures
            final(self).wf(),
            final(self)@ == spec_release_kbd(old(self)@, kbd_key, key_index as int).state,
            reports_appended(
                old(reports)@,
                final(reports)@,
                spec_release_kbd(old(self)@, kbd_key, key_index as int).reports,
            ),
    {
        match kbd_key {
            KbdKey::Normal(qwerty_key) => {
                proof {
                    old(self)@.buffer.held.index_of_first_ensures(qwerty_key.code_spec());
                }
                self.key_buffer.release_key(qwerty_key.code());
                let report = self.key_buffer.get_cur_report();
                reports.push(report);
                proof {
                    assert(report@ =~= spec_render(self.key_buffer@));
                }
            },
            KbdKey::State(StateKey::Modifier(modifier_key)) => {
                let code = modifier_key.code();
                proof {
                    assert(0xE0 <= code && code <= 0xE7);
                    assert(code & 0x0f < 8) by (bit_vector)
                        requires
                            0xE0 <= code && code <= 0xE7,
                    ;
                }
                self.key_buffer.unset_modifier(code);
                let report = self.key_buffer.get_cur_report();
                reports.push(report);
                proof {
                    assert(report@ =~= spec_render(self.key_buffer@));
                }
            },
            KbdKey::State(StateKey::Layer(layer_key)) => {
                match layer_key {
                    LayerKey::LayerOn(layer) => {
                        self.layer_state[layer as usize] = false;
                    },
                    LayerKey::LayerSwitch(_layer) => {},
                }
            },
        }
        self.kbd_cache[key_index] = None;
        proof {
            let step = spec_release_kbd(old(self)@, kbd_key, key_index as int);
            assert(self@ =~= step.state);
            assert(final(reports)@.take(old(reports)@.len() as int) =~= old(reports)@);
        }
    }

    /// Resolve the effective action of a press at `key_index`: scan the
    /// layers from the highest to the lowest active one, skipping transparent
    /// cells.
    fn get_press_action(&self, key_index: usize) -> (action: KeyAction)
        requires
            self.wf(),
            key_index < KEY_NUM,
        ensures
            action == spec_get_press_action(self@, key_index as int),
            action.wf(),
            !(action is TS),
    {
        let mut layer_idx: usize = LAYER_NUM;
        while layer_idx > 0
            invariant
                self.wf(),
                key_index < KEY_NUM,
                layer_idx <= LAYER_NUM,
                spec_get_press_action(self@, key_index as int) == spec_action_scan(
                    self@,
                    layer_idx - 1,
                    key_index as int,
                ),
            decreases layer_idx,
        {
            layer_idx = layer_idx - 1;
            if self.layer_state[layer_idx] {
                let action = self.key_map[layer_idx][key_index];
                proof {
                    assert(self@.key_map[layer_idx as int] == self.key_map@[layer_idx as int]@);
                    assert(action == self@.key_map[layer_idx as int][key_index as int]);
                }
                if !matches!(action, KeyAction::TS) {
                    return action;
                }
            }
        }
        KeyAction::NoOp
    }

    /// Apply a resolved press action at `key_index`: a certain key fires at
    /// once, an uncertain key becomes pending, a transparent or empty cell
    /// does nothing.
    fn process_press_action(&mut self, action: &KeyAction, key_index: usize, reports: &mut Vec<
        KeyReport,
    >)
        requires
            old(self).wf(),
            action.wf(),
            key_index < KEY_NUM,
        ensures
            final(self).wf(),
            final(self)@ == spec_press_action(old(self)@, *action, key_index as int).state,
            reports_appended(
                old(reports)@,
                final(reports)@,
                spec_press_action(old(self)@, *action, key_index as int).reports,
            ),
    {
        match action {
            KeyAction::CK(kbd_key) => {
                self.process_press_kbd_key(*kbd_key, key_index, reports);
            },
            KeyAction::UK(uncert_key) => {
                self.uncert_key = Some((*uncert_key, key_index));
                proof {
                    assert(self@ =~= spec_press_action(
                        old(self)@,
                        *action,
                        key_index as int,
                    ).state);
                    assert(final(reports)@.take(old(reports)@.len() as int) =~= old(reports)@);
                }
            },
            KeyAction::TS => {
                proof {
                    assert(final(reports)@.take(old(reports)@.len() as int) =~= old(reports)@);
                }
            },
            KeyAction::NoOp => {
                proof {
                    assert(final(reports)@.take(old(reports)@.len() as int) =~= old(reports)@);
                }
            },
        }
    }

    /// Process one event from the idle state: a release undoes the key
    /// cached under its index (and is ignored on a cache miss), a press
    /// resolves and applies the effective action of its index.
    fn process_event(&mut self, event: KeyEvent, reports: &mut Vec<KeyReport>)
        requires
            old(self).wf(),
            (event.key_index as int) < KEY_NUM,
        ensures
            final(self).wf(),
            final(self)@ == spec_process_event(old(self)@, event).state,
            reports_appended(
                old(reports)@,
                final(reports)@,
                spec_process_event(old(self)@, event).reports,
            ),
    {
        let key_index = event.key_index as usize;
        if !event.is_pressed {
            match self.kbd_cache[key_index] {
                Some(kbd_key) => {
                    self.process_release_kbd_key(kbd_key, key_index, reports);
                },
                None => {
                    // A release with no cached press: already released or
                    // unmapped, ignored.
                    proof {
                        assert(final(reports)@.take(old(reports)@.len() as int) =~= old(reports)@);
                    }
                },
            }
        } else {
            let action = self.get_press_action(key_index);
            self.process_press_action(&action, key_index, reports);
        }
    }

    /// Resolve the pending uncertain key, already removed from the state: an
    /// event at the origin index is a tap (press, then at once release, the
    /// tap key, consuming the event); an event elsewhere is a hold (press
    /// the hold key under the origin index, then process the event as a
    /// fresh idle-state one); a timeout verdict is a hold with no event
    /// consumed.
    fn process_with_uncert_key(
        &mut self,
        uncert_key: UncertKey,
        key_index: usize,
        input: CoreInput,
        reports: &mut Vec<KeyReport>,
    )
        requires
            old(self).wf(),
            old(self)@.pending is None,
            uncert_key.wf(),
            key_index < KEY_NUM,
            input matches CoreInput::Event(event) ==> (event.key_index as int) < KEY_NUM,
        ensures
            final(self).wf(),
            final(self)@ == spec_resolve(old(self)@, uncert_key, key_index as int, input).state,
            reports_appended(
                old(reports)@,
                final(reports)@,
                spec_resolve(old(self)@, uncert_key, key_index as int, input).reports,
            ),
    {
        match input {
            CoreInput::Event(event) => {
                if event.key_index as usize == key_index {
                    let kbd_key = uncert_key.tap();
                    let ghost tapped = spec_press_kbd(old(self)@, kbd_key, key_index as int);
                    self.process_press_kbd_key(kbd_key, key_index, reports);
                    let ghost mid_reports = *reports;
                    self.process_release_kbd_key(kbd_key, key_index, reports);
                    proof {
                        lemma_reports_appended_trans(
                            old(reports)@,
                            mid_reports@,
                            reports@,
                            tapped.reports,
                            spec_release_kbd(tapped.state, kbd_key, key_index as int).reports,
                        );
                    }
                } else {
                    let hold = uncert_key.hold();
                    let ghost held = spec_press_kbd(
                        old(self)@,
                        KbdKey::State(uncert_key.hold_spec()),
                        key_index as int,
                    );
                    self.process_press_kbd_key(KbdKey::State(hold), key_index, reports);
                    let ghost mid_reports = *reports;
                    self.process_event(event, reports);
                    proof {
                        lemma_reports_appended_trans(
                            old(reports)@,
                            mid_reports@,
                            reports@,
                            held.reports,
                            spec_process_event(held.state, event).reports,
                        );
                    }
                }
            },
            CoreInput::Timeout => {
                let hold = uncert_key.hold();
                self.process_press_kbd_key(KbdKey::State(hold), key_index, reports);
            },
        }
    }

    /// Feed the machine one input and collect the reports it emits, in
    /// order. An event's index must lie inside the key map, and a timeout
    /// verdict is only meaningful while the machine waits on a
    /// disambiguation timeout (see [`Self::pending_timeout_ms`]).
    pub fn step(&mut self, input: CoreInput) -> (reports: Vec<KeyReport>)
        requires
            old(self).wf(),
            input matches CoreInput::Event(event) ==> (event.key_index as int) < KEY_NUM,
            input is Timeout ==> (old(self)@.pending matches Some((uncert, _))
                && uncert.timeout_spec() is Some),
        ensures
            final(self).wf(),
            final(self)@ == spec_step(old(self)@, input).state,
            reports_match(reports@, spec_step(old(self)@, input).reports),
            final(self)@.key_map == old(self)@.key_map,
    {
        let mut reports: Vec<KeyReport> = Vec::new();
        let ghost before = reports@;
        match self.uncert_key {
            Some((uncert_key, key_index)) => {
                self.uncert_key = None;
                let ghost cleared = *self;
                proof {
                    assert(cleared@ =~= CoreView {
                        buffer: old(self)@.buffer,
                        pending: None,
                        key_map: old(self)@.key_map,
                        layers: old(self)@.layers,
                        cache: old(self)@.cache,
                    });
                }
                self.process_with_uncert_key(uncert_key, key_index, input, &mut reports);
            },
            None => {
                match input {
                    CoreInput::Event(event) => {
                        self.process_event(event, &mut reports);
                    },
                    CoreInput::Timeout => {
                        // Never asked for while idle; nothing to resolve.
                    },
                }
            },
        }
        proof {
            let emitted = spec_step(old(self)@, input).reports;
            if old(self)@.pending is Some {
                lemma_appended_from_empty(before, reports@, emitted);
            } else {
                assert(reports_match(reports@, emitted)) by {
                    match input {
                        CoreInput::Event(_) => {
                            lemma_appended_from_empty(before, reports@, emitted);
                        },
                        CoreInput::Timeout => {},
                    }
                }
            }
        }
        reports
    }

    /// The disambiguation timeout the machine is waiting on, if any: the
    /// caller must race the next event against it and report whichever wins.
    /// With no pending key, or a pending key that only the next event can
    /// resolve, the machine just waits for the next event.
    pub fn pending_timeout_ms(&self) -> (timeout: Option<u16>)
        ensures
            timeout == match self@.pending {
                Some((uncert, _)) => uncert.timeout_spec(),
                None => None::<u16>,
            },
    {
        match self.uncert_key {
            Some((UncertKey::MK(_, _, time_ms), _)) => Some(time_ms),
            _ => None,
        }
    }
}

} // verus!
