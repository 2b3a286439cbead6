use lint_kbd::constants::{KEY_NUM, LAYER_NUM};
use lint_kbd::kbd_core::{key_map_is_wf, CoreInput, KbdCore, KeyMap};
use lint_kbd::key::{KbdKey, LayerKey, ModifierKey, QwertyKey, StateKey};
use lint_kbd::key_action::{KeyAction, UncertKey};
use lint_kbd::key_event::KeyEvent;

fn empty_map() -> KeyMap {
    [[KeyAction::NoOp; KEY_NUM]; LAYER_NUM]
}

fn press(index: u8) -> CoreInput {
    CoreInput::Event(KeyEvent::new(true, index))
}

fn release(index: u8) -> CoreInput {
    CoreInput::Event(KeyEvent::new(false, index))
}

#[test]
fn key_event_new_carries_fields() {
    let event = KeyEvent::new(true, 7);
    assert!(event.is_pressed);
    assert_eq!(event.key_index, 7);
}

#[test]
fn fresh_core_is_idle_on_base_layer() {
    let mut core = KbdCore::new(empty_map());
    assert!(core.layer_active(0));
    for layer in 1..LAYER_NUM {
        assert!(!core.layer_active(layer));
    }
    assert_eq!(core.pending_timeout_ms(), None);
    // A press on an empty cell does nothing.
    let reports = core.step(press(0));
    assert!(reports.is_empty());
}

#[test]
fn certain_plain_key_press_and_release() {
    let mut map = empty_map();
    map[0][0] = KeyAction::CK(KbdKey::Normal(QwertyKey::A));
    let mut core = KbdCore::new(map);
    let reports = core.step(press(0));
    assert_eq!(reports.len(), 1);
    assert_eq!(reports[0].modifier, 0);
    assert_eq!(reports[0].keycodes, [0x04, 0, 0, 0, 0, 0]);
    let reports = core.step(release(0));
    assert_eq!(reports.len(), 1);
    assert_eq!(reports[0].keycodes, [0u8; 6]);
}

#[test]
fn certain_modifier_press_and_release() {
    let mut map = empty_map();
    map[0][5] = KeyAction::CK(KbdKey::State(StateKey::Modifier(ModifierKey::LShift)));
    let mut core = KbdCore::new(map);
    let reports = core.step(press(5));
    assert_eq!(reports.len(), 1);
    assert_eq!(reports[0].modifier, 0x02);
    assert_eq!(reports[0].keycodes, [0u8; 6]);
    let reports = core.step(release(5));
    assert_eq!(reports.len(), 1);
    assert_eq!(reports[0].modifier, 0);
}

#[test]
fn tap_resolution() {
    // An uncertain key released before any other event is a tap: the tap key
    // is pressed and at once released, and the hold modifier never appears.
    let mut map = empty_map();
    map[0][0] = KeyAction::UK(UncertKey::SK(
        StateKey::Modifier(ModifierKey::LShift),
        KbdKey::Normal(QwertyKey::A),
    ));
    let mut core = KbdCore::new(map);
    let reports = core.step(press(0));
    assert!(reports.is_empty());
    assert_eq!(core.pending_timeout_ms(), None);
    let reports = core.step(release(0));
    assert_eq!(reports.len(), 2);
    assert_eq!(reports[0].keycodes, [0x04, 0, 0, 0, 0, 0]);
    assert_eq!(reports[0].modifier, 0);
    assert_eq!(reports[1].keycodes, [0u8; 6]);
    assert_eq!(reports[1].modifier, 0);
}

#[test]
fn hold_resolution() {
    // An event on another key first is a hold: the hold modifier fires under
    // the original index, then the other event is processed normally.
    let mut map = empty_map();
    map[0][0] = KeyAction::UK(UncertKey::SK(
        StateKey::Modifier(ModifierKey::LShift),
        KbdKey::Normal(QwertyKey::A),
    ));
    map[0][1] = KeyAction::CK(KbdKey::Normal(QwertyKey::X));
    let mut core = KbdCore::new(map);
    let reports = core.step(press(0));
    assert!(reports.is_empty());
    let reports = core.step(press(1));
    assert_eq!(reports.len(), 2);
    assert_eq!(reports[0].modifier, 0x02);
    assert_eq!(reports[0].keycodes, [0u8; 6]);
    assert_eq!(reports[1].modifier, 0x02);
    assert_eq!(reports[1].keycodes, [0x1B, 0, 0, 0, 0, 0]);
    // Releasing the held key afterwards clears the modifier.
    let reports = core.step(release(0));
    assert_eq!(reports.len(), 1);
    assert_eq!(reports[0].modifier, 0);
    assert_eq!(reports[0].keycodes, [0x1B, 0, 0, 0, 0, 0]);
}

#[test]
fn timeout_resolution() {
    // With no further event before the timeout, the hold side fires on its
    // own: the layer activates and no report mentions the tap key.
    let mut map = empty_map();
    map[0][0] = KeyAction::UK(UncertKey::MK(
        StateKey::Layer(LayerKey::LayerOn(1)),
        KbdKey::Normal(QwertyKey::A),
        200,
    ));
    let mut core = KbdCore::new(map);
    let reports = core.step(press(0));
    assert!(reports.is_empty());
    assert_eq!(core.pending_timeout_ms(), Some(200));
    let reports = core.step(CoreInput::Timeout);
    assert!(reports.is_empty());
    assert!(core.layer_active(1));
    assert_eq!(core.pending_timeout_ms(), None);
    // The eventual release of the key deactivates the layer again.
    let reports = core.step(release(0));
    assert!(reports.is_empty());
    assert!(!core.layer_active(1));
}

#[test]
fn timeout_variant_still_taps_on_origin_release() {
    // The timeout variant is resolved by whichever comes first; the origin's
    // own release before the timeout is still a tap.
    let mut map = empty_map();
    map[0][0] = KeyAction::UK(UncertKey::MK(
        StateKey::Layer(LayerKey::LayerOn(1)),
        KbdKey::Normal(QwertyKey::A),
        200,
    ));
    let mut core = KbdCore::new(map);
    core.step(press(0));
    let reports = core.step(release(0));
    assert_eq!(reports.len(), 2);
    assert_eq!(reports[0].keycodes, [0x04, 0, 0, 0, 0, 0]);
    assert_eq!(reports[1].keycodes, [0u8; 6]);
    assert!(!core.layer_active(1));
}

#[test]
fn layer_fall_through() {
    // A transparent cell on the active higher layer defers to the layer
    // below it.
    let mut map = empty_map();
    map[0][3] = KeyAction::CK(KbdKey::State(StateKey::Layer(LayerKey::LayerOn(1))));
    map[1][2] = KeyAction::TS;
    map[0][2] = KeyAction::CK(KbdKey::Normal(QwertyKey::Z));
    let mut core = KbdCore::new(map);
    let reports = core.step(press(3));
    assert!(reports.is_empty());
    assert!(core.layer_active(1));
    let reports = core.step(press(2));
    assert_eq!(reports.len(), 1);
    assert_eq!(reports[0].keycodes, [0x1D, 0, 0, 0, 0, 0]);
}

#[test]
fn higher_active_layer_takes_precedence() {
    let mut map = empty_map();
    map[0][3] = KeyAction::CK(KbdKey::State(StateKey::Layer(LayerKey::LayerOn(1))));
    map[0][4] = KeyAction::CK(KbdKey::Normal(QwertyKey::A));
    map[1][4] = KeyAction::CK(KbdKey::Normal(QwertyKey::B));
    let mut core = KbdCore::new(map);
    core.step(press(3));
    let reports = core.step(press(4));
    assert_eq!(reports.len(), 1);
    assert_eq!(reports[0].keycodes, [0x05, 0, 0, 0, 0, 0]);
}

#[test]
fn sticky_layer_survives_release() {
    // The sticky layer operation activates on press but its release is a
    // no-op, so the layer stays active.
    let mut map = empty_map();
    map[0][0] = KeyAction::UK(UncertKey::MK(
        StateKey::Layer(LayerKey::LayerSwitch(1)),
        KbdKey::Normal(QwertyKey::A),
        150,
    ));
    let mut core = KbdCore::new(map);
    core.step(press(0));
    core.step(CoreInput::Timeout);
    assert!(core.layer_active(1));
    let reports = core.step(release(0));
    assert!(reports.is_empty());
    assert!(core.layer_active(1));
}

#[test]
fn release_undoes_cached_key_across_layer_change() {
    // The cache remembers what a press resolved to, so its release undoes the
    // right key even after the layers changed in between.
    let mut map = empty_map();
    map[0][3] = KeyAction::CK(KbdKey::State(StateKey::Layer(LayerKey::LayerOn(1))));
    map[0][6] = KeyAction::CK(KbdKey::Normal(QwertyKey::A));
    map[1][6] = KeyAction::CK(KbdKey::Normal(QwertyKey::C));
    let mut core = KbdCore::new(map);
    core.step(press(3));
    let reports = core.step(press(6));
    assert_eq!(reports[0].keycodes, [0x06, 0, 0, 0, 0, 0]);
    core.step(release(3));
    assert!(!core.layer_active(1));
    let reports = core.step(release(6));
    assert_eq!(reports.len(), 1);
    assert_eq!(reports[0].keycodes, [0u8; 6]);
}

#[test]
fn release_without_cached_press_is_ignored() {
    let mut map = empty_map();
    map[0][5] = KeyAction::CK(KbdKey::Normal(QwertyKey::A));
    let mut core = KbdCore::new(map);
    let reports = core.step(release(5));
    assert!(reports.is_empty());
}

#[test]
fn seventh_simultaneous_key_is_dropped() {
    // The report format holds six keys; a seventh press emits a report that
    // still shows only the first six.
    let codes = [
        QwertyKey::A,
        QwertyKey::B,
        QwertyKey::C,
        QwertyKey::D,
        QwertyKey::E,
        QwertyKey::F,
        QwertyKey::G,
    ];
    let mut map = empty_map();
    for (i, code) in codes.iter().enumerate() {
        map[0][i] = KeyAction::CK(KbdKey::Normal(*code));
    }
    let mut core = KbdCore::new(map);
    let mut last = Vec::new();
    for i in 0..7 {
        last = core.step(press(i as u8));
        assert_eq!(last.len(), 1);
    }
    assert_eq!(last[0].keycodes, [0x04, 0x05, 0x06, 0x07, 0x08, 0x09]);
}

#[test]
fn hold_resolution_may_leave_another_key_pending() {
    // The re-processed event may itself resolve to an uncertain key; the
    // machine is then pending on that key, never on two at once.
    let mut map = empty_map();
    map[0][0] = KeyAction::UK(UncertKey::SK(
        StateKey::Modifier(ModifierKey::LCtrl),
        KbdKey::Normal(QwertyKey::A),
    ));
    map[0][7] = KeyAction::UK(UncertKey::MK(
        StateKey::Modifier(ModifierKey::LAlt),
        KbdKey::Normal(QwertyKey::B),
        120,
    ));
    let mut core = KbdCore::new(map);
    core.step(press(0));
    let reports = core.step(press(7));
    // Only the hold modifier of key 0 fired so far.
    assert_eq!(reports.len(), 1);
    assert_eq!(reports[0].modifier, 0x01);
    assert_eq!(core.pending_timeout_ms(), Some(120));
}

#[test]
fn key_map_validity_check() {
    let mut map = empty_map();
    map[0][0] = KeyAction::CK(KbdKey::State(StateKey::Layer(LayerKey::LayerOn(1))));
    assert!(key_map_is_wf(&map));
    // A layer index past the compiled layer count is rejected.
    map[2][4] = KeyAction::CK(KbdKey::State(StateKey::Layer(LayerKey::LayerOn(
        LAYER_NUM as u8,
    ))));
    assert!(!key_map_is_wf(&map));
}

#[test]
fn qwerty_codes_match_usb_usage() {
    assert_eq!(QwertyKey::A.code(), 0x04);
    assert_eq!(QwertyKey::Z.code(), 0x1D);
    assert_eq!(ModifierKey::LCtrl.code(), 0xE0);
    assert_eq!(ModifierKey::RGui.code(), 0xE7);
}
