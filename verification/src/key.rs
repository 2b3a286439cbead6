use vstd::prelude::*;

verus! {

use crate::constants::LAYER_NUM;

/// A concrete key meaning: either a plain keycode that enters the held-key
/// sequence, or a stateful key that changes the modifier mask or the layer
/// activation set.
#[derive(Debug, Copy, Clone, PartialEq, Eq, Hash)]
pub enum KbdKey {
    Normal(QwertyKey),
    State(StateKey),
}

impl KbdKey {
    /// Every layer a key refers to must exist: an out-of-range layer index is
    /// a construction-time contract violation of the key map, not a runtime
    /// error.
    pub open spec fn wf(self) -> bool {
        match self {
            KbdKey::Normal(_) => true,
            KbdKey::State(state_key) => state_key.wf(),
        }
    }

    /// Check that every layer this key addresses exists.
    pub fn is_wf(&self) -> (ok: bool)
        ensures
            ok == self.wf(),
    {
        match self {
            KbdKey::Normal(_) => true,
            KbdKey::State(state_key) => state_key.is_wf(),
        }
    }
}

/// A key that mutates state rather than entering the held-key sequence: a
/// modifier bit or a layer operation.
#[derive(Debug, Copy, Clone, PartialEq, Eq, Hash)]
pub enum StateKey {
    /// A USB modifier key: Ctrl, Shift, Alt, GUI, in the left and right
    /// variants.
    Modifier(ModifierKey),
    /// A layer operation key.
    Layer(LayerKey),
}

impl StateKey {
    pub open spec fn wf(self) -> bool {
        match self {
            StateKey::Modifier(_) => true,
            StateKey::Layer(layer_key) => layer_key.wf(),
        }
    }

    /// Check that every layer this key addresses exists.
    pub fn is_wf(&self) -> (ok: bool)
        ensures
            ok == self.wf(),
    {
        match self {
            StateKey::Modifier(_) => true,
            StateKey::Layer(layer_key) => layer_key.is_wf(),
        }
    }
}

/// A layer operation. Pressing either variant activates the layer; they
/// differ on release.
#[derive(Debug, Copy, Clone, PartialEq, Eq, Hash)]
pub enum LayerKey {
    /// Active while held: the release deactivates the layer.
    LayerOn(u8),
    /// Sticky: the release is a no-op, so the layer stays active. Meant as
    /// the hold side of an uncertain key, whose resolution path drives the
    /// deactivation.
    LayerSwitch(u8),
}

impl LayerKey {
    /// The layer this operation addresses.
    pub open spec fn layer_spec(self) -> u8 {
        match self {
            LayerKey::LayerOn(layer) => layer,
            LayerKey::LayerSwitch(layer) => layer,
        }
    }

    pub open spec fn wf(self) -> bool {
        self.layer_spec() < LAYER_NUM
    }

    /// Check that the layer this operation addresses exists.
    pub fn is_wf(&self) -> (ok: bool)
        ensures
            ok == self.wf(),
    {
        match self {
            LayerKey::LayerOn(layer) => (*layer as usize) < LAYER_NUM,
            LayerKey::LayerSwitch(layer) => (*layer as usize) < LAYER_NUM,
        }
    }
}

/// A USB modifier key. Its usage code is `0xE0` plus its bit position in the
/// report's modifier mask.
#[allow(unused)]
#[derive(Debug, Copy, Clone, PartialEq, Eq, Hash)]
pub enum ModifierKey {
    /// Left Control
    LCtrl,
    /// Left Shift
    LShift,
    /// Left Alt
    LAlt,
    /// Left GUI
    LGui,
    /// Right Control
    RCtrl,
    /// Right Shift
    RShift,
    /// Right Alt
    RAlt,
    /// Right GUI
    RGui,
}

impl ModifierKey {
    /// The USB usage code of this modifier.
    pub open spec fn code_spec(self) -> u8 {
        match self {
            ModifierKey::LCtrl => 0xE0,
            ModifierKey::LShift => 0xE1,
            ModifierKey::LAlt => 0xE2,
            ModifierKey::LGui => 0xE3,
            ModifierKey::RCtrl => 0xE4,
            ModifierKey::RShift => 0xE5,
            ModifierKey::RAlt => 0xE6,
            ModifierKey::RGui => 0xE7,
        }
    }

    /// The USB usage code of this modifier.
    pub fn code(self) -> (code: u8)
        ensures
            code == self.code_spec(),
    {
        match self {
            ModifierKey::LCtrl => 0xE0,
            ModifierKey::LShift => 0xE1,
            ModifierKey::LAlt => 0xE2,
            ModifierKey::LGui => 0xE3,
            ModifierKey::RCtrl => 0xE4,
            ModifierKey::RShift => 0xE5,
            ModifierKey::RAlt => 0xE6,
            ModifierKey::RGui => 0xE7,
        }
    }
}

/// A standard, non-modifier USB keycode: the "tap" meaning of a key.
#[allow(unused)]
#[derive(Debug, Copy, Clone, PartialEq, Eq, Hash)]
pub enum QwertyKey {
    /// Reserved, no-key.
    /// Keyboard roll over error, too many keys are pressed simultaneously, not a physical key.
    /// NKRO: n-key rollover.
    ErrorRollover,
    /// Keyboard post fail error, not a physical key.
    PostFail,
    /// An undefined error, not a physical key.
    ErrorUndefined,
    /// `a` and `A`
    A,
    /// `b` and `B`
    B,
    /// `c` and `C`
    C,
    /// `d` and `D`
    D,
    /// `e` and `E`
    E,
    /// `f` and `F`
    F,
    /// `g` and `G`
    G,
    /// `h` and `H`
    H,
    /// `i` and `I`
    I,
    /// `j` and `J`
    J,
    /// `k` and `K`
    K,
    /// `l` and `L`
    L,
    /// `m` and `M`
    M,
    /// `n` and `N`
    N,
    /// `o` and `O`
    O,
    /// `p` and `P`
    P,
    /// `q` and `Q`
    Q,
    /// `r` and `R`
    R,
    /// `s` and `S`
    S,
    /// `t` and `T`
    T,
    /// `u` and `U`
    U,
    /// `v` and `V`
    V,
    /// `w` and `W`
    W,
    /// `x` and `X`
    X,
    /// `y` and `Y`
    Y,
    /// `z` and `Z`
    Z,
    /// `1` and `!`
    Kc1,
    /// `2` and `@`
    Kc2,
    /// `3` and `#`
    Kc3,
    /// `4` and `$`
    Kc4,
    /// `5` and `%`
    Kc5,
    /// `6` and `^`
    Kc6,
    /// `7` and `&`
    Kc7,
    /// `8` and `*`
    Kc8,
    /// `9` and `(`
    Kc9,
    /// `0` and `)`
    Kc0,
    /// `Enter`
    Enter,
    /// `Esc`
    Escape,
    /// `Backspace`
    Backspace,
    /// `Tab`
    Tab,
    /// `Space`
    Space,
    /// `-` and `_`
    Minus,
    /// `=` and `+`
    Equal,
    /// `[` and `{`
    LeftBracket,
    /// `]` and `}`
    RightBracket,
    /// `\` and `|`
    Backslash,
    /// Non-US `#` and `~`
    NonusHash,
    /// `;` and `:`
    Semicolon,
    /// `'` and `"`
    Quote,
    /// `~` and `\``
    Grave,
    /// `,` and `<`
    Comma,
    /// `.` and `>`
    Dot,
    /// `/` and `?`
    Slash,
    /// `CapsLock`
    CapsLock,
    /// `F1`
    F1,
    /// `F2`
    F2,
    /// `F3`
    F3,
    /// `F4`
    F4,
    /// `F5`
    F5,
    /// `F6`
    F6,
    /// `F7`
    F7,
    /// `F8`
    F8,
    /// `F9`
    F9,
    /// `F10`
    F10,
    /// `F11`
    F11,
    /// `F12`
    F12,
    /// Print Screen
    PrintScreen,
    /// Scroll Lock
    ScrollLock,
    /// Pause
    Pause,
    /// Insert
    Insert,
    /// Home
    Home,
    /// Page Up
    PageUp,
    /// Delete
    Delete,
    /// End
    End,
    /// Page Down
    PageDown,
    /// Right arrow
    Right,
    /// Left arrow
    Left,
    /// Down arrow
    Down,
    /// Up arrow
    Up,
    /// Nums Lock
    NumLock,
    /// `/` on keypad
    KpSlash,
    /// `*` on keypad
    KpAsterisk,
    /// `-` on keypad
    KpMinus,
    /// `+` on keypad
    KpPlus,
    /// `Enter` on keypad
    KpEnter,
    /// `1` on keypad
    Kp1,
    /// `2` on keypad
    Kp2,
    /// `3` on keypad
    Kp3,
    /// `4` on keypad
    Kp4,
    /// `5` on keypad
    Kp5,
    /// `6` on keypad
    Kp6,
    /// `7` on keypad
    Kp7,
    /// `8` on keypad
    Kp8,
    /// `9` on keypad
    Kp9,
    /// `0` on keypad
    Kp0,
    /// `.` on keypad
    KpDot,
    /// Non-US `\` or `|`
    NonusBackslash,
    /// `Application`
    Application,
    /// `Power`
    KbPower,
    /// `=` on keypad
    KpEqual,
    /// `F13`
    F13,
    /// `F14`
    F14,
    /// `F15`
    F15,
    /// `F16`
    F16,
    /// `F17`
    F17,
    /// `F18`
    F18,
    /// `F19`
    F19,
    /// `F20`
    F20,
    /// `F21`
    F21,
    /// `F22`
    F22,
    /// `F23`
    F23,
    /// `F24`
    F24,
    Execute,
    Help,
    Menu,
    Select,
    Stop,
    Again,
    Undo,
    Cut,
    Copy,
    Paste,
    Find,
    /// Mute
    KbMute,
    /// Volume Up
    KbVolumeUp,
    /// Volume Down
    KbVolumeDown,
    /// Locking Caps Lock
    LockingCapsLock,
    /// Locking Num Lock
    LockingNumLock,
    /// Locking scroll lock
    LockingScrollLock,
    KpComma,
    KpEqualAs400,
    International1,
    International2,
    International3,
    International4,
    International5,
    International6,
    International7,
    International8,
    International9,
    Language1,
    Language2,
    Language3,
    Language4,
    Language5,
    Language6,
    Language7,
    Language8,
    Language9,
    AlternateErase,
    SystemRequest,
    Cancel,
    Clear,
    Prior,
    Return,
    Separator,
    Out,
    Oper,
    ClearAgain,
    Crsel,
    Exsel,
    SystemPower,
    SystemSleep,
    SystemWake,
    AudioMute,
    AudioVolUp,
    AudioVolDown,
    MediaNextTrack,
    MediaPrevTrack,
    MediaStop,
    MediaPlayPause,
    MediaSelect,
    MediaEject,
    Mail,
    Calculator,
    MyComputer,
    WwwSearch,
    WwwHome,
    WwwBack,
    WwwForward,
    WwwStop,
    WwwRefresh,
    WwwFavorites,
    MediaFastForward,
    MediaRewind,
    /// Brightness Up
    BrightnessUp,
    /// Brightness Down
    BrightnessDown,
    ControlPanel,
    Assistant,
    MissionControl,
    Launchpad,
    /// Mouse Up
    MouseUp,
    /// Mouse Down
    MouseDown,
    /// Mouse Left
    MouseLeft,
    /// Mouse Right
    MouseRight,
    /// Mouse Button 1(Left)
    MouseBtn1,
    /// Mouse Button 2(Right)
    MouseBtn2,
    /// Mouse Button 3(Middle)
    MouseBtn3,
    /// Mouse Button 4(Back)
    MouseBtn4,
    /// Mouse Button 5(Forward)
    MouseBtn5,
    MouseBtn6,
    MouseBtn7,
    MouseBtn8,
    MouseWheelUp,
    MouseWheelDown,
    MouseWheelLeft,
    MouseWheelRight,
    MouseAccel0,
    MouseAccel1,
    MouseAccel2,
}

impl QwertyKey {
    /// The USB usage code this key stands for.
    pub open spec fn code_spec(self) -> u8 {
        match self {
            QwertyKey::ErrorRollover => 0x01,
            QwertyKey::PostFail => 0x02,
            QwertyKey::ErrorUndefined => 0x03,
            QwertyKey::A => 0x04,
            QwertyKey::B => 0x05,
            QwertyKey::C => 0x06,
            QwertyKey::D => 0x07,
            QwertyKey::E => 0x08,
            QwertyKey::F => 0x09,
            QwertyKey::G => 0x0A,
            QwertyKey::H => 0x0B,
            QwertyKey::I => 0x0C,
            QwertyKey::J => 0x0D,
            QwertyKey::K => 0x0E,
            QwertyKey::L => 0x0F,
            QwertyKey::M => 0x10,
            QwertyKey::N => 0x11,
            QwertyKey::O => 0x12,
            QwertyKey::P => 0x13,
            QwertyKey::Q => 0x14,
            QwertyKey::R => 0x15,
            QwertyKey::S => 0x16,
            QwertyKey::T => 0x17,
            QwertyKey::U => 0x18,
            QwertyKey::V => 0x19,
            QwertyKey::W => 0x1A,
            QwertyKey::X => 0x1B,
            QwertyKey::Y => 0x1C,
            QwertyKey::Z => 0x1D,
            QwertyKey::Kc1 => 0x1E,
            QwertyKey::Kc2 => 0x1F,
            QwertyKey::Kc3 => 0x20,
            QwertyKey::Kc4 => 0x21,
            QwertyKey::Kc5 => 0x22,
            QwertyKey::Kc6 => 0x23,
            QwertyKey::Kc7 => 0x24,
            QwertyKey::Kc8 => 0x25,
            QwertyKey::Kc9 => 0x26,
            QwertyKey::Kc0 => 0x27,
            QwertyKey::Enter => 0x28,
            QwertyKey::Escape => 0x29,
            QwertyKey::Backspace => 0x2A,
            QwertyKey::Tab => 0x2B,
            QwertyKey::Space => 0x2C,
            QwertyKey::Minus => 0x2D,
            QwertyKey::Equal => 0x2E,
            QwertyKey::LeftBracket => 0x2F,
            QwertyKey::RightBracket => 0x30,
            QwertyKey::Backslash => 0x31,
            QwertyKey::NonusHash => 0x32,
            QwertyKey::Semicolon => 0x33,
            QwertyKey::Quote => 0x34,
            QwertyKey::Grave => 0x35,
            QwertyKey::Comma => 0x36,
            QwertyKey::Dot => 0x37,
            QwertyKey::Slash => 0x38,
            QwertyKey::CapsLock => 0x39,
            QwertyKey::F1 => 0x3A,
            QwertyKey::F2 => 0x3B,
            QwertyKey::F3 => 0x3C,
            QwertyKey::F4 => 0x3D,
            QwertyKey::F5 => 0x3E,
            QwertyKey::F6 => 0x3F,
            QwertyKey::F7 => 0x40,
            QwertyKey::F8 => 0x41,
            QwertyKey::F9 => 0x42,
            QwertyKey::F10 => 0x43,
            QwertyKey::F11 => 0x44,
            QwertyKey::F12 => 0x45,
            QwertyKey::PrintScreen => 0x46,
            QwertyKey::ScrollLock => 0x47,
            QwertyKey::Pause => 0x48,
            QwertyKey::Insert => 0x49,
            QwertyKey::Home => 0x4A,
            QwertyKey::PageUp => 0x4B,
            QwertyKey::Delete => 0x4C,
            QwertyKey::End => 0x4D,
            QwertyKey::PageDown => 0x4E,
            QwertyKey::Right => 0x4F,
            QwertyKey::Left => 0x50,
            QwertyKey::Down => 0x51,
            QwertyKey::Up => 0x52,
            QwertyKey::NumLock => 0x53,
            QwertyKey::KpSlash => 0x54,
            QwertyKey::KpAsterisk => 0x55,
            QwertyKey::KpMinus => 0x56,
            QwertyKey::KpPlus => 0x57,
            QwertyKey::KpEnter => 0x58,
            QwertyKey::Kp1 => 0x59,
            QwertyKey::Kp2 => 0x5A,
            QwertyKey::Kp3 => 0x5B,
            QwertyKey::Kp4 => 0x5C,
            QwertyKey::Kp5 => 0x5D,
            QwertyKey::Kp6 => 0x5E,
            QwertyKey::Kp7 => 0x5F,
            QwertyKey::Kp8 => 0x60,
            QwertyKey::Kp9 => 0x61,
            QwertyKey::Kp0 => 0x62,
            QwertyKey::KpDot => 0x63,
            QwertyKey::NonusBackslash => 0x64,
            QwertyKey::Application => 0x65,
            QwertyKey::KbPower => 0x66,
            QwertyKey::KpEqual => 0x67,
            QwertyKey::F13 => 0x68,
            QwertyKey::F14 => 0x69,
            QwertyKey::F15 => 0x6A,
            QwertyKey::F16 => 0x6B,
            QwertyKey::F17 => 0x6C,
            QwertyKey::F18 => 0x6D,
            QwertyKey::F19 => 0x6E,
            QwertyKey::F20 => 0x6F,
            QwertyKey::F21 => 0x70,
            QwertyKey::F22 => 0x71,
            QwertyKey::F23 => 0x72,
            QwertyKey::F24 => 0x73,
            QwertyKey::Execute => 0x74,
            QwertyKey::Help => 0x75,
            QwertyKey::Menu => 0x76,
            QwertyKey::Select => 0x77,
            QwertyKey::Stop => 0x78,
            QwertyKey::Again => 0x79,
            QwertyKey::Undo => 0x7A,
            QwertyKey::Cut => 0x7B,
            QwertyKey::Copy => 0x7C,
            QwertyKey::Paste => 0x7D,
            QwertyKey::Find => 0x7E,
            QwertyKey::KbMute => 0x7F,
            QwertyKey::KbVolumeUp => 0x80,
            QwertyKey::KbVolumeDown => 0x81,
            QwertyKey::LockingCapsLock => 0x82,
            QwertyKey::LockingNumLock => 0x83,
            QwertyKey::LockingScrollLock => 0x84,
            QwertyKey::KpComma => 0x85,
            QwertyKey::KpEqualAs400 => 0x86,
            QwertyKey::International1 => 0x87,
            QwertyKey::International2 => 0x88,
            QwertyKey::International3 => 0x89,
            QwertyKey::International4 => 0x8A,
            QwertyKey::International5 => 0x8B,
            QwertyKey::International6 => 0x8C,
            QwertyKey::International7 => 0x8D,
            QwertyKey::International8 => 0x8E,
            QwertyKey::International9 => 0x8F,
            QwertyKey::Language1 => 0x90,
            QwertyKey::Language2 => 0x91,
            QwertyKey::Language3 => 0x92,
            QwertyKey::Language4 => 0x93,
            QwertyKey::Language5 => 0x94,
            QwertyKey::Language6 => 0x95,
            QwertyKey::Language7 => 0x96,
            QwertyKey::Language8 => 0x97,
            QwertyKey::Language9 => 0x98,
            QwertyKey::AlternateErase => 0x99,
            QwertyKey::SystemRequest => 0x9A,
            QwertyKey::Cancel => 0x9B,
            QwertyKey::Clear => 0x9C,
            QwertyKey::Prior => 0x9D,
            QwertyKey::Return => 0x9E,
            QwertyKey::Separator => 0x9F,
            QwertyKey::Out => 0xA0,
            QwertyKey::Oper => 0xA1,
            QwertyKey::ClearAgain => 0xA2,
            QwertyKey::Crsel => 0xA3,
            QwertyKey::Exsel => 0xA4,
            QwertyKey::SystemPower => 0xA5,
            QwertyKey::SystemSleep => 0xA6,
            QwertyKey::SystemWake => 0xA7,
            QwertyKey::AudioMute => 0xA8,
            QwertyKey::AudioVolUp => 0xA9,
            QwertyKey::AudioVolDown => 0xAA,
            QwertyKey::MediaNextTrack => 0xAB,
            QwertyKey::MediaPrevTrack => 0xAC,
            QwertyKey::MediaStop => 0xAD,
            QwertyKey::MediaPlayPause => 0xAE,
            QwertyKey::MediaSelect => 0xAF,
            QwertyKey::MediaEject => 0xB0,
            QwertyKey::Mail => 0xB1,
            QwertyKey::Calculator => 0xB2,
            QwertyKey::MyComputer => 0xB3,
            QwertyKey::WwwSearch => 0xB4,
            QwertyKey::WwwHome => 0xB5,
            QwertyKey::WwwBack => 0xB6,
            QwertyKey::WwwForward => 0xB7,
            QwertyKey::WwwStop => 0xB8,
            QwertyKey::WwwRefresh => 0xB9,
            QwertyKey::WwwFavorites => 0xBA,
            QwertyKey::MediaFastForward => 0xBB,
            QwertyKey::MediaRewind => 0xBC,
            QwertyKey::BrightnessUp => 0xBD,
            QwertyKey::BrightnessDown => 0xBE,
            QwertyKey::ControlPanel => 0xBF,
            QwertyKey::Assistant => 0xC0,
            QwertyKey::MissionControl => 0xC1,
            QwertyKey::Launchpad => 0xC2,
            QwertyKey::MouseUp => 0xCD,
            QwertyKey::MouseDown => 0xCE,
            QwertyKey::MouseLeft => 0xCF,
            QwertyKey::MouseRight => 0xD0,
            QwertyKey::MouseBtn1 => 0xD1,
            QwertyKey::MouseBtn2 => 0xD2,
            QwertyKey::MouseBtn3 => 0xD3,
            QwertyKey::MouseBtn4 => 0xD4,
            QwertyKey::MouseBtn5 => 0xD5,
            QwertyKey::MouseBtn6 => 0xD6,
            QwertyKey::MouseBtn7 => 0xD7,
            QwertyKey::MouseBtn8 => 0xD8,
            QwertyKey::MouseWheelUp => 0xD9,
            QwertyKey::MouseWheelDown => 0xDA,
            QwertyKey::MouseWheelLeft => 0xDB,
            QwertyKey::MouseWheelRight => 0xDC,
            QwertyKey::MouseAccel0 => 0xDD,
            QwertyKey::MouseAccel1 => 0xDE,
            QwertyKey::MouseAccel2 => 0xDF,
        }
    }

    /// The USB usage code this key stands for.
    pub fn code(self) -> (code: u8)
        ensures
            code == self.code_spec(),
    {
        match self {
            QwertyKey::ErrorRollover => 0x01,
            QwertyKey::PostFail => 0x02,
            QwertyKey::ErrorUndefined => 0x03,
            QwertyKey::A => 0x04,
            QwertyKey::B => 0x05,
            QwertyKey::C => 0x06,
            QwertyKey::D => 0x07,
            QwertyKey::E => 0x08,
            QwertyKey::F => 0x09,
            QwertyKey::G => 0x0A,
            QwertyKey::H => 0x0B,
            QwertyKey::I => 0x0C,
            QwertyKey::J => 0x0D,
            QwertyKey::K => 0x0E,
            QwertyKey::L => 0x0F,
            QwertyKey::M => 0x10,
            QwertyKey::N => 0x11,
            QwertyKey::O => 0x12,
            QwertyKey::P => 0x13,
            QwertyKey::Q => 0x14,
            QwertyKey::R => 0x15,
            QwertyKey::S => 0x16,
            QwertyKey::T => 0x17,
            QwertyKey::U => 0x18,
            QwertyKey::V => 0x19,
            QwertyKey::W => 0x1A,
            QwertyKey::X => 0x1B,
            QwertyKey::Y => 0x1C,
            QwertyKey::Z => 0x1D,
            QwertyKey::Kc1 => 0x1E,
            QwertyKey::Kc2 => 0x1F,
            QwertyKey::Kc3 => 0x20,
            QwertyKey::Kc4 => 0x21,
            QwertyKey::Kc5 => 0x22,
            QwertyKey::Kc6 => 0x23,
            QwertyKey::Kc7 => 0x24,
            QwertyKey::Kc8 => 0x25,
            QwertyKey::Kc9 => 0x26,
            QwertyKey::Kc0 => 0x27,
            QwertyKey::Enter => 0x28,
            QwertyKey::Escape => 0x29,
            QwertyKey::Backspace => 0x2A,
            QwertyKey::Tab => 0x2B,
            QwertyKey::Space => 0x2C,
            QwertyKey::Minus => 0x2D,
            QwertyKey::Equal => 0x2E,
            QwertyKey::LeftBracket => 0x2F,
            QwertyKey::RightBracket => 0x30,
            QwertyKey::Backslash => 0x31,
            QwertyKey::NonusHash => 0x32,
            QwertyKey::Semicolon => 0x33,
            QwertyKey::Quote => 0x34,
            QwertyKey::Grave => 0x35,
            QwertyKey::Comma => 0x36,
            QwertyKey::Dot => 0x37,
            QwertyKey::Slash => 0x38,
            QwertyKey::CapsLock => 0x39,
            QwertyKey::F1 => 0x3A,
            QwertyKey::F2 => 0x3B,
            QwertyKey::F3 => 0x3C,
            QwertyKey::F4 => 0x3D,
            QwertyKey::F5 => 0x3E,
            QwertyKey::F6 => 0x3F,
            QwertyKey::F7 => 0x40,
            QwertyKey::F8 => 0x41,
            QwertyKey::F9 => 0x42,
            QwertyKey::F10 => 0x43,
            QwertyKey::F11 => 0x44,
            QwertyKey::F12 => 0x45,
            QwertyKey::PrintScreen => 0x46,
            QwertyKey::ScrollLock => 0x47,
            QwertyKey::Pause => 0x48,
            QwertyKey::Insert => 0x49,
            QwertyKey::Home => 0x4A,
            QwertyKey::PageUp => 0x4B,
            QwertyKey::Delete => 0x4C,
            QwertyKey::End => 0x4D,
            QwertyKey::PageDown => 0x4E,
            QwertyKey::Right => 0x4F,
            QwertyKey::Left => 0x50,
            QwertyKey::Down => 0x51,
            QwertyKey::Up => 0x52,
            QwertyKey::NumLock => 0x53,
            QwertyKey::KpSlash => 0x54,
            QwertyKey::KpAsterisk => 0x55,
            QwertyKey::KpMinus => 0x56,
            QwertyKey::KpPlus => 0x57,
            QwertyKey::KpEnter => 0x58,
            QwertyKey::Kp1 => 0x59,
            QwertyKey::Kp2 => 0x5A,
            QwertyKey::Kp3 => 0x5B,
            QwertyKey::Kp4 => 0x5C,
            QwertyKey::Kp5 => 0x5D,
            QwertyKey::Kp6 => 0x5E,
            QwertyKey::Kp7 => 0x5F,
            QwertyKey::Kp8 => 0x60,
            QwertyKey::Kp9 => 0x61,
            QwertyKey::Kp0 => 0x62,
            QwertyKey::KpDot => 0x63,
            QwertyKey::NonusBackslash => 0x64,
            QwertyKey::Application => 0x65,
            QwertyKey::KbPower => 0x66,
            QwertyKey::KpEqual => 0x67,
            QwertyKey::F13 => 0x68,
            QwertyKey::F14 => 0x69,
            QwertyKey::F15 => 0x6A,
            QwertyKey::F16 => 0x6B,
            QwertyKey::F17 => 0x6C,
            QwertyKey::F18 => 0x6D,
            QwertyKey::F19 => 0x6E,
            QwertyKey::F20 => 0x6F,
            QwertyKey::F21 => 0x70,
            QwertyKey::F22 => 0x71,
            QwertyKey::F23 => 0x72,
            QwertyKey::F24 => 0x73,
            QwertyKey::Execute => 0x74,
            QwertyKey::Help => 0x75,
            QwertyKey::Menu => 0x76,
            QwertyKey::Select => 0x77,
            QwertyKey::Stop => 0x78,
            QwertyKey::Again => 0x79,
            QwertyKey::Undo => 0x7A,
            QwertyKey::Cut => 0x7B,
            QwertyKey::Copy => 0x7C,
            QwertyKey::Paste => 0x7D,
            QwertyKey::Find => 0x7E,
            QwertyKey::KbMute => 0x7F,
            QwertyKey::KbVolumeUp => 0x80,
            QwertyKey::KbVolumeDown => 0x81,
            QwertyKey::LockingCapsLock => 0x82,
            QwertyKey::LockingNumLock => 0x83,
            QwertyKey::LockingScrollLock => 0x84,
            QwertyKey::KpComma => 0x85,
            QwertyKey::KpEqualAs400 => 0x86,
            QwertyKey::International1 => 0x87,
            QwertyKey::International2 => 0x88,
            QwertyKey::International3 => 0x89,
            QwertyKey::International4 => 0x8A,
            QwertyKey::International5 => 0x8B,
            QwertyKey::International6 => 0x8C,
            QwertyKey::International7 => 0x8D,
            QwertyKey::International8 => 0x8E,
            QwertyKey::International9 => 0x8F,
            QwertyKey::Language1 => 0x90,
            QwertyKey::Language2 => 0x91,
            QwertyKey::Language3 => 0x92,
            QwertyKey::Language4 => 0x93,
            QwertyKey::Language5 => 0x94,
            QwertyKey::Language6 => 0x95,
            QwertyKey::Language7 => 0x96,
            QwertyKey::Language8 => 0x97,
            QwertyKey::Language9 => 0x98,
            QwertyKey::AlternateErase => 0x99,
            QwertyKey::SystemRequest => 0x9A,
            QwertyKey::Cancel => 0x9B,
            QwertyKey::Clear => 0x9C,
            QwertyKey::Prior => 0x9D,
            QwertyKey::Return => 0x9E,
            QwertyKey::Separator => 0x9F,
            QwertyKey::Out => 0xA0,
            QwertyKey::Oper => 0xA1,
            QwertyKey::ClearAgain => 0xA2,
            QwertyKey::Crsel => 0xA3,
            QwertyKey::Exsel => 0xA4,
            QwertyKey::SystemPower => 0xA5,
            QwertyKey::SystemSleep => 0xA6,
            QwertyKey::SystemWake => 0xA7,
            QwertyKey::AudioMute => 0xA8,
            QwertyKey::AudioVolUp => 0xA9,
            QwertyKey::AudioVolDown => 0xAA,
            QwertyKey::MediaNextTrack => 0xAB,
            QwertyKey::MediaPrevTrack => 0xAC,
            QwertyKey::MediaStop => 0xAD,
            QwertyKey::MediaPlayPause => 0xAE,
            QwertyKey::MediaSelect => 0xAF,
            QwertyKey::MediaEject => 0xB0,
            QwertyKey::Mail => 0xB1,
            QwertyKey::Calculator => 0xB2,
            QwertyKey::MyComputer => 0xB3,
            QwertyKey::WwwSearch => 0xB4,
            QwertyKey::WwwHome => 0xB5,
            QwertyKey::WwwBack => 0xB6,
            QwertyKey::WwwForward => 0xB7,
            QwertyKey::WwwStop => 0xB8,
            QwertyKey::WwwRefresh => 0xB9,
            QwertyKey::WwwFavorites => 0xBA,
            QwertyKey::MediaFastForward => 0xBB,
            QwertyKey::MediaRewind => 0xBC,
            QwertyKey::BrightnessUp => 0xBD,
            QwertyKey::BrightnessDown => 0xBE,
            QwertyKey::ControlPanel => 0xBF,
            QwertyKey::Assistant => 0xC0,
            QwertyKey::MissionControl => 0xC1,
            QwertyKey::Launchpad => 0xC2,
            QwertyKey::MouseUp => 0xCD,
            QwertyKey::MouseDown => 0xCE,
            QwertyKey::MouseLeft => 0xCF,
            QwertyKey::MouseRight => 0xD0,
            QwertyKey::MouseBtn1 => 0xD1,
            QwertyKey::MouseBtn2 => 0xD2,
            QwertyKey::MouseBtn3 => 0xD3,
            QwertyKey::MouseBtn4 => 0xD4,
            QwertyKey::MouseBtn5 => 0xD5,
            QwertyKey::MouseBtn6 => 0xD6,
            QwertyKey::MouseBtn7 => 0xD7,
            QwertyKey::MouseBtn8 => 0xD8,
            QwertyKey::MouseWheelUp => 0xD9,
            QwertyKey::MouseWheelDown => 0xDA,
            QwertyKey::MouseWheelLeft => 0xDB,
            QwertyKey::MouseWheelRight => 0xDC,
            QwertyKey::MouseAccel0 => 0xDD,
            QwertyKey::MouseAccel1 => 0xDE,
            QwertyKey::MouseAccel2 => 0xDF,
        }
    }
}
} // verus!
