use vstd::prelude::*;

verus! {

/// A key as reported by the capture layer: a physical key of a standard
/// layout, or `Unknown` with the platform's own code for anything else.
#[derive(Clone, Copy, Debug, PartialEq, Eq, Structural, Hash)]
pub enum KeyIdentity {
    Alt,
    AltGr,
    Backspace,
    CapsLock,
    ControlLeft,
    ControlRight,
    Delete,
    DownArrow,
    End,
    Escape,
    F1,
    F2,
    F3,
    F4,
    F5,
    F6,
    F7,
    F8,
    F9,
    F10,
    F11,
    F12,
    F13,
    F14,
    F15,
    F16,
    F17,
    F18,
    F19,
    F20,
    F21,
    F22,
    F23,
    F24,
    Home,
    LeftArrow,
    MetaLeft,
    MetaRight,
    PageDown,
    PageUp,
    Return,
    RightArrow,
    ShiftLeft,
    ShiftRight,
    Space,
    Tab,
    UpArrow,
    PrintScreen,
    ScrollLock,
    Pause,
    NumLock,
    BackQuote,
    Num1,
    Num2,
    Num3,
    Num4,
    Num5,
    Num6,
    Num7,
    Num8,
    Num9,
    Num0,
    Minus,
    Equal,
    KeyQ,
    KeyW,
    KeyE,
    KeyR,
    KeyT,
    KeyY,
    KeyU,
    KeyI,
    KeyO,
    KeyP,
    LeftBracket,
    RightBracket,
    KeyA,
    KeyS,
    KeyD,
    KeyF,
    KeyG,
    KeyH,
    KeyJ,
    KeyK,
    KeyL,
    SemiColon,
    Quote,
    BackSlash,
    IntlBackslash,
    KeyZ,
    KeyX,
    KeyC,
    KeyV,
    KeyB,
    KeyN,
    KeyM,
    Comma,
    Dot,
    Slash,
    Insert,
    KpReturn,
    KpMinus,
    KpPlus,
    KpMultiply,
    KpDivide,
    KpDecimal,
    Kp0,
    Kp1,
    Kp2,
    Kp3,
    Kp4,
    Kp5,
    Kp6,
    Kp7,
    Kp8,
    Kp9,
    KpDelete,
    Function,
    Unknown(u32),
}

/// The four modifier groups whose held state is tracked.
#[derive(Clone, Copy, Debug, PartialEq, Eq, Structural, Hash)]
pub enum ModifierGroup {
    Control,
    Alt,
    Shift,
    Meta,
}

/// The modifier group of a key: both Control keys, Alt and AltGr, both Shift
/// keys, both Meta keys; `None` for every other key.
pub open spec fn modifier_group_of(k: KeyIdentity) -> Option<ModifierGroup> {
    match k {
        KeyIdentity::ControlLeft | KeyIdentity::ControlRight => Some(ModifierGroup::Control),
        KeyIdentity::Alt | KeyIdentity::AltGr => Some(ModifierGroup::Alt),
        KeyIdentity::ShiftLeft | KeyIdentity::ShiftRight => Some(ModifierGroup::Shift),
        KeyIdentity::MetaLeft | KeyIdentity::MetaRight => Some(ModifierGroup::Meta),
        _ => None,
    }
}

/// Keys whose effect on the host must be kept: they are never suppressed.
pub open spec fn is_lock_key(k: KeyIdentity) -> bool {
    k == KeyIdentity::CapsLock || k == KeyIdentity::NumLock
}

pub open spec fn is_letter(k: KeyIdentity) -> bool {
    matches!(k, KeyIdentity::KeyA
        | KeyIdentity::KeyB
        | KeyIdentity::KeyC
        | KeyIdentity::KeyD
        | KeyIdentity::KeyE
        | KeyIdentity::KeyF
        | KeyIdentity::KeyG
        | KeyIdentity::KeyH
        | KeyIdentity::KeyI
        | KeyIdentity::KeyJ
        | KeyIdentity::KeyK
        | KeyIdentity::KeyL
        | KeyIdentity::KeyM
        | KeyIdentity::KeyN
        | KeyIdentity::KeyO
        | KeyIdentity::KeyP
        | KeyIdentity::KeyQ
        | KeyIdentity::KeyR
        | KeyIdentity::KeyS
        | KeyIdentity::KeyT
        | KeyIdentity::KeyU
        | KeyIdentity::KeyV
        | KeyIdentity::KeyW
        | KeyIdentity::KeyX
        | KeyIdentity::KeyY
        | KeyIdentity::KeyZ)
}

pub open spec fn is_digit(k: KeyIdentity) -> bool {
    matches!(k, KeyIdentity::Num1
        | KeyIdentity::Num2
        | KeyIdentity::Num3
        | KeyIdentity::Num4
        | KeyIdentity::Num5
        | KeyIdentity::Num6
        | KeyIdentity::Num7
        | KeyIdentity::Num8
        | KeyIdentity::Num9
        | KeyIdentity::Num0)
}

/// The keys that have a usage of their own on the keyboard usage page.
pub open spec fn has_hid_usage(k: KeyIdentity) -> bool {
    !matches!(k, KeyIdentity::KpDelete | KeyIdentity::Function | KeyIdentity::Unknown(_))
}

pub fn modifier_group(key: &KeyIdentity) -> (r: Option<ModifierGroup>)
    ensures
        r == modifier_group_of(*key),
{
    match *key {
        KeyIdentity::ControlLeft | KeyIdentity::ControlRight => Some(ModifierGroup::Control),
        KeyIdentity::Alt | KeyIdentity::AltGr => Some(ModifierGroup::Alt),
        KeyIdentity::ShiftLeft | KeyIdentity::ShiftRight => Some(ModifierGroup::Shift),
        KeyIdentity::MetaLeft | KeyIdentity::MetaRight => Some(ModifierGroup::Meta),
        _ => None,
    }
}

pub fn is_lock(key: &KeyIdentity) -> (r: bool)
    ensures
        r == is_lock_key(*key),
{
    match *key {
        KeyIdentity::CapsLock | KeyIdentity::NumLock => true,
        _ => false,
    }
}

/// The USB HID usage of a key on the Keyboard/Keypad page, 0 when it has none.
pub open spec fn hid_usage_of(k: KeyIdentity) -> u8 {
    match k {
        KeyIdentity::KeyA => 0x04,
        KeyIdentity::KeyB => 0x05,
        KeyIdentity::KeyC => 0x06,
        KeyIdentity::KeyD => 0x07,
        KeyIdentity::KeyE => 0x08,
        KeyIdentity::KeyF => 0x09,
        KeyIdentity::KeyG => 0x0A,
        KeyIdentity::KeyH => 0x0B,
        KeyIdentity::KeyI => 0x0C,
        KeyIdentity::KeyJ => 0x0D,
        KeyIdentity::KeyK => 0x0E,
        KeyIdentity::KeyL => 0x0F,
        KeyIdentity::KeyM => 0x10,
        KeyIdentity::KeyN => 0x11,
        KeyIdentity::KeyO => 0x12,
        KeyIdentity::KeyP => 0x13,
        KeyIdentity::KeyQ => 0x14,
        KeyIdentity::KeyR => 0x15,
        KeyIdentity::KeyS => 0x16,
        KeyIdentity::KeyT => 0x17,
        KeyIdentity::KeyU => 0x18,
        KeyIdentity::KeyV => 0x19,
        KeyIdentity::KeyW => 0x1A,
        KeyIdentity::KeyX => 0x1B,
        KeyIdentity::KeyY => 0x1C,
        KeyIdentity::KeyZ => 0x1D,
        KeyIdentity::Num1 => 0x1E,
        KeyIdentity::Num2 => 0x1F,
        KeyIdentity::Num3 => 0x20,
        KeyIdentity::Num4 => 0x21,
        KeyIdentity::Num5 => 0x22,
        KeyIdentity::Num6 => 0x23,
        KeyIdentity::Num7 => 0x24,
        KeyIdentity::Num8 => 0x25,
        KeyIdentity::Num9 => 0x26,
        KeyIdentity::Num0 => 0x27,
        KeyIdentity::Return => 0x28,
        KeyIdentity::Escape => 0x29,
        KeyIdentity::Backspace => 0x2A,
        KeyIdentity::Tab => 0x2B,
        KeyIdentity::Space => 0x2C,
        KeyIdentity::Minus => 0x2D,
        KeyIdentity::Equal => 0x2E,
        KeyIdentity::LeftBracket => 0x2F,
        KeyIdentity::RightBracket => 0x30,
        KeyIdentity::BackSlash => 0x31,
        KeyIdentity::SemiColon => 0x33,
        KeyIdentity::Quote => 0x34,
        KeyIdentity::BackQuote => 0x35,
        KeyIdentity::Comma => 0x36,
        KeyIdentity::Dot => 0x37,
        KeyIdentity::Slash => 0x38,
        KeyIdentity::CapsLock => 0x39,
        KeyIdentity::F1 => 0x3A,
        KeyIdentity::F2 => 0x3B,
        KeyIdentity::F3 => 0x3C,
        KeyIdentity::F4 => 0x3D,
        KeyIdentity::F5 => 0x3E,
        KeyIdentity::F6 => 0x3F,
        KeyIdentity::F7 => 0x40,
        KeyIdentity::F8 => 0x41,
        KeyIdentity::F9 => 0x42,
        KeyIdentity::F10 => 0x43,
        KeyIdentity::F11 => 0x44,
        KeyIdentity::F12 => 0x45,
        KeyIdentity::PrintScreen => 0x46,
        KeyIdentity::ScrollLock => 0x47,
        KeyIdentity::Pause => 0x48,
        KeyIdentity::Insert => 0x49,
        KeyIdentity::Home => 0x4A,
        KeyIdentity::PageUp => 0x4B,
        KeyIdentity::Delete => 0x4C,
        KeyIdentity::End => 0x4D,
        KeyIdentity::PageDown => 0x4E,
        KeyIdentity::RightArrow => 0x4F,
        KeyIdentity::LeftArrow => 0x50,
        KeyIdentity::DownArrow => 0x51,
        KeyIdentity::UpArrow => 0x52,
        KeyIdentity::NumLock => 0x53,
        KeyIdentity::KpDivide => 0x54,
        KeyIdentity::KpMultiply => 0x55,
        KeyIdentity::KpMinus => 0x56,
        KeyIdentity::KpPlus => 0x57,
        KeyIdentity::KpReturn => 0x58,
        KeyIdentity::Kp1 => 0x59,
        KeyIdentity::Kp2 => 0x5A,
        KeyIdentity::Kp3 => 0x5B,
        KeyIdentity::Kp4 => 0x5C,
        KeyIdentity::Kp5 => 0x5D,
        KeyIdentity::Kp6 => 0x5E,
        KeyIdentity::Kp7 => 0x5F,
        KeyIdentity::Kp8 => 0x60,
        KeyIdentity::Kp9 => 0x61,
        KeyIdentity::Kp0 => 0x62,
        KeyIdentity::KpDecimal => 0x63,
        KeyIdentity::IntlBackslash => 0x64,
        KeyIdentity::F13 => 0x68,
        KeyIdentity::F14 => 0x69,
        KeyIdentity::F15 => 0x6A,
        KeyIdentity::F16 => 0x6B,
        KeyIdentity::F17 => 0x6C,
        KeyIdentity::F18 => 0x6D,
        KeyIdentity::F19 => 0x6E,
        KeyIdentity::F20 => 0x6F,
        KeyIdentity::F21 => 0x70,
        KeyIdentity::F22 => 0x71,
        KeyIdentity::F23 => 0x72,
        KeyIdentity::F24 => 0x73,
        KeyIdentity::ControlLeft => 0xE0,
        KeyIdentity::ShiftLeft => 0xE1,
        KeyIdentity::Alt => 0xE2,
        KeyIdentity::MetaLeft => 0xE3,
        KeyIdentity::ControlRight => 0xE4,
        KeyIdentity::ShiftRight => 0xE5,
        KeyIdentity::AltGr => 0xE6,
        KeyIdentity::MetaRight => 0xE7,
        _ => 0x00,
    }
}

/// The key that a usage stands for: the inverse of the usage table.
pub open spec fn key_of_hid_usage(u: u8) -> Option<KeyIdentity> {
    match u {
        0x04 => Some(KeyIdentity::KeyA),
        0x05 => Some(KeyIdentity::KeyB),
        0x06 => Some(KeyIdentity::KeyC),
        0x07 => Some(KeyIdentity::KeyD),
        0x08 => Some(KeyIdentity::KeyE),
        0x09 => Some(KeyIdentity::KeyF),
        0x0A => Some(KeyIdentity::KeyG),
        0x0B => Some(KeyIdentity::KeyH),
        0x0C => Some(KeyIdentity::KeyI),
        0x0D => Some(KeyIdentity::KeyJ),
        0x0E => Some(KeyIdentity::KeyK),
        0x0F => Some(KeyIdentity::KeyL),
        0x10 => Some(KeyIdentity::KeyM),
        0x11 => Some(KeyIdentity::KeyN),
        0x12 => Some(KeyIdentity::KeyO),
        0x13 => Some(KeyIdentity::KeyP),
        0x14 => Some(KeyIdentity::KeyQ),
        0x15 => Some(KeyIdentity::KeyR),
        0x16 => Some(KeyIdentity::KeyS),
        0x17 => Some(KeyIdentity::KeyT),
        0x18 => Some(KeyIdentity::KeyU),
        0x19 => Some(KeyIdentity::KeyV),
        0x1A => Some(KeyIdentity::KeyW),
        0x1B => Some(KeyIdentity::KeyX),
        0x1C => Some(KeyIdentity::KeyY),
        0x1D => Some(KeyIdentity::KeyZ),
        0x1E => Some(KeyIdentity::Num1),
        0x1F => Some(KeyIdentity::Num2),
        0x20 => Some(KeyIdentity::Num3),
        0x21 => Some(KeyIdentity::Num4),
        0x22 => Some(KeyIdentity::Num5),
        0x23 => Some(KeyIdentity::Num6),
        0x24 => Some(KeyIdentity::Num7),
        0x25 => Some(KeyIdentity::Num8),
        0x26 => Some(KeyIdentity::Num9),
        0x27 => Some(KeyIdentity::Num0),
        0x28 => Some(KeyIdentity::Return),
        0x29 => Some(KeyIdentity::Escape),
        0x2A => Some(KeyIdentity::Backspace),
        0x2B => Some(KeyIdentity::Tab),
        0x2C => Some(KeyIdentity::Space),
        0x2D => Some(KeyIdentity::Minus),
        0x2E => Some(KeyIdentity::Equal),
        0x2F => Some(KeyIdentity::LeftBracket),
        0x30 => Some(KeyIdentity::RightBracket),
        0x31 => Some(KeyIdentity::BackSlash),
        0x33 => Some(KeyIdentity::SemiColon),
        0x34 => Some(KeyIdentity::Quote),
        0x35 => Some(KeyIdentity::BackQuote),
        0x36 => Some(KeyIdentity::Comma),
        0x37 => Some(KeyIdentity::Dot),
        0x38 => Some(KeyIdentity::Slash),
        0x39 => Some(KeyIdentity::CapsLock),
        0x3A => Some(KeyIdentity::F1),
        0x3B => Some(KeyIdentity::F2),
        0x3C => Some(KeyIdentity::F3),
        0x3D => Some(KeyIdentity::F4),
        0x3E => Some(KeyIdentity::F5),
        0x3F => Some(KeyIdentity::F6),
        0x40 => Some(KeyIdentity::F7),
        0x41 => Some(KeyIdentity::F8),
        0x42 => Some(KeyIdentity::F9),
        0x43 => Some(KeyIdentity::F10),
        0x44 => Some(KeyIdentity::F11),
        0x45 => Some(KeyIdentity::F12),
        0x46 => Some(KeyIdentity::PrintScreen),
        0x47 => Some(KeyIdentity::ScrollLock),
        0x48 => Some(KeyIdentity::Pause),
        0x49 => Some(KeyIdentity::Insert),
        0x4A => Some(KeyIdentity::Home),
        0x4B => Some(KeyIdentity::PageUp),
        0x4C => Some(KeyIdentity::Delete),
        0x4D => Some(KeyIdentity::End),
        0x4E => Some(KeyIdentity::PageDown),
        0x4F => Some(KeyIdentity::RightArrow),
        0x50 => Some(KeyIdentity::LeftArrow),
        0x51 => Some(KeyIdentity::DownArrow),
        0x52 => Some(KeyIdentity::UpArrow),
        0x53 => Some(KeyIdentity::NumLock),
        0x54 => Some(KeyIdentity::KpDivide),
        0x55 => Some(KeyIdentity::KpMultiply),
        0x56 => Some(KeyIdentity::KpMinus),
        0x57 => Some(KeyIdentity::KpPlus),
        0x58 => Some(KeyIdentity::KpReturn),
        0x59 => Some(KeyIdentity::Kp1),
        0x5A => Some(KeyIdentity::Kp2),
        0x5B => Some(KeyIdentity::Kp3),
        0x5C => Some(KeyIdentity::Kp4),
        0x5D => Some(KeyIdentity::Kp5),
        0x5E => Some(KeyIdentity::Kp6),
        0x5F => Some(KeyIdentity::Kp7),
        0x60 => Some(KeyIdentity::Kp8),
        0x61 => Some(KeyIdentity::Kp9),
        0x62 => Some(KeyIdentity::Kp0),
        0x63 => Some(KeyIdentity::KpDecimal),
        0x64 => Some(KeyIdentity::IntlBackslash),
        0x68 => Some(KeyIdentity::F13),
        0x69 => Some(KeyIdentity::F14),
        0x6A => Some(KeyIdentity::F15),
        0x6B => Some(KeyIdentity::F16),
        0x6C => Some(KeyIdentity::F17),
        0x6D => Some(KeyIdentity::F18),
        0x6E => Some(KeyIdentity::F19),
        0x6F => Some(KeyIdentity::F20),
        0x70 => Some(KeyIdentity::F21),
        0x71 => Some(KeyIdentity::F22),
        0x72 => Some(KeyIdentity::F23),
        0x73 => Some(KeyIdentity::F24),
        0xE0 => Some(KeyIdentity::ControlLeft),
        0xE1 => Some(KeyIdentity::ShiftLeft),
        0xE2 => Some(KeyIdentity::Alt),
        0xE3 => Some(KeyIdentity::MetaLeft),
        0xE4 => Some(KeyIdentity::ControlRight),
        0xE5 => Some(KeyIdentity::ShiftRight),
        0xE6 => Some(KeyIdentity::AltGr),
        0xE7 => Some(KeyIdentity::MetaRight),
        _ => None,
    }
}

/// The usage of a key, from this library's own table and never from what
/// the platform reports.
pub fn key_to_usb_hid(key: &KeyIdentity) -> (r: u8)
    ensures
        r == hid_usage_of(*key),
{
    match *key {
        KeyIdentity::KeyA => 0x04,
        KeyIdentity::KeyB => 0x05,
        KeyIdentity::KeyC => 0x06,
        KeyIdentity::KeyD => 0x07,
        KeyIdentity::KeyE => 0x08,
        KeyIdentity::KeyF => 0x09,
        KeyIdentity::KeyG => 0x0A,
        KeyIdentity::KeyH => 0x0B,
        KeyIdentity::KeyI => 0x0C,
        KeyIdentity::KeyJ => 0x0D,
        KeyIdentity::KeyK => 0x0E,
        KeyIdentity::KeyL => 0x0F,
        KeyIdentity::KeyM => 0x10,
        KeyIdentity::KeyN => 0x11,
        KeyIdentity::KeyO => 0x12,
        KeyIdentity::KeyP => 0x13,
        KeyIdentity::KeyQ => 0x14,
        KeyIdentity::KeyR => 0x15,
        KeyIdentity::KeyS => 0x16,
        KeyIdentity::KeyT => 0x17,
        KeyIdentity::KeyU => 0x18,
        KeyIdentity::KeyV => 0x19,
        KeyIdentity::KeyW => 0x1A,
        KeyIdentity::KeyX => 0x1B,
        KeyIdentity::KeyY => 0x1C,
        KeyIdentity::KeyZ => 0x1D,
        KeyIdentity::Num1 => 0x1E,
        KeyIdentity::Num2 => 0x1F,
        KeyIdentity::Num3 => 0x20,
        KeyIdentity::Num4 => 0x21,
        KeyIdentity::Num5 => 0x22,
        KeyIdentity::Num6 => 0x23,
        KeyIdentity::Num7 => 0x24,
        KeyIdentity::Num8 => 0x25,
        KeyIdentity::Num9 => 0x26,
        KeyIdentity::Num0 => 0x27,
        KeyIdentity::Return => 0x28,
        KeyIdentity::Escape => 0x29,
        KeyIdentity::Backspace => 0x2A,
        KeyIdentity::Tab => 0x2B,
        KeyIdentity::Space => 0x2C,
        KeyIdentity::Minus => 0x2D,
        KeyIdentity::Equal => 0x2E,
        KeyIdentity::LeftBracket => 0x2F,
        KeyIdentity::RightBracket => 0x30,
        KeyIdentity::BackSlash => 0x31,
        KeyIdentity::SemiColon => 0x33,
        KeyIdentity::Quote => 0x34,
        KeyIdentity::BackQuote => 0x35,
        KeyIdentity::Comma => 0x36,
        KeyIdentity::Dot => 0x37,
        KeyIdentity::Slash => 0x38,
        KeyIdentity::CapsLock => 0x39,
        KeyIdentity::F1 => 0x3A,
        KeyIdentity::F2 => 0x3B,
        KeyIdentity::F3 => 0x3C,
        KeyIdentity::F4 => 0x3D,
        KeyIdentity::F5 => 0x3E,
        KeyIdentity::F6 => 0x3F,
        KeyIdentity::F7 => 0x40,
        KeyIdentity::F8 => 0x41,
        KeyIdentity::F9 => 0x42,
        KeyIdentity::F10 => 0x43,
        KeyIdentity::F11 => 0x44,
        KeyIdentity::F12 => 0x45,
        KeyIdentity::PrintScreen => 0x46,
        KeyIdentity::ScrollLock => 0x47,
        KeyIdentity::Pause => 0x48,
        KeyIdentity::Insert => 0x49,
        KeyIdentity::Home => 0x4A,
        KeyIdentity::PageUp => 0x4B,
        KeyIdentity::Delete => 0x4C,
        KeyIdentity::End => 0x4D,
        KeyIdentity::PageDown => 0x4E,
        KeyIdentity::RightArrow => 0x4F,
        KeyIdentity::LeftArrow => 0x50,
        KeyIdentity::DownArrow => 0x51,
        KeyIdentity::UpArrow => 0x52,
        KeyIdentity::NumLock => 0x53,
        KeyIdentity::KpDivide => 0x54,
        KeyIdentity::KpMultiply => 0x55,
        KeyIdentity::KpMinus => 0x56,
        KeyIdentity::KpPlus => 0x57,
        KeyIdentity::KpReturn => 0x58,
        KeyIdentity::Kp1 => 0x59,
        KeyIdentity::Kp2 => 0x5A,
        KeyIdentity::Kp3 => 0x5B,
        KeyIdentity::Kp4 => 0x5C,
        KeyIdentity::Kp5 => 0x5D,
        KeyIdentity::Kp6 => 0x5E,
        KeyIdentity::Kp7 => 0x5F,
        KeyIdentity::Kp8 => 0x60,
        KeyIdentity::Kp9 => 0x61,
        KeyIdentity::Kp0 => 0x62,
        KeyIdentity::KpDecimal => 0x63,
        KeyIdentity::IntlBackslash => 0x64,
        KeyIdentity::F13 => 0x68,
        KeyIdentity::F14 => 0x69,
        KeyIdentity::F15 => 0x6A,
        KeyIdentity::F16 => 0x6B,
        KeyIdentity::F17 => 0x6C,
        KeyIdentity::F18 => 0x6D,
        KeyIdentity::F19 => 0x6E,
        KeyIdentity::F20 => 0x6F,
        KeyIdentity::F21 => 0x70,
        KeyIdentity::F22 => 0x71,
        KeyIdentity::F23 => 0x72,
        KeyIdentity::F24 => 0x73,
        KeyIdentity::ControlLeft => 0xE0,
        KeyIdentity::ShiftLeft => 0xE1,
        KeyIdentity::Alt => 0xE2,
        KeyIdentity::MetaLeft => 0xE3,
        KeyIdentity::ControlRight => 0xE4,
        KeyIdentity::ShiftRight => 0xE5,
        KeyIdentity::AltGr => 0xE6,
        KeyIdentity::MetaRight => 0xE7,
        _ => 0x00,
    }
}

/// Every key that has a usage gets a nonzero byte, distinct keys get
/// distinct bytes, and every other key gets 0. Letters, digits and
/// modifiers fall in the ranges that the usage page reserves for them.
pub proof fn lemma_hid_usage_total(k: KeyIdentity)
    ensures
        has_hid_usage(k) <==> hid_usage_of(k) != 0,
        has_hid_usage(k) ==> key_of_hid_usage(hid_usage_of(k)) == Some(k),
        is_letter(k) ==> 0x04 <= hid_usage_of(k) <= 0x1D,
        is_digit(k) ==> 0x1E <= hid_usage_of(k) <= 0x27,
        modifier_group_of(k) is Some <==> 0xE0 <= hid_usage_of(k) <= 0xE7,
{
}

/// Two keys that have a usage share it only if they are the same key.
pub proof fn lemma_hid_usage_distinct(k1: KeyIdentity, k2: KeyIdentity)
    requires
        has_hid_usage(k1),
        has_hid_usage(k2),
        hid_usage_of(k1) == hid_usage_of(k2),
    ensures
        k1 == k2,
{
    lemma_hid_usage_total(k1);
    lemma_hid_usage_total(k2);
}

pub open spec fn digit_char(d: nat) -> char {
    if d == 0 { '0' }
    else if d == 1 { '1' }
    else if d == 2 { '2' }
    else if d == 3 { '3' }
    else if d == 4 { '4' }
    else if d == 5 { '5' }
    else if d == 6 { '6' }
    else if d == 7 { '7' }
    else if d == 8 { '8' }
    else { '9' }
}

/// The decimal digits of `n`, most significant first, without leading zeros.
pub open spec fn decimal(n: nat) -> Seq<char>
    decreases n,
{
    if n < 10 {
        seq![digit_char(n)]
    } else {
        decimal(n / 10) + seq![digit_char(n % 10)]
    }
}

fn digit_str(d: u32) -> (r: &'static str)
    requires
        d < 10,
    ensures
        r@ == seq![digit_char(d as nat)],
{
    proof {
        reveal_strlit("0");
        reveal_strlit("1");
        reveal_strlit("2");
        reveal_strlit("3");
        reveal_strlit("4");
        reveal_strlit("5");
        reveal_strlit("6");
        reveal_strlit("7");
        reveal_strlit("8");
        reveal_strlit("9");
    }
    match d {
        0 => "0",
        1 => "1",
        2 => "2",
        3 => "3",
        4 => "4",
        5 => "5",
        6 => "6",
        7 => "7",
        8 => "8",
        _ => "9",
    }
}

fn push_decimal(s: &mut String, n: u32)
    ensures
        final(s)@ == old(s)@ + decimal(n as nat),
    decreases n,
{
    if n >= 10 {
        push_decimal(s, n / 10);
    }
    s.append(digit_str(n % 10));
    assert(final(s)@ =~= old(s)@ + decimal(n as nat));
}

/// The name of a key: the name of its variant, and `Unknown(<code>)` with
/// the platform's code in decimal for a key outside the layout.
pub open spec fn display_name_of(k: KeyIdentity) -> Seq<char> {
    match k {
        KeyIdentity::Alt => "Alt"@,
        KeyIdentity::AltGr => "AltGr"@,
        KeyIdentity::Backspace => "Backspace"@,
        KeyIdentity::CapsLock => "CapsLock"@,
        KeyIdentity::ControlLeft => "ControlLeft"@,
        KeyIdentity::ControlRight => "ControlRight"@,
        KeyIdentity::Delete => "Delete"@,
        KeyIdentity::DownArrow => "DownArrow"@,
        KeyIdentity::End => "End"@,
        KeyIdentity::Escape => "Escape"@,
        KeyIdentity::F1 => "F1"@,
        KeyIdentity::F2 => "F2"@,
        KeyIdentity::F3 => "F3"@,
        KeyIdentity::F4 => "F4"@,
        KeyIdentity::F5 => "F5"@,
        KeyIdentity::F6 => "F6"@,
        KeyIdentity::F7 => "F7"@,
        KeyIdentity::F8 => "F8"@,
        KeyIdentity::F9 => "F9"@,
        KeyIdentity::F10 => "F10"@,
        KeyIdentity::F11 => "F11"@,
        KeyIdentity::F12 => "F12"@,
        KeyIdentity::F13 => "F13"@,
        KeyIdentity::F14 => "F14"@,
        KeyIdentity::F15 => "F15"@,
        KeyIdentity::F16 => "F16"@,
        KeyIdentity::F17 => "F17"@,
        KeyIdentity::F18 => "F18"@,
        KeyIdentity::F19 => "F19"@,
        KeyIdentity::F20 => "F20"@,
        KeyIdentity::F21 => "F21"@,
        KeyIdentity::F22 => "F22"@,
        KeyIdentity::F23 => "F23"@,
        KeyIdentity::F24 => "F24"@,
        KeyIdentity::Home => "Home"@,
        KeyIdentity::LeftArrow => "LeftArrow"@,
        KeyIdentity::MetaLeft => "MetaLeft"@,
        KeyIdentity::MetaRight => "MetaRight"@,
        KeyIdentity::PageDown => "PageDown"@,
        KeyIdentity::PageUp => "PageUp"@,
        KeyIdentity::Return => "Return"@,
        KeyIdentity::RightArrow => "RightArrow"@,
        KeyIdentity::ShiftLeft => "ShiftLeft"@,
        KeyIdentity::ShiftRight => "ShiftRight"@,
        KeyIdentity::Space => "Space"@,
        KeyIdentity::Tab => "Tab"@,
        KeyIdentity::UpArrow => "UpArrow"@,
        KeyIdentity::PrintScreen => "PrintScreen"@,
        KeyIdentity::ScrollLock => "ScrollLock"@,
        KeyIdentity::Pause => "Pause"@,
        KeyIdentity::NumLock => "NumLock"@,
        KeyIdentity::BackQuote => "BackQuote"@,
        KeyIdentity::Num1 => "Num1"@,
        KeyIdentity::Num2 => "Num2"@,
        KeyIdentity::Num3 => "Num3"@,
        KeyIdentity::Num4 => "Num4"@,
        KeyIdentity::Num5 => "Num5"@,
        KeyIdentity::Num6 => "Num6"@,
        KeyIdentity::Num7 => "Num7"@,
        KeyIdentity::Num8 => "Num8"@,
        KeyIdentity::Num9 => "Num9"@,
        KeyIdentity::Num0 => "Num0"@,
        KeyIdentity::Minus => "Minus"@,
        KeyIdentity::Equal => "Equal"@,
        KeyIdentity::KeyQ => "KeyQ"@,
        KeyIdentity::KeyW => "KeyW"@,
        KeyIdentity::KeyE => "KeyE"@,
        KeyIdentity::KeyR => "KeyR"@,
        KeyIdentity::KeyT => "KeyT"@,
        KeyIdentity::KeyY => "KeyY"@,
        KeyIdentity::KeyU => "KeyU"@,
        KeyIdentity::KeyI => "KeyI"@,
        KeyIdentity::KeyO => "KeyO"@,
        KeyIdentity::KeyP => "KeyP"@,
        KeyIdentity::LeftBracket => "LeftBracket"@,
        KeyIdentity::RightBracket => "RightBracket"@,
        KeyIdentity::KeyA => "KeyA"@,
        KeyIdentity::KeyS => "KeyS"@,
        KeyIdentity::KeyD => "KeyD"@,
        KeyIdentity::KeyF => "KeyF"@,
        KeyIdentity::KeyG => "KeyG"@,
        KeyIdentity::KeyH => "KeyH"@,
        KeyIdentity::KeyJ => "KeyJ"@,
        KeyIdentity::KeyK => "KeyK"@,
        KeyIdentity::KeyL => "KeyL"@,
        KeyIdentity::SemiColon => "SemiColon"@,
        KeyIdentity::Quote => "Quote"@,
        KeyIdentity::BackSlash => "BackSlash"@,
        KeyIdentity::IntlBackslash => "IntlBackslash"@,
        KeyIdentity::KeyZ => "KeyZ"@,
        KeyIdentity::KeyX => "KeyX"@,
        KeyIdentity::KeyC => "KeyC"@,
        KeyIdentity::KeyV => "KeyV"@,
        KeyIdentity::KeyB => "KeyB"@,
        KeyIdentity::KeyN => "KeyN"@,
        KeyIdentity::KeyM => "KeyM"@,
        KeyIdentity::Comma => "Comma"@,
        KeyIdentity::Dot => "Dot"@,
        KeyIdentity::Slash => "Slash"@,
        KeyIdentity::Insert => "Insert"@,
        KeyIdentity::KpReturn => "KpReturn"@,
        KeyIdentity::KpMinus => "KpMinus"@,
        KeyIdentity::KpPlus => "KpPlus"@,
        KeyIdentity::KpMultiply => "KpMultiply"@,
        KeyIdentity::KpDivide => "KpDivide"@,
        KeyIdentity::KpDecimal => "KpDecimal"@,
        KeyIdentity::Kp0 => "Kp0"@,
        KeyIdentity::Kp1 => "Kp1"@,
        KeyIdentity::Kp2 => "Kp2"@,
        KeyIdentity::Kp3 => "Kp3"@,
        KeyIdentity::Kp4 => "Kp4"@,
        KeyIdentity::Kp5 => "Kp5"@,
        KeyIdentity::Kp6 => "Kp6"@,
        KeyIdentity::Kp7 => "Kp7"@,
        KeyIdentity::Kp8 => "Kp8"@,
        KeyIdentity::Kp9 => "Kp9"@,
        KeyIdentity::KpDelete => "KpDelete"@,
        KeyIdentity::Function => "Function"@,
        KeyIdentity::Unknown(n) => "Unknown("@ + decimal(n as nat) + ")"@,
    }
}

pub fn key_to_string(key: &KeyIdentity) -> (r: String)
    ensures
        r@ == display_name_of(*key),
{
    match *key {
        KeyIdentity::Alt => String::from_str("Alt"),
        KeyIdentity::AltGr => String::from_str("AltGr"),
        KeyIdentity::Backspace => String::from_str("Backspace"),
        KeyIdentity::CapsLock => String::from_str("CapsLock"),
        KeyIdentity::ControlLeft => String::from_str("ControlLeft"),
        KeyIdentity::ControlRight => String::from_str("ControlRight"),
        KeyIdentity::Delete => String::from_str("Delete"),
        KeyIdentity::DownArrow => String::from_str("DownArrow"),
        KeyIdentity::End => String::from_str("End"),
        KeyIdentity::Escape => String::from_str("Escape"),
        KeyIdentity::F1 => String::from_str("F1"),
        KeyIdentity::F2 => String::from_str("F2"),
        KeyIdentity::F3 => String::from_str("F3"),
        KeyIdentity::F4 => String::from_str("F4"),
        KeyIdentity::F5 => String::from_str("F5"),
        KeyIdentity::F6 => String::from_str("F6"),
        KeyIdentity::F7 => String::from_str("F7"),
        KeyIdentity::F8 => String::from_str("F8"),
        KeyIdentity::F9 => String::from_str("F9"),
        KeyIdentity::F10 => String::from_str("F10"),
        KeyIdentity::F11 => String::from_str("F11"),
        KeyIdentity::F12 => String::from_str("F12"),
        KeyIdentity::F13 => String::from_str("F13"),
        KeyIdentity::F14 => String::from_str("F14"),
        KeyIdentity::F15 => String::from_str("F15"),
        KeyIdentity::F16 => String::from_str("F16"),
        KeyIdentity::F17 => String::from_str("F17"),
        KeyIdentity::F18 => String::from_str("F18"),
        KeyIdentity::F19 => String::from_str("F19"),
        KeyIdentity::F20 => String::from_str("F20"),
        KeyIdentity::F21 => String::from_str("F21"),
        KeyIdentity::F22 => String::from_str("F22"),
        KeyIdentity::F23 => String::from_str("F23"),
        KeyIdentity::F24 => String::from_str("F24"),
        KeyIdentity::Home => String::from_str("Home"),
        KeyIdentity::LeftArrow => String::from_str("LeftArrow"),
        KeyIdentity::MetaLeft => String::from_str("MetaLeft"),
        KeyIdentity::MetaRight => String::from_str("MetaRight"),
        KeyIdentity::PageDown => String::from_str("PageDown"),
        KeyIdentity::PageUp => String::from_str("PageUp"),
        KeyIdentity::Return => String::from_str("Return"),
        KeyIdentity::RightArrow => String::from_str("RightArrow"),
        KeyIdentity::ShiftLeft => String::from_str("ShiftLeft"),
        KeyIdentity::ShiftRight => String::from_str("ShiftRight"),
        KeyIdentity::Space => String::from_str("Space"),
        KeyIdentity::Tab => String::from_str("Tab"),
        KeyIdentity::UpArrow => String::from_str("UpArrow"),
        KeyIdentity::PrintScreen => String::from_str("PrintScreen"),
        KeyIdentity::ScrollLock => String::from_str("ScrollLock"),
        KeyIdentity::Pause => String::from_str("Pause"),
        KeyIdentity::NumLock => String::from_str("NumLock"),
        KeyIdentity::BackQuote => String::from_str("BackQuote"),
        KeyIdentity::Num1 => String::from_str("Num1"),
        KeyIdentity::Num2 => String::from_str("Num2"),
        KeyIdentity::Num3 => String::from_str("Num3"),
        KeyIdentity::Num4 => String::from_str("Num4"),
        KeyIdentity::Num5 => String::from_str("Num5"),
        KeyIdentity::Num6 => String::from_str("Num6"),
        KeyIdentity::Num7 => String::from_str("Num7"),
        KeyIdentity::Num8 => String::from_str("Num8"),
        KeyIdentity::Num9 => String::from_str("Num9"),
        KeyIdentity::Num0 => String::from_str("Num0"),
        KeyIdentity::Minus => String::from_str("Minus"),
        KeyIdentity::Equal => String::from_str("Equal"),
        KeyIdentity::KeyQ => String::from_str("KeyQ"),
        KeyIdentity::KeyW => String::from_str("KeyW"),
        KeyIdentity::KeyE => String::from_str("KeyE"),
        KeyIdentity::KeyR => String::from_str("KeyR"),
        KeyIdentity::KeyT => String::from_str("KeyT"),
        KeyIdentity::KeyY => String::from_str("KeyY"),
        KeyIdentity::KeyU => String::from_str("KeyU"),
        KeyIdentity::KeyI => String::from_str("KeyI"),
        KeyIdentity::KeyO => String::from_str("KeyO"),
        KeyIdentity::KeyP => String::from_str("KeyP"),
        KeyIdentity::LeftBracket => String::from_str("LeftBracket"),
        KeyIdentity::RightBracket => String::from_str("RightBracket"),
        KeyIdentity::KeyA => String::from_str("KeyA"),
        KeyIdentity::KeyS => String::from_str("KeyS"),
        KeyIdentity::KeyD => String::from_str("KeyD"),
        KeyIdentity::KeyF => String::from_str("KeyF"),
        KeyIdentity::KeyG => String::from_str("KeyG"),
        KeyIdentity::KeyH => String::from_str("KeyH"),
        KeyIdentity::KeyJ => String::from_str("KeyJ"),
        KeyIdentity::KeyK => String::from_str("KeyK"),
        KeyIdentity::KeyL => String::from_str("KeyL"),
        KeyIdentity::SemiColon => String::from_str("SemiColon"),
        KeyIdentity::Quote => String::from_str("Quote"),
        KeyIdentity::BackSlash => String::from_str("BackSlash"),
        KeyIdentity::IntlBackslash => String::from_str("IntlBackslash"),
        KeyIdentity::KeyZ => String::from_str("KeyZ"),
        KeyIdentity::KeyX => String::from_str("KeyX"),
        KeyIdentity::KeyC => String::from_str("KeyC"),
        KeyIdentity::KeyV => String::from_str("KeyV"),
        KeyIdentity::KeyB => String::from_str("KeyB"),
        KeyIdentity::KeyN => String::from_str("KeyN"),
        KeyIdentity::KeyM => String::from_str("KeyM"),
        KeyIdentity::Comma => String::from_str("Comma"),
        KeyIdentity::Dot => String::from_str("Dot"),
        KeyIdentity::Slash => String::from_str("Slash"),
        KeyIdentity::Insert => String::from_str("Insert"),
        KeyIdentity::KpReturn => String::from_str("KpReturn"),
        KeyIdentity::KpMinus => String::from_str("KpMinus"),
        KeyIdentity::KpPlus => String::from_str("KpPlus"),
        KeyIdentity::KpMultiply => String::from_str("KpMultiply"),
        KeyIdentity::KpDivide => String::from_str("KpDivide"),
        KeyIdentity::KpDecimal => String::from_str("KpDecimal"),
        KeyIdentity::Kp0 => String::from_str("Kp0"),
        KeyIdentity::Kp1 => String::from_str("Kp1"),
        KeyIdentity::Kp2 => String::from_str("Kp2"),
        KeyIdentity::Kp3 => String::from_str("Kp3"),
        KeyIdentity::Kp4 => String::from_str("Kp4"),
        KeyIdentity::Kp5 => String::from_str("Kp5"),
        KeyIdentity::Kp6 => String::from_str("Kp6"),
        KeyIdentity::Kp7 => String::from_str("Kp7"),
        KeyIdentity::Kp8 => String::from_str("Kp8"),
        KeyIdentity::Kp9 => String::from_str("Kp9"),
        KeyIdentity::KpDelete => String::from_str("KpDelete"),
        KeyIdentity::Function => String::from_str("Function"),
        KeyIdentity::Unknown(n) => {
            let mut s = String::from_str("Unknown(");
            push_decimal(&mut s, n);
            s.append(")");
            s
        },
    }
}

/// The cross-platform physical key code, as web input events name it
/// ("KeyA", "Digit1", "ArrowLeft", "ControlLeft"); the display name for a
/// key that the table does not cover.
pub open spec fn standard_code_of(k: KeyIdentity) -> Seq<char> {
    match k {
        KeyIdentity::Alt => "AltLeft"@,
        KeyIdentity::AltGr => "AltRight"@,
        KeyIdentity::Backspace => "Backspace"@,
        KeyIdentity::CapsLock => "CapsLock"@,
        KeyIdentity::ControlLeft => "ControlLeft"@,
        KeyIdentity::ControlRight => "ControlRight"@,
        KeyIdentity::MetaLeft => "MetaLeft"@,
        KeyIdentity::MetaRight => "MetaRight"@,
        KeyIdentity::ShiftLeft => "ShiftLeft"@,
        KeyIdentity::ShiftRight => "ShiftRight"@,
        KeyIdentity::Tab => "Tab"@,
        KeyIdentity::Return => "Enter"@,
        KeyIdentity::Escape => "Escape"@,
        KeyIdentity::Space => "Space"@,
        KeyIdentity::LeftArrow => "ArrowLeft"@,
        KeyIdentity::RightArrow => "ArrowRight"@,
        KeyIdentity::UpArrow => "ArrowUp"@,
        KeyIdentity::DownArrow => "ArrowDown"@,
        KeyIdentity::Home => "Home"@,
        KeyIdentity::End => "End"@,
        KeyIdentity::PageUp => "PageUp"@,
        KeyIdentity::PageDown => "PageDown"@,
        KeyIdentity::Delete => "Delete"@,
        KeyIdentity::Insert => "Insert"@,
        KeyIdentity::F1 => "F1"@,
        KeyIdentity::F2 => "F2"@,
        KeyIdentity::F3 => "F3"@,
        KeyIdentity::F4 => "F4"@,
        KeyIdentity::F5 => "F5"@,
        KeyIdentity::F6 => "F6"@,
        KeyIdentity::F7 => "F7"@,
        KeyIdentity::F8 => "F8"@,
        KeyIdentity::F9 => "F9"@,
        KeyIdentity::F10 => "F10"@,
        KeyIdentity::F11 => "F11"@,
        KeyIdentity::F12 => "F12"@,
        KeyIdentity::F13 => "F13"@,
        KeyIdentity::F14 => "F14"@,
        KeyIdentity::F15 => "F15"@,
        KeyIdentity::F16 => "F16"@,
        KeyIdentity::F17 => "F17"@,
        KeyIdentity::F18 => "F18"@,
        KeyIdentity::F19 => "F19"@,
        KeyIdentity::F20 => "F20"@,
        KeyIdentity::KeyA => "KeyA"@,
        KeyIdentity::KeyB => "KeyB"@,
        KeyIdentity::KeyC => "KeyC"@,
        KeyIdentity::KeyD => "KeyD"@,
        KeyIdentity::KeyE => "KeyE"@,
        KeyIdentity::KeyF => "KeyF"@,
        KeyIdentity::KeyG => "KeyG"@,
        KeyIdentity::KeyH => "KeyH"@,
        KeyIdentity::KeyI => "KeyI"@,
        KeyIdentity::KeyJ => "KeyJ"@,
        KeyIdentity::KeyK => "KeyK"@,
        KeyIdentity::KeyL => "KeyL"@,
        KeyIdentity::KeyM => "KeyM"@,
        KeyIdentity::KeyN => "KeyN"@,
        KeyIdentity::KeyO => "KeyO"@,
        KeyIdentity::KeyP => "KeyP"@,
        KeyIdentity::KeyQ => "KeyQ"@,
        KeyIdentity::KeyR => "KeyR"@,
        KeyIdentity::KeyS => "KeyS"@,
        KeyIdentity::KeyT => "KeyT"@,
        KeyIdentity::KeyU => "KeyU"@,
        KeyIdentity::KeyV => "KeyV"@,
        KeyIdentity::KeyW => "KeyW"@,
        KeyIdentity::KeyX => "KeyX"@,
        KeyIdentity::KeyY => "KeyY"@,
        KeyIdentity::KeyZ => "KeyZ"@,
        KeyIdentity::Num1 => "Digit1"@,
        KeyIdentity::Num2 => "Digit2"@,
        KeyIdentity::Num3 => "Digit3"@,
        KeyIdentity::Num4 => "Digit4"@,
        KeyIdentity::Num5 => "Digit5"@,
        KeyIdentity::Num6 => "Digit6"@,
        KeyIdentity::Num7 => "Digit7"@,
        KeyIdentity::Num8 => "Digit8"@,
        KeyIdentity::Num9 => "Digit9"@,
        KeyIdentity::Num0 => "Digit0"@,
        KeyIdentity::Minus => "Minus"@,
        KeyIdentity::Equal => "Equal"@,
        KeyIdentity::LeftBracket => "BracketLeft"@,
        KeyIdentity::RightBracket => "BracketRight"@,
        KeyIdentity::BackSlash => "Backslash"@,
        KeyIdentity::SemiColon => "Semicolon"@,
        KeyIdentity::Quote => "Quote"@,
        KeyIdentity::Comma => "Comma"@,
        KeyIdentity::Dot => "Period"@,
        KeyIdentity::Slash => "Slash"@,
        KeyIdentity::BackQuote => "Backquote"@,
        _ => display_name_of(k),
    }
}

pub fn key_to_code(key: &KeyIdentity) -> (r: String)
    ensures
        r@ == standard_code_of(*key),
{
    match *key {
        KeyIdentity::Alt => String::from_str("AltLeft"),
        KeyIdentity::AltGr => String::from_str("AltRight"),
        KeyIdentity::Backspace => String::from_str("Backspace"),
        KeyIdentity::CapsLock => String::from_str("CapsLock"),
        KeyIdentity::ControlLeft => String::from_str("ControlLeft"),
        KeyIdentity::ControlRight => String::from_str("ControlRight"),
        KeyIdentity::MetaLeft => String::from_str("MetaLeft"),
        KeyIdentity::MetaRight => String::from_str("MetaRight"),
        KeyIdentity::ShiftLeft => String::from_str("ShiftLeft"),
        KeyIdentity::ShiftRight => String::from_str("ShiftRight"),
        KeyIdentity::Tab => String::from_str("Tab"),
        KeyIdentity::Return => String::from_str("Enter"),
        KeyIdentity::Escape => String::from_str("Escape"),
        KeyIdentity::Space => String::from_str("Space"),
        KeyIdentity::LeftArrow => String::from_str("ArrowLeft"),
        KeyIdentity::RightArrow => String::from_str("ArrowRight"),
        KeyIdentity::UpArrow => String::from_str("ArrowUp"),
        KeyIdentity::DownArrow => String::from_str("ArrowDown"),
        KeyIdentity::Home => String::from_str("Home"),
        KeyIdentity::End => String::from_str("End"),
        KeyIdentity::PageUp => String::from_str("PageUp"),
        KeyIdentity::PageDown => String::from_str("PageDown"),
        KeyIdentity::Delete => String::from_str("Delete"),
        KeyIdentity::Insert => String::from_str("Insert"),
        KeyIdentity::F1 => String::from_str("F1"),
        KeyIdentity::F2 => String::from_str("F2"),
        KeyIdentity::F3 => String::from_str("F3"),
        KeyIdentity::F4 => String::from_str("F4"),
        KeyIdentity::F5 => String::from_str("F5"),
        KeyIdentity::F6 => String::from_str("F6"),
        KeyIdentity::F7 => String::from_str("F7"),
        KeyIdentity::F8 => String::from_str("F8"),
        KeyIdentity::F9 => String::from_str("F9"),
        KeyIdentity::F10 => String::from_str("F10"),
        KeyIdentity::F11 => String::from_str("F11"),
        KeyIdentity::F12 => String::from_str("F12"),
        KeyIdentity::F13 => String::from_str("F13"),
        KeyIdentity::F14 => String::from_str("F14"),
        KeyIdentity::F15 => String::from_str("F15"),
        KeyIdentity::F16 => String::from_str("F16"),
        KeyIdentity::F17 => String::from_str("F17"),
        KeyIdentity::F18 => String::from_str("F18"),
        KeyIdentity::F19 => String::from_str("F19"),
        KeyIdentity::F20 => String::from_str("F20"),
        KeyIdentity::KeyA => String::from_str("KeyA"),
        KeyIdentity::KeyB => String::from_str("KeyB"),
        KeyIdentity::KeyC => String::from_str("KeyC"),
        KeyIdentity::KeyD => String::from_str("KeyD"),
        KeyIdentity::KeyE => String::from_str("KeyE"),
        KeyIdentity::KeyF => String::from_str("KeyF"),
        KeyIdentity::KeyG => String::from_str("KeyG"),
        KeyIdentity::KeyH => String::from_str("KeyH"),
        KeyIdentity::KeyI => String::from_str("KeyI"),
        KeyIdentity::KeyJ => String::from_str("KeyJ"),
        KeyIdentity::KeyK => String::from_str("KeyK"),
        KeyIdentity::KeyL => String::from_str("KeyL"),
        KeyIdentity::KeyM => String::from_str("KeyM"),
        KeyIdentity::KeyN => String::from_str("KeyN"),
        KeyIdentity::KeyO => String::from_str("KeyO"),
        KeyIdentity::KeyP => String::from_str("KeyP"),
        KeyIdentity::KeyQ => String::from_str("KeyQ"),
        KeyIdentity::KeyR => String::from_str("KeyR"),
        KeyIdentity::KeyS => String::from_str("KeyS"),
        KeyIdentity::KeyT => String::from_str("KeyT"),
        KeyIdentity::KeyU => String::from_str("KeyU"),
        KeyIdentity::KeyV => String::from_str("KeyV"),
        KeyIdentity::KeyW => String::from_str("KeyW"),
        KeyIdentity::KeyX => String::from_str("KeyX"),
        KeyIdentity::KeyY => String::from_str("KeyY"),
        KeyIdentity::KeyZ => String::from_str("KeyZ"),
        KeyIdentity::Num1 => String::from_str("Digit1"),
        KeyIdentity::Num2 => String::from_str("Digit2"),
        KeyIdentity::Num3 => String::from_str("Digit3"),
        KeyIdentity::Num4 => String::from_str("Digit4"),
        KeyIdentity::Num5 => String::from_str("Digit5"),
        KeyIdentity::Num6 => String::from_str("Digit6"),
        KeyIdentity::Num7 => String::from_str("Digit7"),
        KeyIdentity::Num8 => String::from_str("Digit8"),
        KeyIdentity::Num9 => String::from_str("Digit9"),
        KeyIdentity::Num0 => String::from_str("Digit0"),
        KeyIdentity::Minus => String::from_str("Minus"),
        KeyIdentity::Equal => String::from_str("Equal"),
        KeyIdentity::LeftBracket => String::from_str("BracketLeft"),
        KeyIdentity::RightBracket => String::from_str("BracketRight"),
        KeyIdentity::BackSlash => String::from_str("Backslash"),
        KeyIdentity::SemiColon => String::from_str("Semicolon"),
        KeyIdentity::Quote => String::from_str("Quote"),
        KeyIdentity::Comma => String::from_str("Comma"),
        KeyIdentity::Dot => String::from_str("Period"),
        KeyIdentity::Slash => String::from_str("Slash"),
        KeyIdentity::BackQuote => String::from_str("Backquote"),
        _ => key_to_string(key),
    }
}

} // verus!
