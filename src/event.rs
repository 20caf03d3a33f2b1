use vstd::prelude::*;
use crate::keys::{
    KeyIdentity, display_name_of, hid_usage_of, key_to_code, key_to_string, key_to_usb_hid,
    standard_code_of,
};
use crate::modifiers::{ModifierState, Modifiers, effective, step};

verus! {

/// One key transition as handed to the consumer.
#[derive(Clone, Debug, PartialEq, Eq)]
pub struct KeyEvent {
    pub key: String,
    pub code: String,
    pub event_type: String,
    pub ctrl: bool,
    pub alt: bool,
    pub shift: bool,
    pub meta: bool,
    pub platform_code: u32,
    pub scan_code: u32,
    pub usb_hid: u32,
}

/// "down" for a press, "up" for a release.
pub open spec fn event_type_of(is_press: bool) -> Seq<char> {
    if is_press {
        "down"@
    } else {
        "up"@
    }
}

/// `e` reports the transition of `k` with modifiers `m`, the platform's
/// codes, and the given usage.
pub open spec fn describes(
    e: KeyEvent,
    k: KeyIdentity,
    is_press: bool,
    m: Modifiers,
    platform_code: u32,
    scan_code: u32,
    usb_hid: u32,
) -> bool {
    &&& e.key@ == display_name_of(k)
    &&& e.code@ == standard_code_of(k)
    &&& e.event_type@ == event_type_of(is_press)
    &&& e.ctrl == m.ctrl
    &&& e.alt == m.alt
    &&& e.shift == m.shift
    &&& e.meta == m.meta
    &&& e.platform_code == platform_code
    &&& e.scan_code == scan_code
    &&& e.usb_hid == usb_hid
}

/// Assembles the record of a transition from the modifiers in effect.
pub fn build_event(
    mods: Modifiers,
    key: &KeyIdentity,
    is_press: bool,
    platform_code: u32,
    scan_code: u32,
    usb_hid: u32,
) -> (r: KeyEvent)
    ensures
        describes(r, *key, is_press, mods, platform_code, scan_code, usb_hid),
{
    let event_type = if is_press {
        String::from_str("down")
    } else {
        String::from_str("up")
    };
    KeyEvent {
        key: key_to_string(key),
        code: key_to_code(key),
        event_type,
        ctrl: mods.ctrl,
        alt: mods.alt,
        shift: mods.shift,
        meta: mods.meta,
        platform_code,
        scan_code,
        usb_hid,
    }
}

/// Applies the transition to the modifier state and returns its record, with
/// the modifiers in effect after it and the usage from the library's table.
pub fn normalize(
    state: &mut ModifierState,
    key: &KeyIdentity,
    is_press: bool,
    platform_code: u32,
    scan_code: u32,
) -> (r: KeyEvent)
    ensures
        *final(state) == step(*old(state), *key, is_press),
        describes(
            r,
            *key,
            is_press,
            effective(*final(state)),
            platform_code,
            scan_code,
            hid_usage_of(*key) as u32,
        ),
{
    let mods = state.observe(key, is_press);
    let usb_hid = key_to_usb_hid(key) as u32;
    build_event(mods, key, is_press, platform_code, scan_code, usb_hid)
}

} // verus!
