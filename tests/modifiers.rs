use rdev_grabber::event::normalize;
use rdev_grabber::keys::KeyIdentity;
use rdev_grabber::modifiers::{ModifierState, Modifiers};

#[test]
fn plain_keys_keep_shift_and_meta() {
    let mut s = ModifierState::new();
    s.observe(&KeyIdentity::ShiftLeft, true);
    s.observe(&KeyIdentity::MetaRight, true);
    s.observe(&KeyIdentity::ControlLeft, false);
    assert!(s.ctrl_phantom);
    for key in [KeyIdentity::KeyQ, KeyIdentity::Space, KeyIdentity::Unknown(9)] {
        for press in [true, false] {
            let m = s.observe(&key, press);
            assert!(m.shift && m.meta);
            assert!(!s.ctrl_phantom && !s.alt_phantom);
        }
    }
    let m = s.observe(&KeyIdentity::ShiftRight, false);
    assert!(!m.shift && m.meta && !m.ctrl);
}

#[test]
fn unmatched_control_release_sets_phantom() {
    let mut s = ModifierState::new();
    let m = s.observe(&KeyIdentity::ControlLeft, false);
    assert!(s.ctrl_phantom);
    assert!(!s.ctrl_held);
    assert!(m.ctrl);
}

#[test]
fn release_after_phantom_press_clears_control() {
    let mut s = ModifierState::new();
    s.observe(&KeyIdentity::ControlLeft, false);
    s.observe(&KeyIdentity::ControlLeft, true);
    assert!(s.ctrl_held && s.ctrl_phantom);
    let m = s.observe(&KeyIdentity::ControlLeft, false);
    assert!(!s.ctrl_held && !s.ctrl_phantom);
    assert!(!m.ctrl);
}

#[test]
fn second_unmatched_release_keeps_phantom() {
    let mut s = ModifierState::new();
    s.observe(&KeyIdentity::ControlLeft, false);
    let m = s.observe(&KeyIdentity::ControlRight, false);
    assert!(s.ctrl_phantom && !s.ctrl_held && m.ctrl);
    let m = s.observe(&KeyIdentity::KeyA, true);
    assert!(!s.ctrl_phantom && !m.ctrl);
}

#[test]
fn unmatched_altgr_release_reports_alt() {
    let mut s = ModifierState::new();
    let e = normalize(&mut s, &KeyIdentity::AltGr, false, 0, 0);
    assert!(s.alt_phantom);
    assert!(!s.alt_held);
    assert!(e.alt);
    assert_eq!(e.code, "AltRight");
    assert_eq!(e.event_type, "up");
    assert_eq!(e.usb_hid, 0xE6);
}

#[test]
fn reset_clears_everything() {
    let mut s = ModifierState::new();
    s.observe(&KeyIdentity::ShiftLeft, true);
    s.observe(&KeyIdentity::Alt, false);
    s.reset_modifiers();
    assert_eq!(s, ModifierState::new());
    assert_eq!(s.current_modifiers(), Modifiers { ctrl: false, alt: false, shift: false, meta: false });
}

#[test]
fn normalize_fills_every_field() {
    let mut s = ModifierState::new();
    s.observe(&KeyIdentity::ShiftRight, true);
    let e = normalize(&mut s, &KeyIdentity::Num5, true, 23, 6);
    assert_eq!(e.key, "Num5");
    assert_eq!(e.code, "Digit5");
    assert_eq!(e.event_type, "down");
    assert!(!e.ctrl && !e.alt && e.shift && !e.meta);
    assert_eq!(e.platform_code, 23);
    assert_eq!(e.scan_code, 6);
    assert_eq!(e.usb_hid, 0x22);
}
