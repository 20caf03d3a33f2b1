use rdev_grabber::keys::KeyIdentity;
use rdev_grabber::session::{modifier_for_scan_code, GrabSession, RawEventKind};
use rdev_grabber::{start_grab, stop_grab};

fn running_hooked() -> GrabSession {
    let mut s = GrabSession::new();
    assert!(start_grab(&mut s));
    s.hook_started();
    s
}

#[test]
fn control_chord_scenario() {
    let mut s = running_hooked();
    assert!(!s.modifiers.current_modifiers().ctrl);
    let events = [
        RawEventKind::KeyPress(KeyIdentity::ControlLeft),
        RawEventKind::KeyPress(KeyIdentity::KeyA),
        RawEventKind::KeyRelease(KeyIdentity::KeyA),
        RawEventKind::KeyRelease(KeyIdentity::ControlLeft),
    ];
    let mut reported = Vec::new();
    for kind in events {
        let d = s.handle_event(kind, 0, 0);
        assert!(!d.pass_through);
        reported.push(d.report.unwrap());
    }
    assert_eq!(reported.len(), 4);
    let names: Vec<&str> = reported.iter().map(|e| e.code.as_str()).collect();
    assert_eq!(names, vec!["ControlLeft", "KeyA", "KeyA", "ControlLeft"]);
    let types: Vec<&str> = reported.iter().map(|e| e.event_type.as_str()).collect();
    assert_eq!(types, vec!["down", "down", "up", "up"]);
    assert!(reported[1].ctrl && reported[2].ctrl);
    assert!(!reported[3].ctrl);
    assert!(!s.modifiers.current_modifiers().ctrl);
}

#[test]
fn lock_keys_always_pass_through() {
    let mut s = running_hooked();
    for kind in [
        RawEventKind::KeyPress(KeyIdentity::CapsLock),
        RawEventKind::KeyRelease(KeyIdentity::CapsLock),
        RawEventKind::KeyPress(KeyIdentity::NumLock),
        RawEventKind::KeyRelease(KeyIdentity::NumLock),
    ] {
        let d = s.handle_event(kind, 0, 0x3A);
        assert!(d.pass_through);
        assert!(d.report.is_some());
        assert_eq!(d.resync, None);
    }
    let mut t = GrabSession::new();
    assert!(start_grab(&mut t));
    let d = t.handle_event(RawEventKind::KeyPress(KeyIdentity::CapsLock), 0, 0);
    assert!(d.pass_through && d.report.is_some());
}

#[test]
fn unhooked_session_passes_keys_through() {
    let mut s = GrabSession::new();
    assert!(start_grab(&mut s));
    let d = s.handle_event(RawEventKind::KeyPress(KeyIdentity::KeyB), 11, 48);
    assert!(d.pass_through);
    let e = d.report.unwrap();
    assert_eq!(e.usb_hid, 0x05);
    assert_eq!(e.platform_code, 11);
    assert_eq!(e.scan_code, 48);
}

#[test]
fn start_twice_installs_once() {
    let mut s = GrabSession::new();
    assert!(start_grab(&mut s));
    s.hook_started();
    let before = s;
    assert!(!start_grab(&mut s));
    assert_eq!(s, before);
    assert!(s.is_running() && s.is_keyboard_hooked());
}

#[test]
fn stop_twice_tears_down_once() {
    let mut s = running_hooked();
    s.handle_event(RawEventKind::KeyPress(KeyIdentity::ShiftLeft), 0, 0x2A);
    assert!(stop_grab(&mut s));
    assert_eq!(s, GrabSession::new());
    assert!(!stop_grab(&mut s));
    assert_eq!(s, GrabSession::new());
}

#[test]
fn stop_while_idle_changes_nothing() {
    let mut s = GrabSession::new();
    assert!(!stop_grab(&mut s));
    assert_eq!(s, GrabSession::new());
    assert!(!s.is_running());
}

#[test]
fn events_outside_a_session_are_not_reported() {
    let mut s = GrabSession::new();
    let d = s.handle_event(RawEventKind::KeyPress(KeyIdentity::ControlLeft), 0, 0x1D);
    assert!(d.report.is_none() && d.pass_through && d.resync.is_none());
    assert_eq!(s, GrabSession::new());
}

#[test]
fn other_events_pass_through() {
    let mut s = running_hooked();
    let d = s.handle_event(RawEventKind::Other, 0, 0);
    assert!(d.report.is_none() && d.pass_through);
}

#[test]
fn hook_exit_returns_to_idle() {
    let mut s = running_hooked();
    s.handle_event(RawEventKind::KeyRelease(KeyIdentity::Alt), 0, 0x38);
    s.hook_exited();
    assert_eq!(s, GrabSession::new());
    assert!(start_grab(&mut s));
}

#[test]
fn scan_codes_resync_modifiers() {
    assert_eq!(modifier_for_scan_code(0x1D), Some(KeyIdentity::ControlLeft));
    assert_eq!(modifier_for_scan_code(0x021D), Some(KeyIdentity::ControlLeft));
    assert_eq!(modifier_for_scan_code(0xE01D), Some(KeyIdentity::ControlRight));
    assert_eq!(modifier_for_scan_code(0xE038), Some(KeyIdentity::AltGr));
    assert_eq!(modifier_for_scan_code(0xE05C), Some(KeyIdentity::MetaRight));
    assert_eq!(modifier_for_scan_code(0x1E), None);
    let mut s = running_hooked();
    let d = s.handle_event(RawEventKind::KeyPress(KeyIdentity::ShiftRight), 0, 0x36);
    assert_eq!(d.resync, Some(KeyIdentity::ShiftRight));
}
