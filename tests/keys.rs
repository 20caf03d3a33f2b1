use rdev_grabber::keys::{key_to_code, key_to_string, key_to_usb_hid, modifier_group, KeyIdentity, ModifierGroup};

#[test]
fn hid_letters_and_digits() {
    assert_eq!(key_to_usb_hid(&KeyIdentity::KeyA), 0x04);
    assert_eq!(key_to_usb_hid(&KeyIdentity::KeyZ), 0x1D);
    assert_eq!(key_to_usb_hid(&KeyIdentity::Num1), 0x1E);
    assert_eq!(key_to_usb_hid(&KeyIdentity::Num0), 0x27);
}

#[test]
fn hid_special_keys() {
    assert_eq!(key_to_usb_hid(&KeyIdentity::Backspace), 0x2A);
    assert_eq!(key_to_usb_hid(&KeyIdentity::SemiColon), 0x33);
    assert_eq!(key_to_usb_hid(&KeyIdentity::CapsLock), 0x39);
    assert_eq!(key_to_usb_hid(&KeyIdentity::KpDecimal), 0x63);
    assert_eq!(key_to_usb_hid(&KeyIdentity::F24), 0x73);
}

#[test]
fn hid_modifiers() {
    assert_eq!(key_to_usb_hid(&KeyIdentity::ControlLeft), 0xE0);
    assert_eq!(key_to_usb_hid(&KeyIdentity::ShiftLeft), 0xE1);
    assert_eq!(key_to_usb_hid(&KeyIdentity::Alt), 0xE2);
    assert_eq!(key_to_usb_hid(&KeyIdentity::MetaLeft), 0xE3);
    assert_eq!(key_to_usb_hid(&KeyIdentity::ControlRight), 0xE4);
    assert_eq!(key_to_usb_hid(&KeyIdentity::ShiftRight), 0xE5);
    assert_eq!(key_to_usb_hid(&KeyIdentity::AltGr), 0xE6);
    assert_eq!(key_to_usb_hid(&KeyIdentity::MetaRight), 0xE7);
}

#[test]
fn hid_unknown_is_zero() {
    assert_eq!(key_to_usb_hid(&KeyIdentity::Unknown(77)), 0x00);
    assert_eq!(key_to_usb_hid(&KeyIdentity::KpDelete), 0x00);
    assert_eq!(key_to_usb_hid(&KeyIdentity::Function), 0x00);
}

#[test]
fn standard_codes() {
    assert_eq!(key_to_code(&KeyIdentity::KeyA), "KeyA");
    assert_eq!(key_to_code(&KeyIdentity::Num1), "Digit1");
    assert_eq!(key_to_code(&KeyIdentity::LeftArrow), "ArrowLeft");
    assert_eq!(key_to_code(&KeyIdentity::Return), "Enter");
    assert_eq!(key_to_code(&KeyIdentity::Alt), "AltLeft");
    assert_eq!(key_to_code(&KeyIdentity::AltGr), "AltRight");
    assert_eq!(key_to_code(&KeyIdentity::Dot), "Period");
    assert_eq!(key_to_code(&KeyIdentity::BackQuote), "Backquote");
}

#[test]
fn standard_code_falls_back_to_name() {
    assert_eq!(key_to_code(&KeyIdentity::F21), "F21");
    assert_eq!(key_to_code(&KeyIdentity::Kp5), "Kp5");
    assert_eq!(key_to_code(&KeyIdentity::Unknown(1234)), "Unknown(1234)");
}

#[test]
fn display_names() {
    assert_eq!(key_to_string(&KeyIdentity::KeyA), "KeyA");
    assert_eq!(key_to_string(&KeyIdentity::Return), "Return");
    assert_eq!(key_to_string(&KeyIdentity::Unknown(0)), "Unknown(0)");
    assert_eq!(key_to_string(&KeyIdentity::Unknown(4294967295)), "Unknown(4294967295)");
}

#[test]
fn modifier_groups() {
    assert_eq!(modifier_group(&KeyIdentity::ControlRight), Some(ModifierGroup::Control));
    assert_eq!(modifier_group(&KeyIdentity::AltGr), Some(ModifierGroup::Alt));
    assert_eq!(modifier_group(&KeyIdentity::ShiftLeft), Some(ModifierGroup::Shift));
    assert_eq!(modifier_group(&KeyIdentity::MetaRight), Some(ModifierGroup::Meta));
    assert_eq!(modifier_group(&KeyIdentity::CapsLock), None);
}
