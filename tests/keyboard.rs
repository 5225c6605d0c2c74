use keyboard_input::keyboard::{INPUT_KEYBOARD, KEYEVENTF_KEYUP, KEYEVENTF_UNICODE};
use keyboard_input::virtual_key::{VK_IME_OFF, VK_IME_ON};
use keyboard_input::{get_keyboard_input, Input, KeyboardEvent, KeyboardInput, VirtualKey};

/// Every key with the code that the platform's virtual-key table gives it.
fn catalog() -> Vec<(VirtualKey, u16)> {
    vec![
        (VirtualKey::LeftMouseButton, 0x01),
        (VirtualKey::Cancel, 0x03),
        (VirtualKey::RightMouseButton, 0x02),
        (VirtualKey::MiddleMouseButton, 0x04),
        (VirtualKey::XButton1, 0x05),
        (VirtualKey::XButton2, 0x06),
        (VirtualKey::Back, 0x08),
        (VirtualKey::Tab, 0x09),
        (VirtualKey::Clear, 0x0C),
        (VirtualKey::Enter, 0x0D),
        (VirtualKey::Shift, 0x10),
        (VirtualKey::Control, 0x11),
        (VirtualKey::Alt, 0x12),
        (VirtualKey::Pause, 0x13),
        (VirtualKey::CapsLock, 0x14),
        (VirtualKey::ImeKana, 0x15),
        (VirtualKey::ImeOn, 0x16),
        (VirtualKey::ImeJunja, 0x17),
        (VirtualKey::ImeFinal, 0x18),
        (VirtualKey::ImeHanja, 0x19),
        (VirtualKey::ImeOff, 0x1A),
        (VirtualKey::Escape, 0x1B),
        (VirtualKey::Space, 0x20),
        (VirtualKey::PageUp, 0x21),
        (VirtualKey::PageDown, 0x22),
        (VirtualKey::End, 0x23),
        (VirtualKey::Home, 0x24),
        (VirtualKey::ArrowLeft, 0x25),
        (VirtualKey::ArrowUp, 0x26),
        (VirtualKey::ArrowRight, 0x27),
        (VirtualKey::ArrowDown, 0x28),
        (VirtualKey::Select, 0x29),
        (VirtualKey::Print, 0x2A),
        (VirtualKey::Execute, 0x2B),
        (VirtualKey::Snapshot, 0x2C),
        (VirtualKey::Insert, 0x2D),
        (VirtualKey::Delete, 0x2E),
        (VirtualKey::Help, 0x2F),
        (VirtualKey::Kp0, 0x30),
        (VirtualKey::Kp1, 0x31),
        (VirtualKey::Kp2, 0x32),
        (VirtualKey::Kp3, 0x33),
        (VirtualKey::Kp4, 0x34),
        (VirtualKey::Kp5, 0x35),
        (VirtualKey::Kp6, 0x36),
        (VirtualKey::Kp7, 0x37),
        (VirtualKey::Kp8, 0x38),
        (VirtualKey::Kp9, 0x39),
        (VirtualKey::A, 0x41),
        (VirtualKey::B, 0x42),
        (VirtualKey::C, 0x43),
        (VirtualKey::D, 0x44),
        (VirtualKey::E, 0x45),
        (VirtualKey::F, 0x46),
        (VirtualKey::G, 0x47),
        (VirtualKey::H, 0x48),
        (VirtualKey::I, 0x49),
        (VirtualKey::J, 0x4A),
        (VirtualKey::K, 0x4B),
        (VirtualKey::L, 0x4C),
        (VirtualKey::M, 0x4D),
        (VirtualKey::N, 0x4E),
        (VirtualKey::O, 0x4F),
        (VirtualKey::P, 0x50),
        (VirtualKey::Q, 0x51),
        (VirtualKey::R, 0x52),
        (VirtualKey::S, 0x53),
        (VirtualKey::T, 0x54),
        (VirtualKey::U, 0x55),
        (VirtualKey::V, 0x56),
        (VirtualKey::W, 0x57),
        (VirtualKey::X, 0x58),
        (VirtualKey::Y, 0x59),
        (VirtualKey::Z, 0x5A),
        (VirtualKey::LeftWindows, 0x5B),
        (VirtualKey::RightWindows, 0x5C),
        (VirtualKey::Apps, 0x5D),
        (VirtualKey::Sleep, 0x5F),
        (VirtualKey::NP0, 0x60),
        (VirtualKey::NP1, 0x61),
        (VirtualKey::NP2, 0x62),
        (VirtualKey::NP3, 0x63),
        (VirtualKey::NP4, 0x64),
        (VirtualKey::NP5, 0x65),
        (VirtualKey::NP6, 0x66),
        (VirtualKey::NP7, 0x67),
        (VirtualKey::NP8, 0x68),
        (VirtualKey::NP9, 0x69),
        (VirtualKey::Multiply, 0x6A),
        (VirtualKey::Add, 0x6B),
        (VirtualKey::Separator, 0x6C),
        (VirtualKey::Subtract, 0x6D),
        (VirtualKey::Decimal, 0x6E),
        (VirtualKey::Divide, 0x6F),
        (VirtualKey::F1, 0x70),
        (VirtualKey::F2, 0x71),
        (VirtualKey::F3, 0x72),
        (VirtualKey::F4, 0x73),
        (VirtualKey::F5, 0x74),
        (VirtualKey::F6, 0x75),
        (VirtualKey::F7, 0x76),
        (VirtualKey::F8, 0x77),
        (VirtualKey::F9, 0x78),
        (VirtualKey::F10, 0x79),
        (VirtualKey::F11, 0x7A),
        (VirtualKey::F12, 0x7B),
        (VirtualKey::F13, 0x7C),
        (VirtualKey::F14, 0x7D),
        (VirtualKey::F15, 0x7E),
        (VirtualKey::F16, 0x7F),
        (VirtualKey::F17, 0x80),
        (VirtualKey::F18, 0x81),
        (VirtualKey::F19, 0x82),
        (VirtualKey::F20, 0x83),
        (VirtualKey::F21, 0x84),
        (VirtualKey::F22, 0x85),
        (VirtualKey::F23, 0x86),
        (VirtualKey::F24, 0x87),
        (VirtualKey::NumLock, 0x90),
        (VirtualKey::Scroll, 0x91),
        (VirtualKey::LeftShift, 0xA0),
        (VirtualKey::RightShift, 0xA1),
        (VirtualKey::LeftControl, 0xA2),
        (VirtualKey::RightControl, 0xA3),
        (VirtualKey::LeftAlt, 0xA4),
        (VirtualKey::RightAlt, 0xA5),
        (VirtualKey::BrowserBack, 0xA6),
        (VirtualKey::BrowserForward, 0xA7),
        (VirtualKey::BrowserRefresh, 0xA8),
        (VirtualKey::BrowserStop, 0xA9),
        (VirtualKey::BrowserSearch, 0xAA),
        (VirtualKey::BrowserFavorites, 0xAB),
        (VirtualKey::BrowserHome, 0xAC),
        (VirtualKey::VolumeMute, 0xAD),
        (VirtualKey::VolumeDown, 0xAE),
        (VirtualKey::VolumeUp, 0xAF),
        (VirtualKey::MediaNextTrack, 0xB0),
        (VirtualKey::MediaPreviousTrack, 0xB1),
        (VirtualKey::MediaPlayPause, 0xB3),
        (VirtualKey::LaunchMail, 0xB4),
        (VirtualKey::LaunchMediaSelect, 0xB5),
        (VirtualKey::LaunchApp1, 0xB6),
        (VirtualKey::LaunchApp2, 0xB7),
        (VirtualKey::Oem1, 0xBA),
        (VirtualKey::OemPlus, 0xBB),
        (VirtualKey::OemComma, 0xBC),
        (VirtualKey::OemMinus, 0xBD),
        (VirtualKey::OemPeriod, 0xBE),
        (VirtualKey::Oem2, 0xBF),
        (VirtualKey::Oem3, 0xC0),
        (VirtualKey::Oem4, 0xDB),
        (VirtualKey::Oem5, 0xDC),
        (VirtualKey::Oem6, 0xDD),
        (VirtualKey::Oem7, 0xDE),
        (VirtualKey::Oem8, 0xDF),
        (VirtualKey::Oem102, 0xE2),
        (VirtualKey::ImeProcessKey, 0xE5),
        (VirtualKey::Packet, 0xE7),
        (VirtualKey::Attention, 0xF6),
        (VirtualKey::CrSel, 0xF7),
        (VirtualKey::ExSel, 0xF8),
        (VirtualKey::EraseEOF, 0xF9),
        (VirtualKey::Play, 0xFA),
        (VirtualKey::Zoom, 0xFB),
        (VirtualKey::PA1, 0xFD),
        (VirtualKey::OemClear, 0xFE),
    ]
}

#[test]
fn codes_match_platform_table() {
    let table = catalog();
    assert_eq!(table.len(), 166);
    for (key, code) in table {
        assert_eq!(key.code(), code, "{:?}", key);
    }
}

#[test]
fn ime_codes_are_literal_values() {
    assert_eq!(VK_IME_ON, 0x16);
    assert_eq!(VK_IME_OFF, 0x1A);
    assert_eq!(VirtualKey::ImeOn.code(), 0x16);
    assert_eq!(VirtualKey::ImeOff.code(), 0x1A);
}

#[test]
fn codes_are_distinct() {
    let table = catalog();
    for (i, (a, _)) in table.iter().enumerate() {
        for (b, _) in table.iter().skip(i + 1) {
            assert_ne!(a.code(), b.code(), "{:?} {:?}", a, b);
        }
    }
}

#[test]
fn code_round_trips_through_lookup() {
    for (key, _) in catalog() {
        let code = key.code() as u32;
        assert_eq!(VirtualKey::try_from_code(code), Some(key));
        assert_eq!(VirtualKey::from_code(code), key);
    }
}

#[test]
fn unknown_codes_are_not_found() {
    for code in [0x00u32, 0x07, 0x0A, 0x3A, 0x40, 0x5E, 0x88, 0xFF, 0x100, 0x10041, u32::MAX] {
        assert_eq!(VirtualKey::try_from_code(code), None, "{:#x}", code);
    }
}

#[test]
fn builder_zeroes_time_and_extra_info() {
    let r = get_keyboard_input(0x10, 0x20, 0x8);
    assert_eq!(
        r,
        Input {
            kind: INPUT_KEYBOARD,
            ki: KeyboardInput { vk: 0x10, scan: 0x20, flags: 0x8, time: 0, extra_info: 0 },
        }
    );
}

#[test]
fn key_down_a() {
    let r = KeyboardEvent::VirtualKeyDown(VirtualKey::A).into_input();
    assert_eq!(r.kind, INPUT_KEYBOARD);
    assert_eq!(r.ki.vk, 0x41);
    assert_eq!(r.ki.scan, 0);
    assert_eq!(r.ki.flags, 0);
    assert_eq!(r.ki.time, 0);
    assert_eq!(r.ki.extra_info, 0);
}

#[test]
fn key_up_a() {
    let r = KeyboardEvent::VirtualKeyUp(VirtualKey::A).into_input();
    assert_eq!(r.kind, INPUT_KEYBOARD);
    assert_eq!(r.ki.vk, 0x41);
    assert_eq!(r.ki.scan, 0);
    assert_eq!(r.ki.flags, KEYEVENTF_KEYUP);
    assert_eq!(KEYEVENTF_KEYUP, 0x2);
}

#[test]
fn literal_x() {
    let r = KeyboardEvent::Literal('x').into_input();
    assert_eq!(r.kind, INPUT_KEYBOARD);
    assert_eq!(r.ki.vk, 0);
    assert_eq!(r.ki.scan, 0x78);
    assert_eq!(r.ki.flags, KEYEVENTF_UNICODE);
    assert_eq!(KEYEVENTF_UNICODE, 0x4);
}

#[test]
fn literal_keeps_code_unit() {
    for c in ['\0', 'A', '\u{e9}', '\u{20ac}', '\u{ffff}'] {
        let r = KeyboardEvent::Literal(c).into_input();
        assert_eq!(r.ki.scan as u32, c as u32);
        assert_eq!(r.ki.vk, 0);
        assert_ne!(r.ki.flags & KEYEVENTF_UNICODE, 0);
    }
}

#[test]
fn literal_outside_one_code_unit_keeps_low_bits() {
    let r = KeyboardEvent::Literal('\u{1f600}').into_input();
    assert_eq!(r.ki.scan, 0xF600);
    assert_eq!(r.ki.vk, 0);
    assert_eq!(r.ki.flags, KEYEVENTF_UNICODE);
}

#[test]
fn press_and_release_differ_in_flags_only() {
    for (key, code) in catalog() {
        let down = KeyboardEvent::VirtualKeyDown(key).into_input();
        let up = KeyboardEvent::VirtualKeyUp(key).into_input();
        assert_eq!(down.ki.vk, code);
        assert_eq!(up.ki.vk, code);
        assert_eq!(down.ki.scan, 0);
        assert_eq!(up.ki.scan, 0);
        assert_ne!(down.ki.flags, up.ki.flags);
        let mut released = down;
        released.ki.flags = KEYEVENTF_KEYUP;
        assert_eq!(released, up);
    }
}

#[test]
fn key_records_never_carry_unicode_flag() {
    for (key, _) in catalog() {
        for e in [KeyboardEvent::VirtualKeyDown(key), KeyboardEvent::VirtualKeyUp(key)] {
            let r = e.into_input();
            assert_eq!(r.ki.flags & KEYEVENTF_UNICODE, 0);
            assert_ne!(r.ki.vk, 0);
        }
    }
}

#[test]
fn translation_is_repeatable() {
    for e in [
        KeyboardEvent::VirtualKeyDown(VirtualKey::F24),
        KeyboardEvent::VirtualKeyUp(VirtualKey::OemClear),
        KeyboardEvent::Literal('q'),
    ] {
        assert_eq!(e.into_input(), e.into_input());
    }
}

#[test]
fn unset_fields_are_zero() {
    for e in [
        KeyboardEvent::VirtualKeyDown(VirtualKey::LeftShift),
        KeyboardEvent::VirtualKeyUp(VirtualKey::Escape),
        KeyboardEvent::Literal('z'),
    ] {
        let r = e.into_input();
        assert_eq!(r.ki.time, 0);
        assert_eq!(r.ki.extra_info, 0);
        match e {
            KeyboardEvent::Literal(_) => assert_eq!(r.ki.vk, 0),
            _ => assert_eq!(r.ki.scan, 0),
        }
    }
}

#[test]
fn key_input_uses_given_flags() {
    let r = VirtualKey::Enter.into_key_input(0x1);
    assert_eq!(r.ki.vk, 0x0D);
    assert_eq!(r.ki.scan, 0);
    assert_eq!(r.ki.flags, 0x1);
}
