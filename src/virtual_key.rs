use vstd::prelude::*;

verus! {

/// Virtual-key code of "IME on". The platform headers give this key no
/// symbolic constant, so its documented value is written out here.
pub const VK_IME_ON: u16 = 0x16;

/// Virtual-key code of "IME off". The platform headers give this key no
/// symbolic constant, so its documented value is written out here.
pub const VK_IME_OFF: u16 = 0x1A;

/// A key named independently of the keyboard layout, one variant for each
/// entry of the platform's virtual-key table that this library can send.
#[derive(Debug, Clone, Copy, PartialEq, Eq, Structural)]
pub enum VirtualKey {
    LeftMouseButton,
    Cancel,
    RightMouseButton,
    MiddleMouseButton,
    XButton1,
    XButton2,
    Back,
    Tab,
    Clear,
    /// Also known as `Return`.
    Enter,
    Shift,
    Control,
    Alt,
    Pause,
    CapsLock,
    /// Also known as `Hangul`.
    ImeKana,
    ImeOn,
    ImeJunja,
    ImeFinal,
    /// Also known as `Kanji`.
    ImeHanja,
    ImeOff,
    Escape,
    Space,
    PageUp,
    PageDown,
    End,
    Home,
    ArrowLeft,
    ArrowUp,
    ArrowRight,
    ArrowDown,
    Select,
    Print,
    Execute,
    Snapshot,
    Insert,
    Delete,
    Help,
    Kp0,
    Kp1,
    Kp2,
    Kp3,
    Kp4,
    Kp5,
    Kp6,
    Kp7,
    Kp8,
    Kp9,
    A,
    B,
    C,
    D,
    E,
    F,
    G,
    H,
    I,
    J,
    K,
    L,
    M,
    N,
    O,
    P,
    Q,
    R,
    S,
    T,
    U,
    V,
    W,
    X,
    Y,
    Z,
    LeftWindows,
    RightWindows,
    Apps,
    Sleep,
    NP0,
    NP1,
    NP2,
    NP3,
    NP4,
    NP5,
    NP6,
    NP7,
    NP8,
    NP9,
    Multiply,
    Add,
    Separator,
    Subtract,
    Decimal,
    Divide,
    F1,
    F2,
    F3,
    F4,
    F5,
    F6,
    F7,
    F8,
    F9,
    F10,
    F11,
    F12,
    F13,
    F14,
    F15,
    F16,
    F17,
    F18,
    F19,
    F20,
    F21,
    F22,
    F23,
    F24,
    NumLock,
    Scroll,
    LeftShift,
    RightShift,
    LeftControl,
    RightControl,
    LeftAlt,
    RightAlt,
    BrowserBack,
    BrowserForward,
    BrowserRefresh,
    BrowserStop,
    BrowserSearch,
    BrowserFavorites,
    BrowserHome,
    VolumeMute,
    VolumeDown,
    VolumeUp,
    MediaNextTrack,
    MediaPreviousTrack,
    MediaPlayPause,
    LaunchMail,
    LaunchMediaSelect,
    LaunchApp1,
    LaunchApp2,
    Oem1,
    OemPlus,
    OemComma,
    OemMinus,
    OemPeriod,
    Oem2,
    Oem3,
    Oem4,
    Oem5,
    Oem6,
    Oem7,
    Oem8,
    Oem102,
    ImeProcessKey,
    Packet,
    Attention,
    CrSel,
    ExSel,
    EraseEOF,
    Play,
    Zoom,
    PA1,
    OemClear,
}

impl VirtualKey {
    /// The platform's virtual-key code of this key.
    pub open spec fn spec_code(self) -> u16 {
        match self {
            VirtualKey::LeftMouseButton => 0x01,
            VirtualKey::Cancel => 0x03,
            VirtualKey::RightMouseButton => 0x02,
            VirtualKey::MiddleMouseButton => 0x04,
            VirtualKey::XButton1 => 0x05,
            VirtualKey::XButton2 => 0x06,
            VirtualKey::Back => 0x08,
            VirtualKey::Tab => 0x09,
            VirtualKey::Clear => 0x0C,
            VirtualKey::Enter => 0x0D,
            VirtualKey::Shift => 0x10,
            VirtualKey::Control => 0x11,
            VirtualKey::Alt => 0x12,
            VirtualKey::Pause => 0x13,
            VirtualKey::CapsLock => 0x14,
            VirtualKey::ImeKana => 0x15,
            VirtualKey::ImeOn => VK_IME_ON,
            VirtualKey::ImeJunja => 0x17,
            VirtualKey::ImeFinal => 0x18,
            VirtualKey::ImeHanja => 0x19,
            VirtualKey::ImeOff => VK_IME_OFF,
            VirtualKey::Escape => 0x1B,
            VirtualKey::Space => 0x20,
            VirtualKey::PageUp => 0x21,
            VirtualKey::PageDown => 0x22,
            VirtualKey::End => 0x23,
            VirtualKey::Home => 0x24,
            VirtualKey::ArrowLeft => 0x25,
            VirtualKey::ArrowUp => 0x26,
            VirtualKey::ArrowRight => 0x27,
            VirtualKey::ArrowDown => 0x28,
            VirtualKey::Select => 0x29,
            VirtualKey::Print => 0x2A,
            VirtualKey::Execute => 0x2B,
            VirtualKey::Snapshot => 0x2C,
            VirtualKey::Insert => 0x2D,
            VirtualKey::Delete => 0x2E,
            VirtualKey::Help => 0x2F,
            VirtualKey::Kp0 => 0x30,
            VirtualKey::Kp1 => 0x31,
            VirtualKey::Kp2 => 0x32,
            VirtualKey::Kp3 => 0x33,
            VirtualKey::Kp4 => 0x34,
            VirtualKey::Kp5 => 0x35,
            VirtualKey::Kp6 => 0x36,
            VirtualKey::Kp7 => 0x37,
            VirtualKey::Kp8 => 0x38,
            VirtualKey::Kp9 => 0x39,
            VirtualKey::A => 0x41,
            VirtualKey::B => 0x42,
            VirtualKey::C => 0x43,
            VirtualKey::D => 0x44,
            VirtualKey::E => 0x45,
            VirtualKey::F => 0x46,
            VirtualKey::G => 0x47,
            VirtualKey::H => 0x48,
            VirtualKey::I => 0x49,
            VirtualKey::J => 0x4A,
            VirtualKey::K => 0x4B,
            VirtualKey::L => 0x4C,
            VirtualKey::M => 0x4D,
            VirtualKey::N => 0x4E,
            VirtualKey::O => 0x4F,
            VirtualKey::P => 0x50,
            VirtualKey::Q => 0x51,
            VirtualKey::R => 0x52,
            VirtualKey::S => 0x53,
            VirtualKey::T => 0x54,
            VirtualKey::U => 0x55,
            VirtualKey::V => 0x56,
            VirtualKey::W => 0x57,
            VirtualKey::X => 0x58,
            VirtualKey::Y => 0x59,
            VirtualKey::Z => 0x5A,
            VirtualKey::LeftWindows => 0x5B,
            VirtualKey::RightWindows => 0x5C,
            VirtualKey::Apps => 0x5D,
            VirtualKey::Sleep => 0x5F,
            VirtualKey::NP0 => 0x60,
            VirtualKey::NP1 => 0x61,
            VirtualKey::NP2 => 0x62,
            VirtualKey::NP3 => 0x63,
            VirtualKey::NP4 => 0x64,
            VirtualKey::NP5 => 0x65,
            VirtualKey::NP6 => 0x66,
            VirtualKey::NP7 => 0x67,
            VirtualKey::NP8 => 0x68,
            VirtualKey::NP9 => 0x69,
            VirtualKey::Multiply => 0x6A,
            VirtualKey::Add => 0x6B,
            VirtualKey::Separator => 0x6C,
            VirtualKey::Subtract => 0x6D,
            VirtualKey::Decimal => 0x6E,
            VirtualKey::Divide => 0x6F,
            VirtualKey::F1 => 0x70,
            VirtualKey::F2 => 0x71,
            VirtualKey::F3 => 0x72,
            VirtualKey::F4 => 0x73,
            VirtualKey::F5 => 0x74,
            VirtualKey::F6 => 0x75,
            VirtualKey::F7 => 0x76,
            VirtualKey::F8 => 0x77,
            VirtualKey::F9 => 0x78,
            VirtualKey::F10 => 0x79,
            VirtualKey::F11 => 0x7A,
            VirtualKey::F12 => 0x7B,
            VirtualKey::F13 => 0x7C,
            VirtualKey::F14 => 0x7D,
            VirtualKey::F15 => 0x7E,
            VirtualKey::F16 => 0x7F,
            VirtualKey::F17 => 0x80,
            VirtualKey::F18 => 0x81,
            VirtualKey::F19 => 0x82,
            VirtualKey::F20 => 0x83,
            VirtualKey::F21 => 0x84,
            VirtualKey::F22 => 0x85,
            VirtualKey::F23 => 0x86,
            VirtualKey::F24 => 0x87,
            VirtualKey::NumLock => 0x90,
            VirtualKey::Scroll => 0x91,
            VirtualKey::LeftShift => 0xA0,
            VirtualKey::RightShift => 0xA1,
            VirtualKey::LeftControl => 0xA2,
            VirtualKey::RightControl => 0xA3,
            VirtualKey::LeftAlt => 0xA4,
            VirtualKey::RightAlt => 0xA5,
            VirtualKey::BrowserBack => 0xA6,
            VirtualKey::BrowserForward => 0xA7,
            VirtualKey::BrowserRefresh => 0xA8,
            VirtualKey::BrowserStop => 0xA9,
            VirtualKey::BrowserSearch => 0xAA,
            VirtualKey::BrowserFavorites => 0xAB,
            VirtualKey::BrowserHome => 0xAC,
            VirtualKey::VolumeMute => 0xAD,
            VirtualKey::VolumeDown => 0xAE,
            VirtualKey::VolumeUp => 0xAF,
            VirtualKey::MediaNextTrack => 0xB0,
            VirtualKey::MediaPreviousTrack => 0xB1,
            VirtualKey::MediaPlayPause => 0xB3,
            VirtualKey::LaunchMail => 0xB4,
            VirtualKey::LaunchMediaSelect => 0xB5,
            VirtualKey::LaunchApp1 => 0xB6,
            VirtualKey::LaunchApp2 => 0xB7,
            VirtualKey::Oem1 => 0xBA,
            VirtualKey::OemPlus => 0xBB,
            VirtualKey::OemComma => 0xBC,
            VirtualKey::OemMinus => 0xBD,
            VirtualKey::OemPeriod => 0xBE,
            VirtualKey::Oem2 => 0xBF,
            VirtualKey::Oem3 => 0xC0,
            VirtualKey::Oem4 => 0xDB,
            VirtualKey::Oem5 => 0xDC,
            VirtualKey::Oem6 => 0xDD,
            VirtualKey::Oem7 => 0xDE,
            VirtualKey::Oem8 => 0xDF,
            VirtualKey::Oem102 => 0xE2,
            VirtualKey::ImeProcessKey => 0xE5,
            VirtualKey::Packet => 0xE7,
            VirtualKey::Attention => 0xF6,
            VirtualKey::CrSel => 0xF7,
            VirtualKey::ExSel => 0xF8,
            VirtualKey::EraseEOF => 0xF9,
            VirtualKey::Play => 0xFA,
            VirtualKey::Zoom => 0xFB,
            VirtualKey::PA1 => 0xFD,
            VirtualKey::OemClear => 0xFE,
        }
    }

    /// Whether `code` is the virtual-key code of some key of the catalog.
    pub open spec fn is_code(code: u32) -> bool {
        VirtualKey::spec_from_code(code) is Some
    }

    /// The key whose virtual-key code is `code`, if the catalog has one.
    pub open spec fn spec_from_code(code: u32) -> Option<VirtualKey> {
        match code {
            0x01 => Some(VirtualKey::LeftMouseButton),
            0x03 => Some(VirtualKey::Cancel),
            0x02 => Some(VirtualKey::RightMouseButton),
            0x04 => Some(VirtualKey::MiddleMouseButton),
            0x05 => Some(VirtualKey::XButton1),
            0x06 => Some(VirtualKey::XButton2),
            0x08 => Some(VirtualKey::Back),
            0x09 => Some(VirtualKey::Tab),
            0x0C => Some(VirtualKey::Clear),
            0x0D => Some(VirtualKey::Enter),
            0x10 => Some(VirtualKey::Shift),
            0x11 => Some(VirtualKey::Control),
            0x12 => Some(VirtualKey::Alt),
            0x13 => Some(VirtualKey::Pause),
            0x14 => Some(VirtualKey::CapsLock),
            0x15 => Some(VirtualKey::ImeKana),
            0x16 => Some(VirtualKey::ImeOn),
            0x17 => Some(VirtualKey::ImeJunja),
            0x18 => Some(VirtualKey::ImeFinal),
            0x19 => Some(VirtualKey::ImeHanja),
            0x1A => Some(VirtualKey::ImeOff),
            0x1B => Some(VirtualKey::Escape),
            0x20 => Some(VirtualKey::Space),
            0x21 => Some(VirtualKey::PageUp),
            0x22 => Some(VirtualKey::PageDown),
            0x23 => Some(VirtualKey::End),
            0x24 => Some(VirtualKey::Home),
            0x25 => Some(VirtualKey::ArrowLeft),
            0x26 => Some(VirtualKey::ArrowUp),
            0x27 => Some(VirtualKey::ArrowRight),
            0x28 => Some(VirtualKey::ArrowDown),
            0x29 => Some(VirtualKey::Select),
            0x2A => Some(VirtualKey::Print),
            0x2B => Some(VirtualKey::Execute),
            0x2C => Some(VirtualKey::Snapshot),
            0x2D => Some(VirtualKey::Insert),
            0x2E => Some(VirtualKey::Delete),
            0x2F => Some(VirtualKey::Help),
            0x30 => Some(VirtualKey::Kp0),
            0x31 => Some(VirtualKey::Kp1),
            0x32 => Some(VirtualKey::Kp2),
            0x33 => Some(VirtualKey::Kp3),
            0x34 => Some(VirtualKey::Kp4),
            0x35 => Some(VirtualKey::Kp5),
            0x36 => Some(VirtualKey::Kp6),
            0x37 => Some(VirtualKey::Kp7),
            0x38 => Some(VirtualKey::Kp8),
            0x39 => Some(VirtualKey::Kp9),
            0x41 => Some(VirtualKey::A),
            0x42 => Some(VirtualKey::B),
            0x43 => Some(VirtualKey::C),
            0x44 => Some(VirtualKey::D),
            0x45 => Some(VirtualKey::E),
            0x46 => Some(VirtualKey::F),
            0x47 => Some(VirtualKey::G),
            0x48 => Some(VirtualKey::H),
            0x49 => Some(VirtualKey::I),
            0x4A => Some(VirtualKey::J),
            0x4B => Some(VirtualKey::K),
            0x4C => Some(VirtualKey::L),
            0x4D => Some(VirtualKey::M),
            0x4E => Some(VirtualKey::N),
            0x4F => Some(VirtualKey::O),
            0x50 => Some(VirtualKey::P),
            0x51 => Some(VirtualKey::Q),
            0x52 => Some(VirtualKey::R),
            0x53 => Some(VirtualKey::S),
            0x54 => Some(VirtualKey::T),
            0x55 => Some(VirtualKey::U),
            0x56 => Some(VirtualKey::V),
            0x57 => Some(VirtualKey::W),
            0x58 => Some(VirtualKey::X),
            0x59 => Some(VirtualKey::Y),
            0x5A => Some(VirtualKey::Z),
            0x5B => Some(VirtualKey::LeftWindows),
            0x5C => Some(VirtualKey::RightWindows),
            0x5D => Some(VirtualKey::Apps),
            0x5F => Some(VirtualKey::Sleep),
            0x60 => Some(VirtualKey::NP0),
            0x61 => Some(VirtualKey::NP1),
            0x62 => Some(VirtualKey::NP2),
            0x63 => Some(VirtualKey::NP3),
            0x64 => Some(VirtualKey::NP4),
            0x65 => Some(VirtualKey::NP5),
            0x66 => Some(VirtualKey::NP6),
            0x67 => Some(VirtualKey::NP7),
            0x68 => Some(VirtualKey::NP8),
            0x69 => Some(VirtualKey::NP9),
            0x6A => Some(VirtualKey::Multiply),
            0x6B => Some(VirtualKey::Add),
            0x6C => Some(VirtualKey::Separator),
            0x6D => Some(VirtualKey::Subtract),
            0x6E => Some(VirtualKey::Decimal),
            0x6F => Some(VirtualKey::Divide),
            0x70 => Some(VirtualKey::F1),
            0x71 => Some(VirtualKey::F2),
            0x72 => Some(VirtualKey::F3),
            0x73 => Some(VirtualKey::F4),
            0x74 => Some(VirtualKey::F5),
            0x75 => Some(VirtualKey::F6),
            0x76 => Some(VirtualKey::F7),
            0x77 => Some(VirtualKey::F8),
            0x78 => Some(VirtualKey::F9),
            0x79 => Some(VirtualKey::F10),
            0x7A => Some(VirtualKey::F11),
            0x7B => Some(VirtualKey::F12),
            0x7C => Some(VirtualKey::F13),
            0x7D => Some(VirtualKey::F14),
            0x7E => Some(VirtualKey::F15),
            0x7F => Some(VirtualKey::F16),
            0x80 => Some(VirtualKey::F17),
            0x81 => Some(VirtualKey::F18),
            0x82 => Some(VirtualKey::F19),
            0x83 => Some(VirtualKey::F20),
            0x84 => Some(VirtualKey::F21),
            0x85 => Some(VirtualKey::F22),
            0x86 => Some(VirtualKey::F23),
            0x87 => Some(VirtualKey::F24),
            0x90 => Some(VirtualKey::NumLock),
            0x91 => Some(VirtualKey::Scroll),
            0xA0 => Some(VirtualKey::LeftShift),
            0xA1 => Some(VirtualKey::RightShift),
            0xA2 => Some(VirtualKey::LeftControl),
            0xA3 => Some(VirtualKey::RightControl),
            0xA4 => Some(VirtualKey::LeftAlt),
            0xA5 => Some(VirtualKey::RightAlt),
            0xA6 => Some(VirtualKey::BrowserBack),
            0xA7 => Some(VirtualKey::BrowserForward),
            0xA8 => Some(VirtualKey::BrowserRefresh),
            0xA9 => Some(VirtualKey::BrowserStop),
            0xAA => Some(VirtualKey::BrowserSearch),
            0xAB => Some(VirtualKey::BrowserFavorites),
            0xAC => Some(VirtualKey::BrowserHome),
            0xAD => Some(VirtualKey::VolumeMute),
            0xAE => Some(VirtualKey::VolumeDown),
            0xAF => Some(VirtualKey::VolumeUp),
            0xB0 => Some(VirtualKey::MediaNextTrack),
            0xB1 => Some(VirtualKey::MediaPreviousTrack),
            0xB3 => Some(VirtualKey::MediaPlayPause),
            0xB4 => Some(VirtualKey::LaunchMail),
            0xB5 => Some(VirtualKey::LaunchMediaSelect),
            0xB6 => Some(VirtualKey::LaunchApp1),
            0xB7 => Some(VirtualKey::LaunchApp2),
            0xBA => Some(VirtualKey::Oem1),
            0xBB => Some(VirtualKey::OemPlus),
            0xBC => Some(VirtualKey::OemComma),
            0xBD => Some(VirtualKey::OemMinus),
            0xBE => Some(VirtualKey::OemPeriod),
            0xBF => Some(VirtualKey::Oem2),
            0xC0 => Some(VirtualKey::Oem3),
            0xDB => Some(VirtualKey::Oem4),
            0xDC => Some(VirtualKey::Oem5),
            0xDD => Some(VirtualKey::Oem6),
            0xDE => Some(VirtualKey::Oem7),
            0xDF => Some(VirtualKey::Oem8),
            0xE2 => Some(VirtualKey::Oem102),
            0xE5 => Some(VirtualKey::ImeProcessKey),
            0xE7 => Some(VirtualKey::Packet),
            0xF6 => Some(VirtualKey::Attention),
            0xF7 => Some(VirtualKey::CrSel),
            0xF8 => Some(VirtualKey::ExSel),
            0xF9 => Some(VirtualKey::EraseEOF),
            0xFA => Some(VirtualKey::Play),
            0xFB => Some(VirtualKey::Zoom),
            0xFD => Some(VirtualKey::PA1),
            0xFE => Some(VirtualKey::OemClear),
            _ => None,
        }
    }

    /// Returns the platform's virtual-key code of this key.
    pub fn code(&self) -> (r: u16)
        ensures
            r == self.spec_code(),
    {
        match self {
            VirtualKey::LeftMouseButton => 0x01,
            VirtualKey::Cancel => 0x03,
            VirtualKey::RightMouseButton => 0x02,
            VirtualKey::MiddleMouseButton => 0x04,
            VirtualKey::XButton1 => 0x05,
            VirtualKey::XButton2 => 0x06,
            VirtualKey::Back => 0x08,
            VirtualKey::Tab => 0x09,
            VirtualKey::Clear => 0x0C,
            VirtualKey::Enter => 0x0D,
            VirtualKey::Shift => 0x10,
            VirtualKey::Control => 0x11,
            VirtualKey::Alt => 0x12,
            VirtualKey::Pause => 0x13,
            VirtualKey::CapsLock => 0x14,
            VirtualKey::ImeKana => 0x15,
            VirtualKey::ImeOn => VK_IME_ON,
            VirtualKey::ImeJunja => 0x17,
            VirtualKey::ImeFinal => 0x18,
            VirtualKey::ImeHanja => 0x19,
            VirtualKey::ImeOff => VK_IME_OFF,
            VirtualKey::Escape => 0x1B,
            VirtualKey::Space => 0x20,
            VirtualKey::PageUp => 0x21,
            VirtualKey::PageDown => 0x22,
            VirtualKey::End => 0x23,
            VirtualKey::Home => 0x24,
            VirtualKey::ArrowLeft => 0x25,
            VirtualKey::ArrowUp => 0x26,
            VirtualKey::ArrowRight => 0x27,
            VirtualKey::ArrowDown => 0x28,
            VirtualKey::Select => 0x29,
            VirtualKey::Print => 0x2A,
            VirtualKey::Execute => 0x2B,
            VirtualKey::Snapshot => 0x2C,
            VirtualKey::Insert => 0x2D,
            VirtualKey::Delete => 0x2E,
            VirtualKey::Help => 0x2F,
            VirtualKey::Kp0 => 0x30,
            VirtualKey::Kp1 => 0x31,
            VirtualKey::Kp2 => 0x32,
            VirtualKey::Kp3 => 0x33,
            VirtualKey::Kp4 => 0x34,
            VirtualKey::Kp5 => 0x35,
            VirtualKey::Kp6 => 0x36,
            VirtualKey::Kp7 => 0x37,
            VirtualKey::Kp8 => 0x38,
            VirtualKey::Kp9 => 0x39,
            VirtualKey::A => 0x41,
            VirtualKey::B => 0x42,
            VirtualKey::C => 0x43,
            VirtualKey::D => 0x44,
            VirtualKey::E => 0x45,
            VirtualKey::F => 0x46,
            VirtualKey::G => 0x47,
            VirtualKey::H => 0x48,
            VirtualKey::I => 0x49,
            VirtualKey::J => 0x4A,
            VirtualKey::K => 0x4B,
            VirtualKey::L => 0x4C,
            VirtualKey::M => 0x4D,
            VirtualKey::N => 0x4E,
            VirtualKey::O => 0x4F,
            VirtualKey::P => 0x50,
            VirtualKey::Q => 0x51,
            VirtualKey::R => 0x52,
            VirtualKey::S => 0x53,
            VirtualKey::T => 0x54,
            VirtualKey::U => 0x55,
            VirtualKey::V => 0x56,
            VirtualKey::W => 0x57,
            VirtualKey::X => 0x58,
            VirtualKey::Y => 0x59,
            VirtualKey::Z => 0x5A,
            VirtualKey::LeftWindows => 0x5B,
            VirtualKey::RightWindows => 0x5C,
            VirtualKey::Apps => 0x5D,
            VirtualKey::Sleep => 0x5F,
            VirtualKey::NP0 => 0x60,
            VirtualKey::NP1 => 0x61,
            VirtualKey::NP2 => 0x62,
            VirtualKey::NP3 => 0x63,
            VirtualKey::NP4 => 0x64,
            VirtualKey::NP5 => 0x65,
            VirtualKey::NP6 => 0x66,
            VirtualKey::NP7 => 0x67,
            VirtualKey::NP8 => 0x68,
            VirtualKey::NP9 => 0x69,
            VirtualKey::Multiply => 0x6A,
            VirtualKey::Add => 0x6B,
            VirtualKey::Separator => 0x6C,
            VirtualKey::Subtract => 0x6D,
            VirtualKey::Decimal => 0x6E,
            VirtualKey::Divide => 0x6F,
            VirtualKey::F1 => 0x70,
            VirtualKey::F2 => 0x71,
            VirtualKey::F3 => 0x72,
            VirtualKey::F4 => 0x73,
            VirtualKey::F5 => 0x74,
            VirtualKey::F6 => 0x75,
            VirtualKey::F7 => 0x76,
            VirtualKey::F8 => 0x77,
            VirtualKey::F9 => 0x78,
            VirtualKey::F10 => 0x79,
            VirtualKey::F11 => 0x7A,
            VirtualKey::F12 => 0x7B,
            VirtualKey::F13 => 0x7C,
            VirtualKey::F14 => 0x7D,
            VirtualKey::F15 => 0x7E,
            VirtualKey::F16 => 0x7F,
            VirtualKey::F17 => 0x80,
            VirtualKey::F18 => 0x81,
            VirtualKey::F19 => 0x82,
            VirtualKey::F20 => 0x83,
            VirtualKey::F21 => 0x84,
            VirtualKey::F22 => 0x85,
            VirtualKey::F23 => 0x86,
            VirtualKey::F24 => 0x87,
            VirtualKey::NumLock => 0x90,
            VirtualKey::Scroll => 0x91,
            VirtualKey::LeftShift => 0xA0,
            VirtualKey::RightShift => 0xA1,
            VirtualKey::LeftControl => 0xA2,
            VirtualKey::RightControl => 0xA3,
            VirtualKey::LeftAlt => 0xA4,
            VirtualKey::RightAlt => 0xA5,
            VirtualKey::BrowserBack => 0xA6,
            VirtualKey::BrowserForward => 0xA7,
            VirtualKey::BrowserRefresh => 0xA8,
            VirtualKey::BrowserStop => 0xA9,
            VirtualKey::BrowserSearch => 0xAA,
            VirtualKey::BrowserFavorites => 0xAB,
            VirtualKey::BrowserHome => 0xAC,
            VirtualKey::VolumeMute => 0xAD,
            VirtualKey::VolumeDown => 0xAE,
            VirtualKey::VolumeUp => 0xAF,
            VirtualKey::MediaNextTrack => 0xB0,
            VirtualKey::MediaPreviousTrack => 0xB1,
            VirtualKey::MediaPlayPause => 0xB3,
            VirtualKey::LaunchMail => 0xB4,
            VirtualKey::LaunchMediaSelect => 0xB5,
            VirtualKey::LaunchApp1 => 0xB6,
            VirtualKey::LaunchApp2 => 0xB7,
            VirtualKey::Oem1 => 0xBA,
            VirtualKey::OemPlus => 0xBB,
            VirtualKey::OemComma => 0xBC,
            VirtualKey::OemMinus => 0xBD,
            VirtualKey::OemPeriod => 0xBE,
            VirtualKey::Oem2 => 0xBF,
            VirtualKey::Oem3 => 0xC0,
            VirtualKey::Oem4 => 0xDB,
            VirtualKey::Oem5 => 0xDC,
            VirtualKey::Oem6 => 0xDD,
            VirtualKey::Oem7 => 0xDE,
            VirtualKey::Oem8 => 0xDF,
            VirtualKey::Oem102 => 0xE2,
            VirtualKey::ImeProcessKey => 0xE5,
            VirtualKey::Packet => 0xE7,
            VirtualKey::Attention => 0xF6,
            VirtualKey::CrSel => 0xF7,
            VirtualKey::ExSel => 0xF8,
            VirtualKey::EraseEOF => 0xF9,
            VirtualKey::Play => 0xFA,
            VirtualKey::Zoom => 0xFB,
            VirtualKey::PA1 => 0xFD,
            VirtualKey::OemClear => 0xFE,
        }
    }

    /// Looks up the key whose virtual-key code is `code`; `None` where no key
    /// of the catalog has that code.
    pub fn try_from_code(code: u32) -> (r: Option<VirtualKey>)
        ensures
            r == VirtualKey::spec_from_code(code),
            r matches Some(k) ==> k.spec_code() as u32 == code,
            r is None ==> forall|k: VirtualKey| #[trigger] k.spec_code() as u32 != code,
    {
        proof {
            lemma_from_code_inverts_code(code);
        }
        match code {
            0x01 => Some(VirtualKey::LeftMouseButton),
            0x03 => Some(VirtualKey::Cancel),
            0x02 => Some(VirtualKey::RightMouseButton),
            0x04 => Some(VirtualKey::MiddleMouseButton),
            0x05 => Some(VirtualKey::XButton1),
            0x06 => Some(VirtualKey::XButton2),
            0x08 => Some(VirtualKey::Back),
            0x09 => Some(VirtualKey::Tab),
            0x0C => Some(VirtualKey::Clear),
            0x0D => Some(VirtualKey::Enter),
            0x10 => Some(VirtualKey::Shift),
            0x11 => Some(VirtualKey::Control),
            0x12 => Some(VirtualKey::Alt),
            0x13 => Some(VirtualKey::Pause),
            0x14 => Some(VirtualKey::CapsLock),
            0x15 => Some(VirtualKey::ImeKana),
            0x16 => Some(VirtualKey::ImeOn),
            0x17 => Some(VirtualKey::ImeJunja),
            0x18 => Some(VirtualKey::ImeFinal),
            0x19 => Some(VirtualKey::ImeHanja),
            0x1A => Some(VirtualKey::ImeOff),
            0x1B => Some(VirtualKey::Escape),
            0x20 => Some(VirtualKey::Space),
            0x21 => Some(VirtualKey::PageUp),
            0x22 => Some(VirtualKey::PageDown),
            0x23 => Some(VirtualKey::End),
            0x24 => Some(VirtualKey::Home),
            0x25 => Some(VirtualKey::ArrowLeft),
            0x26 => Some(VirtualKey::ArrowUp),
            0x27 => Some(VirtualKey::ArrowRight),
            0x28 => Some(VirtualKey::ArrowDown),
            0x29 => Some(VirtualKey::Select),
            0x2A => Some(VirtualKey::Print),
            0x2B => Some(VirtualKey::Execute),
            0x2C => Some(VirtualKey::Snapshot),
            0x2D => Some(VirtualKey::Insert),
            0x2E => Some(VirtualKey::Delete),
            0x2F => Some(VirtualKey::Help),
            0x30 => Some(VirtualKey::Kp0),
            0x31 => Some(VirtualKey::Kp1),
            0x32 => Some(VirtualKey::Kp2),
            0x33 => Some(VirtualKey::Kp3),
            0x34 => Some(VirtualKey::Kp4),
            0x35 => Some(VirtualKey::Kp5),
            0x36 => Some(VirtualKey::Kp6),
            0x37 => Some(VirtualKey::Kp7),
            0x38 => Some(VirtualKey::Kp8),
            0x39 => Some(VirtualKey::Kp9),
            0x41 => Some(VirtualKey::A),
            0x42 => Some(VirtualKey::B),
            0x43 => Some(VirtualKey::C),
            0x44 => Some(VirtualKey::D),
            0x45 => Some(VirtualKey::E),
            0x46 => Some(VirtualKey::F),
            0x47 => Some(VirtualKey::G),
            0x48 => Some(VirtualKey::H),
            0x49 => Some(VirtualKey::I),
            0x4A => Some(VirtualKey::J),
            0x4B => Some(VirtualKey::K),
            0x4C => Some(VirtualKey::L),
            0x4D => Some(VirtualKey::M),
            0x4E => Some(VirtualKey::N),
            0x4F => Some(VirtualKey::O),
            0x50 => Some(VirtualKey::P),
            0x51 => Some(VirtualKey::Q),
            0x52 => Some(VirtualKey::R),
            0x53 => Some(VirtualKey::S),
            0x54 => Some(VirtualKey::T),
            0x55 => Some(VirtualKey::U),
            0x56 => Some(VirtualKey::V),
            0x57 => Some(VirtualKey::W),
            0x58 => Some(VirtualKey::X),
            0x59 => Some(VirtualKey::Y),
            0x5A => Some(VirtualKey::Z),
            0x5B => Some(VirtualKey::LeftWindows),
            0x5C => Some(VirtualKey::RightWindows),
            0x5D => Some(VirtualKey::Apps),
            0x5F => Some(VirtualKey::Sleep),
            0x60 => Some(VirtualKey::NP0),
            0x61 => Some(VirtualKey::NP1),
            0x62 => Some(VirtualKey::NP2),
            0x63 => Some(VirtualKey::NP3),
            0x64 => Some(VirtualKey::NP4),
            0x65 => Some(VirtualKey::NP5),
            0x66 => Some(VirtualKey::NP6),
            0x67 => Some(VirtualKey::NP7),
            0x68 => Some(VirtualKey::NP8),
            0x69 => Some(VirtualKey::NP9),
            0x6A => Some(VirtualKey::Multiply),
            0x6B => Some(VirtualKey::Add),
            0x6C => Some(VirtualKey::Separator),
            0x6D => Some(VirtualKey::Subtract),
            0x6E => Some(VirtualKey::Decimal),
            0x6F => Some(VirtualKey::Divide),
            0x70 => Some(VirtualKey::F1),
            0x71 => Some(VirtualKey::F2),
            0x72 => Some(VirtualKey::F3),
            0x73 => Some(VirtualKey::F4),
            0x74 => Some(VirtualKey::F5),
            0x75 => Some(VirtualKey::F6),
            0x76 => Some(VirtualKey::F7),
            0x77 => Some(VirtualKey::F8),
            0x78 => Some(VirtualKey::F9),
            0x79 => Some(VirtualKey::F10),
            0x7A => Some(VirtualKey::F11),
            0x7B => Some(VirtualKey::F12),
            0x7C => Some(VirtualKey::F13),
            0x7D => Some(VirtualKey::F14),
            0x7E => Some(VirtualKey::F15),
            0x7F => Some(VirtualKey::F16),
            0x80 => Some(VirtualKey::F17),
            0x81 => Some(VirtualKey::F18),
            0x82 => Some(VirtualKey::F19),
            0x83 => Some(VirtualKey::F20),
            0x84 => Some(VirtualKey::F21),
            0x85 => Some(VirtualKey::F22),
            0x86 => Some(VirtualKey::F23),
            0x87 => Some(VirtualKey::F24),
            0x90 => Some(VirtualKey::NumLock),
            0x91 => Some(VirtualKey::Scroll),
            0xA0 => Some(VirtualKey::LeftShift),
            0xA1 => Some(VirtualKey::RightShift),
            0xA2 => Some(VirtualKey::LeftControl),
            0xA3 => Some(VirtualKey::RightControl),
            0xA4 => Some(VirtualKey::LeftAlt),
            0xA5 => Some(VirtualKey::RightAlt),
            0xA6 => Some(VirtualKey::BrowserBack),
            0xA7 => Some(VirtualKey::BrowserForward),
            0xA8 => Some(VirtualKey::BrowserRefresh),
            0xA9 => Some(VirtualKey::BrowserStop),
            0xAA => Some(VirtualKey::BrowserSearch),
            0xAB => Some(VirtualKey::BrowserFavorites),
            0xAC => Some(VirtualKey::BrowserHome),
            0xAD => Some(VirtualKey::VolumeMute),
            0xAE => Some(VirtualKey::VolumeDown),
            0xAF => Some(VirtualKey::VolumeUp),
            0xB0 => Some(VirtualKey::MediaNextTrack),
            0xB1 => Some(VirtualKey::MediaPreviousTrack),
            0xB3 => Some(VirtualKey::MediaPlayPause),
            0xB4 => Some(VirtualKey::LaunchMail),
            0xB5 => Some(VirtualKey::LaunchMediaSelect),
            0xB6 => Some(VirtualKey::LaunchApp1),
            0xB7 => Some(VirtualKey::LaunchApp2),
            0xBA => Some(VirtualKey::Oem1),
            0xBB => Some(VirtualKey::OemPlus),
            0xBC => Some(VirtualKey::OemComma),
            0xBD => Some(VirtualKey::OemMinus),
            0xBE => Some(VirtualKey::OemPeriod),
            0xBF => Some(VirtualKey::Oem2),
            0xC0 => Some(VirtualKey::Oem3),
            0xDB => Some(VirtualKey::Oem4),
            0xDC => Some(VirtualKey::Oem5),
            0xDD => Some(VirtualKey::Oem6),
            0xDE => Some(VirtualKey::Oem7),
            0xDF => Some(VirtualKey::Oem8),
            0xE2 => Some(VirtualKey::Oem102),
            0xE5 => Some(VirtualKey::ImeProcessKey),
            0xE7 => Some(VirtualKey::Packet),
            0xF6 => Some(VirtualKey::Attention),
            0xF7 => Some(VirtualKey::CrSel),
            0xF8 => Some(VirtualKey::ExSel),
            0xF9 => Some(VirtualKey::EraseEOF),
            0xFA => Some(VirtualKey::Play),
            0xFB => Some(VirtualKey::Zoom),
            0xFD => Some(VirtualKey::PA1),
            0xFE => Some(VirtualKey::OemClear),
            _ => None,
        }
    }

    /// Reinterprets a raw virtual-key code as a key. The caller must already
    /// know that `code` belongs to the catalog; where it may not, use
    /// `try_from_code`.
    pub fn from_code(code: u32) -> (r: VirtualKey)
        requires
            VirtualKey::is_code(code),
        ensures
            r.spec_code() as u32 == code,
            Some(r) == VirtualKey::spec_from_code(code),
    {
        match VirtualKey::try_from_code(code) {
            Some(k) => k,
            None => VirtualKey::LeftMouseButton,
        }
    }
}

/// Looking a key's own code up again gives back that key: no two keys of the
/// catalog share a code.
pub proof fn lemma_code_round_trip(k: VirtualKey)
    ensures
        VirtualKey::spec_from_code(k.spec_code() as u32) == Some(k),
{
}

/// The lookup by code inverts `spec_code`: a key that it finds has the code
/// asked for, and where it finds none, no key has that code.
pub proof fn lemma_from_code_inverts_code(code: u32)
    ensures
        VirtualKey::spec_from_code(code) matches Some(k) ==> k.spec_code() as u32 == code,
        VirtualKey::spec_from_code(code) is None ==> forall|k: VirtualKey|
            #[trigger] k.spec_code() as u32 != code,
{
    assert forall|k: VirtualKey| #[trigger] k.spec_code() as u32 == code implies
        VirtualKey::spec_from_code(code) == Some(k) by {
        lemma_code_round_trip(k);
    }
}

} // verus!
