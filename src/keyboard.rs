use vstd::prelude::*;

use crate::virtual_key::VirtualKey;

verus! {

/// Discriminant of an input record that carries a keyboard event.
pub const INPUT_KEYBOARD: u32 = 1;

/// Flag bit: the key is being released (without it, pressed).
pub const KEYEVENTF_KEYUP: u32 = 0x0002;

/// Flag bit: the scan code holds a UTF-16 code unit to type, and the
/// virtual-key code is unused.
pub const KEYEVENTF_UNICODE: u32 = 0x0004;

/// The keyboard payload of an input record.
#[derive(Debug, Clone, Copy, PartialEq, Eq, Structural)]
pub struct KeyboardInput {
    /// Virtual-key code, 0 where unused.
    pub vk: u16,
    /// Hardware scan code, or a UTF-16 code unit under `KEYEVENTF_UNICODE`;
    /// 0 where unused.
    pub scan: u16,
    /// Bit mask of `KEYEVENTF_*` flags.
    pub flags: u32,
    /// Time stamp; always 0, the system fills it in.
    pub time: u32,
    /// Extra information attached to the event; always 0.
    pub extra_info: usize,
}

/// An input record as the platform's injection call takes it: a discriminant
/// and the payload that it selects. Only keyboard records are built here, and
/// every other byte of the native record is zero.
#[derive(Debug, Clone, Copy, PartialEq, Eq, Structural)]
pub struct Input {
    /// Which kind of payload the record carries (`INPUT_KEYBOARD`).
    pub kind: u32,
    /// The keyboard payload.
    pub ki: KeyboardInput,
}

/// A keyboard action as a caller means it, before translation.
#[derive(Debug, Clone, Copy, PartialEq, Eq, Structural)]
pub enum KeyboardEvent {
    /// Release of a key.
    VirtualKeyUp(VirtualKey),
    /// Press of a key.
    VirtualKeyDown(VirtualKey),
    /// A character typed independently of the keyboard layout.
    Literal(char),
}

/// The keyboard record with the given virtual-key code, scan code and flags,
/// every other field zero.
pub open spec fn spec_keyboard_input(vk: u16, scan: u16, flags: u32) -> Input {
    Input {
        kind: INPUT_KEYBOARD,
        ki: KeyboardInput { vk, scan, flags, time: 0, extra_info: 0 },
    }
}

/// The UTF-16 code unit sent for a character: its scalar value cut to its low
/// 16 bits.
pub open spec fn code_unit(c: char) -> u16 {
    c as u16
}

/// Builds a keyboard input record from a virtual-key code, a scan code and a
/// flag mask; the time stamp and the extra information are zero.
pub fn get_keyboard_input(vk: u16, scan: u16, dw_flags: u32) -> (r: Input)
    ensures
        r == spec_keyboard_input(vk, scan, dw_flags),
{
    Input {
        kind: INPUT_KEYBOARD,
        ki: KeyboardInput { vk, scan, flags: dw_flags, time: 0, extra_info: 0 },
    }
}

impl VirtualKey {
    /// The record that sends this key with the given flags.
    pub fn into_key_input(self, flags: u32) -> (r: Input)
        ensures
            r == spec_keyboard_input(self.spec_code(), 0, flags),
    {
        get_keyboard_input(self.code(), 0, flags)
    }
}

impl KeyboardEvent {
    /// The record that this action translates to.
    pub open spec fn spec_input(self) -> Input {
        match self {
            KeyboardEvent::VirtualKeyUp(k) => spec_keyboard_input(k.spec_code(), 0, KEYEVENTF_KEYUP),
            KeyboardEvent::VirtualKeyDown(k) => spec_keyboard_input(k.spec_code(), 0, 0),
            KeyboardEvent::Literal(c) => spec_keyboard_input(0, code_unit(c), KEYEVENTF_UNICODE),
        }
    }

    /// Translates this action into the record that the injection call takes:
    /// a press carries the key's code and no flag, a release the key's code
    /// and `KEYEVENTF_KEYUP`, and a literal character its code unit as the scan
    /// code with `KEYEVENTF_UNICODE`.
    pub fn into_input(self) -> (r: Input)
        ensures
            r == self.spec_input(),
    {
        match self {
            KeyboardEvent::VirtualKeyUp(k) => k.into_key_input(KEYEVENTF_KEYUP),
            KeyboardEvent::VirtualKeyDown(k) => k.into_key_input(0),
            KeyboardEvent::Literal(c) => get_keyboard_input(0, c as u16, KEYEVENTF_UNICODE),
        }
    }
}

/// Every key of the catalog has a nonzero code, so a record with a zero
/// virtual-key code never names a key.
pub proof fn lemma_key_code_nonzero(k: VirtualKey)
    ensures
        k.spec_code() != 0,
{
}

/// Pressing and releasing a key give records that differ in the flags alone:
/// both carry the key's code and a zero scan code, and only the release has
/// `KEYEVENTF_KEYUP`.
pub proof fn lemma_press_release_differ_in_flags(k: VirtualKey)
    ensures
        ({
            let down = KeyboardEvent::VirtualKeyDown(k).spec_input();
            let up = KeyboardEvent::VirtualKeyUp(k).spec_input();
            &&& down.kind == up.kind
            &&& down.ki.vk == k.spec_code() && up.ki.vk == k.spec_code()
            &&& down.ki.scan == 0 && up.ki.scan == 0
            &&& down.ki.time == up.ki.time
            &&& down.ki.extra_info == up.ki.extra_info
            &&& down.ki.flags == 0 && up.ki.flags == KEYEVENTF_KEYUP
            &&& down.ki.flags != up.ki.flags
        }),
{
}

/// A character whose scalar value fits in one UTF-16 code unit is sent as
/// that value in the scan code, with no virtual-key code and with the Unicode
/// flag set.
pub proof fn lemma_literal_carries_code_unit(c: char)
    requires
        (c as u32) < 0x10000,
    ensures
        ({
            let i = KeyboardEvent::Literal(c).spec_input();
            &&& i.ki.scan as u32 == c as u32
            &&& i.ki.vk == 0
            &&& i.ki.flags == KEYEVENTF_UNICODE
            &&& i.ki.flags & KEYEVENTF_UNICODE != 0
        }),
{
    assert(KEYEVENTF_UNICODE & KEYEVENTF_UNICODE != 0) by (bit_vector);
}

/// A record names a key or carries a literal character, never both: the
/// Unicode flag is set exactly for literal characters, and exactly those
/// records have a zero virtual-key code.
pub proof fn lemma_named_key_or_literal(e: KeyboardEvent)
    ensures
        (e.spec_input().ki.flags & KEYEVENTF_UNICODE != 0) == (e is Literal),
        (e.spec_input().ki.vk == 0) == (e is Literal),
{
    assert(0u32 & KEYEVENTF_UNICODE == 0) by (bit_vector);
    assert(KEYEVENTF_KEYUP & KEYEVENTF_UNICODE == 0) by (bit_vector);
    assert(KEYEVENTF_UNICODE & KEYEVENTF_UNICODE != 0) by (bit_vector);
    match e {
        KeyboardEvent::VirtualKeyUp(k) => lemma_key_code_nonzero(k),
        KeyboardEvent::VirtualKeyDown(k) => lemma_key_code_nonzero(k),
        KeyboardEvent::Literal(_) => {},
    }
}

/// Translating equal actions gives equal records, field for field.
pub proof fn lemma_translation_deterministic(a: KeyboardEvent, b: KeyboardEvent)
    requires
        a == b,
    ensures
        a.spec_input() == b.spec_input(),
{
}

/// Every field that an action does not set is zero: the time stamp, the extra
/// information, the scan code of a key and the virtual-key code of a literal
/// character; and the record is always a keyboard record.
pub proof fn lemma_unset_fields_zero(e: KeyboardEvent)
    ensures
        e.spec_input().kind == INPUT_KEYBOARD,
        e.spec_input().ki.time == 0,
        e.spec_input().ki.extra_info == 0,
        e is Literal ==> e.spec_input().ki.vk == 0,
        !(e is Literal) ==> e.spec_input().ki.scan == 0,
{
}

} // verus!
