//! X11 key symbols and modifier flags.
use vstd::prelude::*;

verus! {

/// Modifier flag of Shift.
pub const MOD_SHIFT: u16 = 0x1;

/// Modifier flag of Control.
pub const MOD_CONTROL: u16 = 0x4;

/// Modifier flag of Alt, which X11 commonly maps to Mod1.
pub const MOD_ALT: u16 = 0x8;

/// Return.
pub const KEY_ENTER: u32 = 0xff0d;

/// Enter on the numeric keypad.
pub const KEY_KP_ENTER: u32 = 0xff8d;

/// Backspace.
pub const KEY_BACKSPACE: u32 = 0xff08;

/// Delete.
pub const KEY_DELETE: u32 = 0xffff;

/// Escape.
pub const KEY_ESCAPE: u32 = 0xff1b;

/// The letter `u`, which clears the input together with Control and Alt.
pub const KEY_U: u32 = 0x75;

/// First printable ASCII character, the space.
pub const ASCII_PRINTABLE_START: u32 = 0x20;

/// One past the last printable ASCII character, the tilde.
pub const ASCII_PRINTABLE_END: u32 = 0x7f;

/// Whether the modifier of `flag` is held in `state`.
pub open spec fn held(state: u16, flag: u16) -> bool {
    state & flag != 0
}

/// Whether Control and Alt are held while the key of `expected` is pressed.
pub open spec fn ctrl_alt_key(state: u16, keysym: u32, expected: u32) -> bool {
    held(state, MOD_CONTROL) && held(state, MOD_ALT) && keysym == expected
}

/// Whether a key symbol is a printable ASCII character.
pub open spec fn printable_ascii(keysym: u32) -> bool {
    0x20 <= keysym <= 0x7e
}

/// The key symbol that a key stands for: its second symbol while Shift is held
/// and it has one, else its first, and 0 for a key without symbols.
pub open spec fn key_symbol(mapping: Seq<u32>, state: u16) -> u32 {
    if mapping.len() == 0 {
        0
    } else if held(state, MOD_SHIFT) && mapping.len() > 1 {
        mapping[1]
    } else {
        mapping[0]
    }
}

/// Checks if Ctrl+Alt+`expected_keysym` was pressed.
pub fn is_ctrl_alt_key(state: u16, keysym: u32, expected_keysym: u32) -> (res: bool)
    ensures
        res == ctrl_alt_key(state, keysym, expected_keysym),
{
    state & MOD_CONTROL != 0 && state & MOD_ALT != 0 && keysym == expected_keysym
}

/// Checks if a key symbol is a printable ASCII character.
pub fn is_printable_ascii(keysym: u32) -> (res: bool)
    ensures
        res == printable_ascii(keysym),
{
    ASCII_PRINTABLE_START <= keysym && keysym < ASCII_PRINTABLE_END
}

/// Resolves a pressed key to its symbol, from the symbols that the keyboard
/// mapping lists for it. Only Shift is honoured.
pub fn keycode_to_keysym(mapping: &Vec<u32>, state: u16) -> (res: u32)
    ensures
        res == key_symbol(mapping@, state),
{
    if mapping.len() == 0 {
        return 0;
    }
    let shift_pressed = state & MOD_SHIFT != 0;
    if shift_pressed && mapping.len() > 1 {
        mapping[1]
    } else {
        mapping[0]
    }
}

} // verus!
