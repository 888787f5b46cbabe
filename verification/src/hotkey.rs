//! Reading a keyboard shortcut out of the preferences of the dictation
//! application.

use crate::json::{json_u64_at, read_u64_member};
use crate::text::optional_text;
use vstd::prelude::*;
use vstd::string::StringExecFns;

verus! {

/// The modifier flag of the control key.
pub const CONTROL_FLAG: u32 = 4096;

/// The modifier flag of the option key.
pub const OPTION_FLAG: u32 = 2048;

/// The modifier flag of the shift key.
pub const SHIFT_FLAG: u32 = 512;

/// The modifier flag of the command key.
pub const COMMAND_FLAG: u32 = 256;

/// The name of the key with a given code, for the keys that have one.
pub open spec fn key_name_of(code: u32) -> Option<Seq<char>> {
    if code == 0 {
        Some("A"@)
    } else if code == 1 {
        Some("S"@)
    } else if code == 2 {
        Some("D"@)
    } else if code == 3 {
        Some("F"@)
    } else if code == 4 {
        Some("H"@)
    } else if code == 5 {
        Some("G"@)
    } else if code == 6 {
        Some("Z"@)
    } else if code == 7 {
        Some("X"@)
    } else if code == 8 {
        Some("C"@)
    } else if code == 9 {
        Some("V"@)
    } else if code == 11 {
        Some("B"@)
    } else if code == 12 {
        Some("Q"@)
    } else if code == 13 {
        Some("W"@)
    } else if code == 14 {
        Some("E"@)
    } else if code == 15 {
        Some("R"@)
    } else if code == 16 {
        Some("Y"@)
    } else if code == 17 {
        Some("T"@)
    } else if code == 18 {
        Some("1"@)
    } else if code == 19 {
        Some("2"@)
    } else if code == 20 {
        Some("3"@)
    } else if code == 21 {
        Some("4"@)
    } else if code == 22 {
        Some("6"@)
    } else if code == 23 {
        Some("5"@)
    } else if code == 24 {
        Some("="@)
    } else if code == 25 {
        Some("9"@)
    } else if code == 26 {
        Some("7"@)
    } else if code == 27 {
        Some("-"@)
    } else if code == 28 {
        Some("8"@)
    } else if code == 29 {
        Some("0"@)
    } else if code == 31 {
        Some("O"@)
    } else if code == 32 {
        Some("U"@)
    } else if code == 34 {
        Some("I"@)
    } else if code == 35 {
        Some("P"@)
    } else if code == 37 {
        Some("L"@)
    } else if code == 38 {
        Some("J"@)
    } else if code == 40 {
        Some("K"@)
    } else if code == 45 {
        Some("N"@)
    } else if code == 46 {
        Some("M"@)
    } else if code == 49 {
        Some("Space"@)
    } else if code == 53 {
        Some("Escape"@)
    } else if code == 122 {
        Some("F1"@)
    } else if code == 120 {
        Some("F2"@)
    } else if code == 99 {
        Some("F3"@)
    } else if code == 118 {
        Some("F4"@)
    } else if code == 96 {
        Some("F5"@)
    } else if code == 97 {
        Some("F6"@)
    } else if code == 98 {
        Some("F7"@)
    } else if code == 100 {
        Some("F8"@)
    } else if code == 101 {
        Some("F9"@)
    } else if code == 109 {
        Some("F10"@)
    } else if code == 103 {
        Some("F11"@)
    } else if code == 111 {
        Some("F12"@)
    } else {
        None
    }
}

/// The name of the key with the code `code`, if it has one.
pub fn key_name(code: u32) -> (name: Option<&'static str>)
    ensures
        match name {
            Some(text) => key_name_of(code) == Some(text@),
            None => key_name_of(code) is None,
        },
{
    match code {
        0 => Some("A"),
        1 => Some("S"),
        2 => Some("D"),
        3 => Some("F"),
        4 => Some("H"),
        5 => Some("G"),
        6 => Some("Z"),
        7 => Some("X"),
        8 => Some("C"),
        9 => Some("V"),
        11 => Some("B"),
        12 => Some("Q"),
        13 => Some("W"),
        14 => Some("E"),
        15 => Some("R"),
        16 => Some("Y"),
        17 => Some("T"),
        18 => Some("1"),
        19 => Some("2"),
        20 => Some("3"),
        21 => Some("4"),
        22 => Some("6"),
        23 => Some("5"),
        24 => Some("="),
        25 => Some("9"),
        26 => Some("7"),
        27 => Some("-"),
        28 => Some("8"),
        29 => Some("0"),
        31 => Some("O"),
        32 => Some("U"),
        34 => Some("I"),
        35 => Some("P"),
        37 => Some("L"),
        38 => Some("J"),
        40 => Some("K"),
        45 => Some("N"),
        46 => Some("M"),
        49 => Some("Space"),
        53 => Some("Escape"),
        122 => Some("F1"),
        120 => Some("F2"),
        99 => Some("F3"),
        118 => Some("F4"),
        96 => Some("F5"),
        97 => Some("F6"),
        98 => Some("F7"),
        100 => Some("F8"),
        101 => Some("F9"),
        109 => Some("F10"),
        103 => Some("F11"),
        111 => Some("F12"),
        _ => None,
    }
}

/// The signs of the modifier keys whose flags are set, in the customary
/// order: control, option, shift, command.
pub open spec fn modifier_signs(modifiers: u32) -> Seq<char> {
    (if modifiers & CONTROL_FLAG != 0 {
        "\u{2303}"@
    } else {
        Seq::empty()
    }) + (if modifiers & OPTION_FLAG != 0 {
        "\u{2325}"@
    } else {
        Seq::empty()
    }) + (if modifiers & SHIFT_FLAG != 0 {
        "\u{21e7}"@
    } else {
        Seq::empty()
    }) + (if modifiers & COMMAND_FLAG != 0 {
        "\u{2318}"@
    } else {
        Seq::empty()
    })
}

/// The low 32 bits of a number.
pub open spec fn low_half(n: u64) -> u32 {
    (n % 0x1_0000_0000) as u32
}

/// The readable form of the shortcut with the key `key_code` and the
/// modifier flags `modifiers`, of each of which the low 32 bits count: the
/// signs of the modifiers and then the name of the key. There is none
/// where either number is missing or the key has no name.
pub open spec fn hotkey_label(key_code: Option<u64>, modifiers: Option<u64>) -> Option<Seq<char>> {
    if key_code is Some && modifiers is Some && key_name_of(low_half(key_code->0)) is Some {
        Some(modifier_signs(low_half(modifiers->0)) + key_name_of(low_half(key_code->0))->0)
    } else {
        None
    }
}

/// Writes a shortcut in its readable form, from the key code and the
/// modifier flags read out of the preferences.
pub fn describe_hotkey(key_code: Option<u64>, modifiers: Option<u64>) -> (label: Option<String>)
    ensures
        optional_text(label) == hotkey_label(key_code, modifiers),
{
    let code = match key_code {
        Some(code) => code,
        None => {
            return None;
        },
    };
    let flags = match modifiers {
        Some(flags) => flags,
        None => {
            return None;
        },
    };
    let wide_code: u64 = code;
    let wide_flags: u64 = flags;
    let code: u32 = #[verifier::truncate]
    (wide_code as u32);
    let flags: u32 = #[verifier::truncate]
    (wide_flags as u32);
    assert(code == (wide_code % 0x1_0000_0000) as u32) by (bit_vector)
        requires
            code == wide_code as u32,
    ;
    assert(flags == (wide_flags % 0x1_0000_0000) as u32) by (bit_vector)
        requires
            flags == wide_flags as u32,
    ;
    let name = match key_name(code) {
        Some(name) => name,
        None => {
            return None;
        },
    };
    let mut label = String::from_str("");
    proof {
        reveal_strlit("");
        assert(label@ =~= Seq::<char>::empty());
    }
    if flags & CONTROL_FLAG != 0 {
        label.append("\u{2303}");
    }
    if flags & OPTION_FLAG != 0 {
        label.append("\u{2325}");
    }
    if flags & SHIFT_FLAG != 0 {
        label.append("\u{21e7}");
    }
    if flags & COMMAND_FLAG != 0 {
        label.append("\u{2318}");
    }
    assert(label@ =~= modifier_signs(flags));
    label.append(name);
    Some(label)
}

/// Decodes the shortcut that the dictation application stores as a JSON
/// object with the members `carbonKeyCode` and `carbonModifiers`.
pub fn decode_superwhisper_hotkey(json: &str) -> (label: Option<String>)
    ensures
        optional_text(label) == hotkey_label(
            json_u64_at(json@, "carbonKeyCode"@),
            json_u64_at(json@, "carbonModifiers"@),
        ),
{
    let key_code = read_u64_member(json, "carbonKeyCode");
    let modifiers = read_u64_member(json, "carbonModifiers");
    describe_hotkey(key_code, modifiers)
}

} // verus!
