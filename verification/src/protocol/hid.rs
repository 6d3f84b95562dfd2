//! Key and mouse-button codes carried in input packets.
use vstd::prelude::*;
use vstd::string::StringSliceAdditionalSpecFns;
use crate::text::{all_ascii, ascii_lower, spec_to_lowercase, str_eq, to_lowercase};

verus! {

pub const KEY_A: u16 = 0x04;
pub const KEY_B: u16 = 0x05;
pub const KEY_C: u16 = 0x06;
pub const KEY_D: u16 = 0x07;
pub const KEY_E: u16 = 0x08;
pub const KEY_F: u16 = 0x09;
pub const KEY_G: u16 = 0x0A;
pub const KEY_H: u16 = 0x0B;
pub const KEY_I: u16 = 0x0C;
pub const KEY_J: u16 = 0x0D;
pub const KEY_K: u16 = 0x0E;
pub const KEY_L: u16 = 0x0F;
pub const KEY_M: u16 = 0x10;
pub const KEY_N: u16 = 0x11;
pub const KEY_O: u16 = 0x12;
pub const KEY_P: u16 = 0x13;
pub const KEY_Q: u16 = 0x14;
pub const KEY_R: u16 = 0x15;
pub const KEY_S: u16 = 0x16;
pub const KEY_T: u16 = 0x17;
pub const KEY_U: u16 = 0x18;
pub const KEY_V: u16 = 0x19;
pub const KEY_W: u16 = 0x1A;
pub const KEY_X: u16 = 0x1B;
pub const KEY_Y: u16 = 0x1C;
pub const KEY_Z: u16 = 0x1D;
pub const KEY_0: u16 = 0x22;
pub const KEY_1: u16 = 0x02;
pub const KEY_2: u16 = 0x03;
pub const KEY_3: u16 = 0x04;
pub const KEY_4: u16 = 0x05;
pub const KEY_5: u16 = 0x06;
pub const KEY_6: u16 = 0x07;
pub const KEY_7: u16 = 0x08;
pub const KEY_8: u16 = 0x09;
pub const KEY_9: u16 = 0x0A;
pub const KEY_ENTER: u16 = 0x28;
pub const KEY_ESCAPE: u16 = 0x29;
pub const KEY_BACKSPACE: u16 = 0x0E;
pub const KEY_TAB: u16 = 0x0F;
pub const KEY_SPACE: u16 = 0x39;
pub const KEY_DELETE: u16 = 0x4C;
pub const KEY_HOME: u16 = 0x47;
pub const KEY_END: u16 = 0x4F;
pub const KEY_PAGE_UP: u16 = 0x49;
pub const KEY_PAGE_DOWN: u16 = 0x51;
pub const KEY_UP: u16 = 0x52;
pub const KEY_DOWN: u16 = 0x50;
pub const KEY_LEFT: u16 = 0x4B;
pub const KEY_RIGHT: u16 = 0x4D;
pub const KEY_F1: u16 = 0x3A;
pub const KEY_F2: u16 = 0x3B;
pub const KEY_F3: u16 = 0x3C;
pub const KEY_F4: u16 = 0x3D;
pub const KEY_F5: u16 = 0x3E;
pub const KEY_F6: u16 = 0x3F;
pub const KEY_F7: u16 = 0x40;
pub const KEY_F8: u16 = 0x41;
pub const KEY_F9: u16 = 0x42;
pub const KEY_F10: u16 = 0x43;
pub const KEY_F11: u16 = 0x44;
pub const KEY_F12: u16 = 0x45;

// Mouse buttons
pub const MOUSE_LEFT: u8 = 1;
pub const MOUSE_RIGHT: u8 = 2;
pub const MOUSE_MIDDLE: u8 = 3;

/// Code of a named key, given the lowercased name.
pub open spec fn named_key_code(lower: Seq<char>) -> Option<u16> {
    if lower == "enter"@ || lower == "return"@ {
        Some(0x0Du16)
    } else if lower == "escape"@ {
        Some(0x1Bu16)
    } else if lower == "backspace"@ || lower == "bksp"@ {
        Some(0x08u16)
    } else if lower == "tab"@ {
        Some(0x09u16)
    } else if lower == "space"@ {
        Some(0x20u16)
    } else if lower == "delete"@ || lower == "del"@ {
        Some(0x2Eu16)
    } else if lower == "home"@ {
        Some(0x24u16)
    } else if lower == "end"@ {
        Some(0x23u16)
    } else if lower == "pageup"@ || lower == "pgup"@ {
        Some(0x21u16)
    } else if lower == "pagedown"@ || lower == "pgdn"@ {
        Some(0x22u16)
    } else if lower == "up"@ {
        Some(0x26u16)
    } else if lower == "down"@ {
        Some(0x28u16)
    } else if lower == "left"@ {
        Some(0x25u16)
    } else if lower == "right"@ {
        Some(0x27u16)
    } else if lower == "insert"@ || lower == "ins"@ {
        Some(0x2Du16)
    } else if lower == "f1"@ {
        Some(0x70u16)
    } else if lower == "f2"@ {
        Some(0x71u16)
    } else if lower == "f3"@ {
        Some(0x72u16)
    } else if lower == "f4"@ {
        Some(0x73u16)
    } else if lower == "f5"@ {
        Some(0x74u16)
    } else if lower == "f6"@ {
        Some(0x75u16)
    } else if lower == "f7"@ {
        Some(0x76u16)
    } else if lower == "f8"@ {
        Some(0x77u16)
    } else if lower == "f9"@ {
        Some(0x78u16)
    } else if lower == "f10"@ {
        Some(0x79u16)
    } else if lower == "f11"@ {
        Some(0x7Au16)
    } else if lower == "f12"@ {
        Some(0x7Bu16)
    } else if lower == "lctrl"@ {
        Some(0x1Du16)
    } else if lower == "rctrl"@ {
        Some(0x1Du16)
    } else if lower == "lshift"@ {
        Some(0x2Au16)
    } else if lower == "rshift"@ {
        Some(0x36u16)
    } else if lower == "lalt"@ {
        Some(0x38u16)
    } else if lower == "ralt"@ {
        Some(0xB8u16)
    } else if lower == "lwin"@ {
        Some(0x5Bu16)
    } else if lower == "rwin"@ {
        Some(0x5Cu16)
    } else if lower == "menu"@ {
        Some(0x5Du16)
    } else if lower == "capslock"@ {
        Some(0x14u16)
    } else if lower == "numlock"@ {
        Some(0x90u16)
    } else if lower == "scrolllock"@ {
        Some(0x91u16)
    } else {
        None
    }
}

/// The function-key names F1 to F12, in order.
pub open spec fn function_keys() -> Seq<Seq<char>> {
    seq!["f1"@, "f2"@, "f3"@, "f4"@, "f5"@, "f6"@, "f7"@, "f8"@, "f9"@, "f10"@, "f11"@, "f12"@]
}

/// Each short key name means the same key as its long name, and the
/// function keys F1 to F12 take the consecutive codes 0x70 to 0x7B.
pub proof fn key_names_law(i: int)
    ensures
        named_key_code("return"@) == named_key_code("enter"@),
        named_key_code("enter"@) is Some,
        named_key_code("bksp"@) == named_key_code("backspace"@),
        named_key_code("backspace"@) is Some,
        named_key_code("del"@) == named_key_code("delete"@),
        named_key_code("delete"@) is Some,
        named_key_code("pgup"@) == named_key_code("pageup"@),
        named_key_code("pageup"@) is Some,
        named_key_code("pgdn"@) == named_key_code("pagedown"@),
        named_key_code("pagedown"@) is Some,
        named_key_code("ins"@) == named_key_code("insert"@),
        named_key_code("insert"@) is Some,
        1 <= i <= 12 ==> named_key_code(function_keys()[i - 1]) == Some((0x6F + i) as u16),
{
    reveal_strlit("enter");
    reveal_strlit("return");
    reveal_strlit("escape");
    reveal_strlit("backspace");
    reveal_strlit("bksp");
    reveal_strlit("tab");
    reveal_strlit("space");
    reveal_strlit("delete");
    reveal_strlit("del");
    reveal_strlit("home");
    reveal_strlit("end");
    reveal_strlit("pageup");
    reveal_strlit("pgup");
    reveal_strlit("pagedown");
    reveal_strlit("pgdn");
    reveal_strlit("up");
    reveal_strlit("down");
    reveal_strlit("left");
    reveal_strlit("right");
    reveal_strlit("insert");
    reveal_strlit("ins");
    reveal_strlit("f1");
    reveal_strlit("f2");
    reveal_strlit("f3");
    reveal_strlit("f4");
    reveal_strlit("f5");
    reveal_strlit("f6");
    reveal_strlit("f7");
    reveal_strlit("f8");
    reveal_strlit("f9");
    reveal_strlit("f10");
    reveal_strlit("f11");
    reveal_strlit("f12");
    reveal_strlit("lctrl");
    reveal_strlit("rctrl");
    reveal_strlit("lshift");
    reveal_strlit("rshift");
    reveal_strlit("lalt");
    reveal_strlit("ralt");
    reveal_strlit("lwin");
    reveal_strlit("rwin");
    reveal_strlit("menu");
    reveal_strlit("capslock");
    reveal_strlit("numlock");
    reveal_strlit("scrolllock");
    assert("enter"@.len() == 5);
    assert("return"@.len() == 6);
    assert("escape"@.len() == 6);
    assert("backspace"@.len() == 9);
    assert("bksp"@.len() == 4);
    assert("tab"@.len() == 3);
    assert("space"@.len() == 5);
    assert("delete"@.len() == 6);
    assert("del"@.len() == 3);
    assert("home"@.len() == 4);
    assert("end"@.len() == 3);
    assert("pageup"@.len() == 6);
    assert("pgup"@.len() == 4);
    assert("pagedown"@.len() == 8);
    assert("pgdn"@.len() == 4);
    assert("up"@.len() == 2);
    assert("down"@.len() == 4);
    assert("left"@.len() == 4);
    assert("right"@.len() == 5);
    assert("insert"@.len() == 6);
    assert("ins"@.len() == 3);
    assert("f1"@.len() == 2);
    assert("f2"@.len() == 2);
    assert("f3"@.len() == 2);
    assert("f4"@.len() == 2);
    assert("f5"@.len() == 2);
    assert("f6"@.len() == 2);
    assert("f7"@.len() == 2);
    assert("f8"@.len() == 2);
    assert("f9"@.len() == 2);
    assert("f10"@.len() == 3);
    assert("f11"@.len() == 3);
    assert("f12"@.len() == 3);
    assert("lctrl"@.len() == 5);
    assert("rctrl"@.len() == 5);
    assert("lshift"@.len() == 6);
    assert("rshift"@.len() == 6);
    assert("lalt"@.len() == 4);
    assert("ralt"@.len() == 4);
    assert("lwin"@.len() == 4);
    assert("rwin"@.len() == 4);
    assert("menu"@.len() == 4);
    assert("capslock"@.len() == 8);
    assert("numlock"@.len() == 7);
    assert("scrolllock"@.len() == 10);
    assert(named_key_code("enter"@) is Some);
    assert(named_key_code("return"@) == named_key_code("enter"@));
    assert(named_key_code("backspace"@) is Some);
    assert(named_key_code("bksp"@) == named_key_code("backspace"@));
    assert(named_key_code("delete"@) is Some) by {
        assert("delete"@[0] != "return"@[0]);
        assert("delete"@[0] != "escape"@[0]);
    }
    assert(named_key_code("del"@) == named_key_code("delete"@)) by {
        assert("del"@[0] != "tab"@[0]);
        assert("delete"@[0] != "return"@[0]);
        assert("delete"@[0] != "escape"@[0]);
    }
    assert(named_key_code("pageup"@) is Some) by {
        assert("pageup"@[0] != "return"@[0]);
        assert("pageup"@[0] != "escape"@[0]);
        assert("pageup"@[0] != "delete"@[0]);
    }
    assert(named_key_code("pgup"@) == named_key_code("pageup"@)) by {
        assert("pgup"@[0] != "bksp"@[0]);
        assert("pgup"@[0] != "home"@[0]);
        assert("pageup"@[0] != "return"@[0]);
        assert("pageup"@[0] != "escape"@[0]);
        assert("pageup"@[0] != "delete"@[0]);
    }
    assert(named_key_code("pagedown"@) is Some);
    assert(named_key_code("pgdn"@) == named_key_code("pagedown"@)) by {
        assert("pgdn"@[0] != "bksp"@[0]);
        assert("pgdn"@[0] != "home"@[0]);
        assert("pgdn"@[2] != "pgup"@[2]);
    }
    assert(named_key_code("insert"@) is Some) by {
        assert("insert"@[0] != "return"@[0]);
        assert("insert"@[0] != "escape"@[0]);
        assert("insert"@[0] != "delete"@[0]);
        assert("insert"@[0] != "pageup"@[0]);
    }
    assert(named_key_code("ins"@) == named_key_code("insert"@)) by {
        assert("ins"@[0] != "tab"@[0]);
        assert("ins"@[0] != "del"@[0]);
        assert("ins"@[0] != "end"@[0]);
        assert("insert"@[0] != "return"@[0]);
        assert("insert"@[0] != "escape"@[0]);
        assert("insert"@[0] != "delete"@[0]);
        assert("insert"@[0] != "pageup"@[0]);
    }
    if i == 1 {
        assert(function_keys()[0] == "f1"@);
        assert("f1"@[0] != "up"@[0]);
        assert(named_key_code("f1"@) == Some(0x70u16));
    } else if i == 2 {
        assert(function_keys()[1] == "f2"@);
        assert("f2"@[0] != "up"@[0]);
        assert("f2"@[1] != "f1"@[1]);
        assert(named_key_code("f2"@) == Some(0x71u16));
    } else if i == 3 {
        assert(function_keys()[2] == "f3"@);
        assert("f3"@[0] != "up"@[0]);
        assert("f3"@[1] != "f1"@[1]);
        assert("f3"@[1] != "f2"@[1]);
        assert(named_key_code("f3"@) == Some(0x72u16));
    } else if i == 4 {
        assert(function_keys()[3] == "f4"@);
        assert("f4"@[0] != "up"@[0]);
        assert("f4"@[1] != "f1"@[1]);
        assert("f4"@[1] != "f2"@[1]);
        assert("f4"@[1] != "f3"@[1]);
        assert(named_key_code("f4"@) == Some(0x73u16));
    } else if i == 5 {
        assert(function_keys()[4] == "f5"@);
        assert("f5"@[0] != "up"@[0]);
        assert("f5"@[1] != "f1"@[1]);
        assert("f5"@[1] != "f2"@[1]);
        assert("f5"@[1] != "f3"@[1]);
        assert("f5"@[1] != "f4"@[1]);
        assert(named_key_code("f5"@) == Some(0x74u16));
    } else if i == 6 {
        assert(function_keys()[5] == "f6"@);
        assert("f6"@[0] != "up"@[0]);
        assert("f6"@[1] != "f1"@[1]);
        assert("f6"@[1] != "f2"@[1]);
        assert("f6"@[1] != "f3"@[1]);
        assert("f6"@[1] != "f4"@[1]);
        assert("f6"@[1] != "f5"@[1]);
        assert(named_key_code("f6"@) == Some(0x75u16));
    } else if i == 7 {
        assert(function_keys()[6] == "f7"@);
        assert("f7"@[0] != "up"@[0]);
        assert("f7"@[1] != "f1"@[1]);
        assert("f7"@[1] != "f2"@[1]);
        assert("f7"@[1] != "f3"@[1]);
        assert("f7"@[1] != "f4"@[1]);
        assert("f7"@[1] != "f5"@[1]);
        assert("f7"@[1] != "f6"@[1]);
        assert(named_key_code("f7"@) == Some(0x76u16));
    } else if i == 8 {
        assert(function_keys()[7] == "f8"@);
        assert("f8"@[0] != "up"@[0]);
        assert("f8"@[1] != "f1"@[1]);
        assert("f8"@[1] != "f2"@[1]);
        assert("f8"@[1] != "f3"@[1]);
        assert("f8"@[1] != "f4"@[1]);
        assert("f8"@[1] != "f5"@[1]);
        assert("f8"@[1] != "f6"@[1]);
        assert("f8"@[1] != "f7"@[1]);
        assert(named_key_code("f8"@) == Some(0x77u16));
    } else if i == 9 {
        assert(function_keys()[8] == "f9"@);
        assert("f9"@[0] != "up"@[0]);
        assert("f9"@[1] != "f1"@[1]);
        assert("f9"@[1] != "f2"@[1]);
        assert("f9"@[1] != "f3"@[1]);
        assert("f9"@[1] != "f4"@[1]);
        assert("f9"@[1] != "f5"@[1]);
        assert("f9"@[1] != "f6"@[1]);
        assert("f9"@[1] != "f7"@[1]);
        assert("f9"@[1] != "f8"@[1]);
        assert(named_key_code("f9"@) == Some(0x78u16));
    } else if i == 10 {
        assert(function_keys()[9] == "f10"@);
        assert("f10"@[0] != "tab"@[0]);
        assert("f10"@[0] != "del"@[0]);
        assert("f10"@[0] != "end"@[0]);
        assert("f10"@[0] != "ins"@[0]);
        assert(named_key_code("f10"@) == Some(0x79u16));
    } else if i == 11 {
        assert(function_keys()[10] == "f11"@);
        assert("f11"@[0] != "tab"@[0]);
        assert("f11"@[0] != "del"@[0]);
        assert("f11"@[0] != "end"@[0]);
        assert("f11"@[0] != "ins"@[0]);
        assert("f11"@[2] != "f10"@[2]);
        assert(named_key_code("f11"@) == Some(0x7Au16));
    } else if i == 12 {
        assert(function_keys()[11] == "f12"@);
        assert("f12"@[0] != "tab"@[0]);
        assert("f12"@[0] != "del"@[0]);
        assert("f12"@[0] != "end"@[0]);
        assert("f12"@[0] != "ins"@[0]);
        assert("f12"@[2] != "f10"@[2]);
        assert("f12"@[2] != "f11"@[2]);
        assert(named_key_code("f12"@) == Some(0x7Bu16));
    }
}

/// Code of a one-character key name: letters from 0x1E upward, digits
/// from 0x32 downward.
pub open spec fn single_char_code(c: char) -> Option<u16> {
    if 'a' <= c <= 'z' {
        Some((0x1E + (c as u32 - 'a' as u32)) as u16)
    } else if 'A' <= c <= 'Z' {
        Some((0x1E + (c as u32 - 'A' as u32)) as u16)
    } else if '0' <= c <= '9' {
        Some((0x32 - (c as u32 - '0' as u32)) as u16)
    } else {
        None
    }
}

/// Code for a key name: the named keys (case-insensitive), else a name of
/// exactly one byte holding a letter or digit.
pub open spec fn key_code_of(name: &str) -> Option<u16> {
    key_code_from(spec_to_lowercase(name@), name)
}

/// Code for a key name whose lowercase form is `lower`.
pub open spec fn key_code_from(lower: Seq<char>, name: &str) -> Option<u16> {
    match named_key_code(lower) {
        Some(v) => Some(v),
        None => if name.spec_bytes().len() == 1 {
            single_char_code(name@[0])
        } else {
            None
        },
    }
}

/// Map a key name to its key code.
pub fn key_name_to_hid(name: &str) -> (r: Option<u16>)
    ensures
        r == key_code_of(name),
        all_ascii(name@) ==> r == key_code_from(ascii_lower(name@), name),
{
    let lower = to_lowercase(name);
    let l = lower.as_str();
    if str_eq(l, "enter") || str_eq(l, "return") {
        return Some(0x0D);
    }
    if str_eq(l, "escape") {
        return Some(0x1B);
    }
    if str_eq(l, "backspace") || str_eq(l, "bksp") {
        return Some(0x08);
    }
    if str_eq(l, "tab") {
        return Some(0x09);
    }
    if str_eq(l, "space") {
        return Some(0x20);
    }
    if str_eq(l, "delete") || str_eq(l, "del") {
        return Some(0x2E);
    }
    if str_eq(l, "home") {
        return Some(0x24);
    }
    if str_eq(l, "end") {
        return Some(0x23);
    }
    if str_eq(l, "pageup") || str_eq(l, "pgup") {
        return Some(0x21);
    }
    if str_eq(l, "pagedown") || str_eq(l, "pgdn") {
        return Some(0x22);
    }
    if str_eq(l, "up") {
        return Some(0x26);
    }
    if str_eq(l, "down") {
        return Some(0x28);
    }
    if str_eq(l, "left") {
        return Some(0x25);
    }
    if str_eq(l, "right") {
        return Some(0x27);
    }
    if str_eq(l, "insert") || str_eq(l, "ins") {
        return Some(0x2D);
    }
    if str_eq(l, "f1") {
        return Some(0x70);
    }
    if str_eq(l, "f2") {
        return Some(0x71);
    }
    if str_eq(l, "f3") {
        return Some(0x72);
    }
    if str_eq(l, "f4") {
        return Some(0x73);
    }
    if str_eq(l, "f5") {
        return Some(0x74);
    }
    if str_eq(l, "f6") {
        return Some(0x75);
    }
    if str_eq(l, "f7") {
        return Some(0x76);
    }
    if str_eq(l, "f8") {
        return Some(0x77);
    }
    if str_eq(l, "f9") {
        return Some(0x78);
    }
    if str_eq(l, "f10") {
        return Some(0x79);
    }
    if str_eq(l, "f11") {
        return Some(0x7A);
    }
    if str_eq(l, "f12") {
        return Some(0x7B);
    }
    if str_eq(l, "lctrl") {
        return Some(0x1D);
    }
    if str_eq(l, "rctrl") {
        return Some(0x1D);
    }
    if str_eq(l, "lshift") {
        return Some(0x2A);
    }
    if str_eq(l, "rshift") {
        return Some(0x36);
    }
    if str_eq(l, "lalt") {
        return Some(0x38);
    }
    if str_eq(l, "ralt") {
        return Some(0xB8);
    }
    if str_eq(l, "lwin") {
        return Some(0x5B);
    }
    if str_eq(l, "rwin") {
        return Some(0x5C);
    }
    if str_eq(l, "menu") {
        return Some(0x5D);
    }
    if str_eq(l, "capslock") {
        return Some(0x14);
    }
    if str_eq(l, "numlock") {
        return Some(0x90);
    }
    if str_eq(l, "scrolllock") {
        return Some(0x91);
    }
    let blen = name.as_bytes().len();
    if blen == 1 {
        let c = name.get_char(0);
        if 'a' <= c && c <= 'z' {
            let off = (c as u32 - 'a' as u32) as u16;
            assert(off == c as u32 - 'a' as u32);
            return Some(0x1E + off);
        }
        if 'A' <= c && c <= 'Z' {
            let off = (c as u32 - 'A' as u32) as u16;
            assert(off == c as u32 - 'A' as u32);
            return Some(0x1E + off);
        }
        if '0' <= c && c <= '9' {
            return Some(0x32 - (c as u32 - '0' as u32) as u16);
        }
    }
    None
}

} // verus!
