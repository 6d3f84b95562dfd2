//! Input injection: key and character codes, mouse buttons, and the replay
//! guard that decides whether an input event from a device is accepted.
//! Performing the event on the desktop is left to the host program.
use vstd::prelude::*;
use crate::protocol::hid::named_key_code;
use crate::keyed::{lemma_map_of_index, lemma_map_of_push, lemma_map_of_update, map_of, unique_keys};
use crate::text::{all_ascii, ascii_lower, push_str, spec_to_lowercase, str_eq, to_lowercase, to_string};

pub use crate::clock::now_ms;

verus! {

/// Scroll-wheel units per wheel click.
pub const WHEEL_DELTA: i32 = 120;

/// Code of a typed character: letters, digits, space and a few controls.
pub open spec fn char_code(c: char) -> Option<u16> {
    let u = c as u32;
    if u == 0x61 {
        Some(0x1Eu16)
    } else if 0x62 <= u <= 0x7A {
        Some((0x04 + (u - 0x61)) as u16)
    } else if 0x41 <= u <= 0x5A {
        Some((0x1E + (u - 0x41)) as u16)
    } else if 0x30 <= u <= 0x39 {
        Some((0x22 - (u - 0x30)) as u16)
    } else if u == 0x20 {
        Some(0x39u16)
    } else if u == 0x0A || u == 0x0D {
        Some(0x28u16)
    } else if u == 0x09 {
        Some(0x0Fu16)
    } else if u == 0x08 {
        Some(0x0Eu16)
    } else if u == 0x1B {
        Some(0x29u16)
    } else {
        None
    }
}

/// Converts a typed character to its key code: `a` and `A` give 0x1E, the
/// other lowercase letters count up from 0x05 (`b`) to 0x1D (`z`), uppercase
/// letters count up from 0x1E, digits count down from 0x22 (`0`).
pub fn char_to_hid(c: char) -> (r: Option<u16>)
    ensures
        r == char_code(c),
{
    let u = c as u32;
    if u == 0x61 {
        Some(0x1E)
    } else if 0x62 <= u && u <= 0x7A {
        Some((0x04 + (u - 0x61)) as u16)
    } else if 0x41 <= u && u <= 0x5A {
        Some((0x1E + (u - 0x41)) as u16)
    } else if 0x30 <= u && u <= 0x39 {
        Some((0x22 - (u - 0x30)) as u16)
    } else if u == 0x20 {
        Some(0x39)
    } else if u == 0x0A || u == 0x0D {
        Some(0x28)
    } else if u == 0x09 {
        Some(0x0F)
    } else if u == 0x08 {
        Some(0x0E)
    } else if u == 0x1B {
        Some(0x29)
    } else {
        None
    }
}

/// HID usage code of a key name, given the lowercased name.
pub open spec fn hid_key_code(lower: Seq<char>) -> Option<u16> {
    if lower == "enter"@ || lower == "return"@ {
        Some(0x28u16)
    } else if lower == "escape"@ {
        Some(0x29u16)
    } else if lower == "backspace"@ || lower == "bksp"@ {
        Some(0x0Eu16)
    } else if lower == "tab"@ {
        Some(0x0Fu16)
    } else if lower == "space"@ {
        Some(0x39u16)
    } else if lower == "delete"@ || lower == "del"@ {
        Some(0x4Cu16)
    } else if lower == "home"@ {
        Some(0x47u16)
    } else if lower == "end"@ {
        Some(0x4Fu16)
    } else if lower == "pageup"@ || lower == "pgup"@ {
        Some(0x49u16)
    } else if lower == "pagedown"@ || lower == "pgdn"@ {
        Some(0x51u16)
    } else if lower == "up"@ {
        Some(0x52u16)
    } else if lower == "down"@ {
        Some(0x50u16)
    } else if lower == "left"@ {
        Some(0x4Bu16)
    } else if lower == "right"@ {
        Some(0x4Du16)
    } else if lower == "insert"@ || lower == "ins"@ {
        Some(0x52u16)
    } else if lower == "f1"@ {
        Some(0x3Au16)
    } else if lower == "f2"@ {
        Some(0x3Bu16)
    } else if lower == "f3"@ {
        Some(0x3Cu16)
    } else if lower == "f4"@ {
        Some(0x3Du16)
    } else if lower == "f5"@ {
        Some(0x3Eu16)
    } else if lower == "f6"@ {
        Some(0x3Fu16)
    } else if lower == "f7"@ {
        Some(0x40u16)
    } else if lower == "f8"@ {
        Some(0x41u16)
    } else if lower == "f9"@ {
        Some(0x42u16)
    } else if lower == "f10"@ {
        Some(0x43u16)
    } else if lower == "f11"@ {
        Some(0x44u16)
    } else if lower == "f12"@ {
        Some(0x45u16)
    } else {
        None
    }
}

/// Converts a key name (any case) to its HID usage code.
pub fn key_name_to_hid(name: &str) -> (r: Option<u16>)
    ensures
        r == hid_key_code(spec_to_lowercase(name@)),
        all_ascii(name@) ==> r == hid_key_code(ascii_lower(name@)),
{
    let lower = to_lowercase(name);
    let l = lower.as_str();
    if str_eq(l, "enter") || str_eq(l, "return") {
        return Some(0x28);
    }
    if str_eq(l, "escape") {
        return Some(0x29);
    }
    if str_eq(l, "backspace") || str_eq(l, "bksp") {
        return Some(0x0E);
    }
    if str_eq(l, "tab") {
        return Some(0x0F);
    }
    if str_eq(l, "space") {
        return Some(0x39);
    }
    if str_eq(l, "delete") || str_eq(l, "del") {
        return Some(0x4C);
    }
    if str_eq(l, "home") {
        return Some(0x47);
    }
    if str_eq(l, "end") {
        return Some(0x4F);
    }
    if str_eq(l, "pageup") || str_eq(l, "pgup") {
        return Some(0x49);
    }
    if str_eq(l, "pagedown") || str_eq(l, "pgdn") {
        return Some(0x51);
    }
    if str_eq(l, "up") {
        return Some(0x52);
    }
    if str_eq(l, "down") {
        return Some(0x50);
    }
    if str_eq(l, "left") {
        return Some(0x4B);
    }
    if str_eq(l, "right") {
        return Some(0x4D);
    }
    if str_eq(l, "insert") || str_eq(l, "ins") {
        return Some(0x52);
    }
    if str_eq(l, "f1") {
        return Some(0x3A);
    }
    if str_eq(l, "f2") {
        return Some(0x3B);
    }
    if str_eq(l, "f3") {
        return Some(0x3C);
    }
    if str_eq(l, "f4") {
        return Some(0x3D);
    }
    if str_eq(l, "f5") {
        return Some(0x3E);
    }
    if str_eq(l, "f6") {
        return Some(0x3F);
    }
    if str_eq(l, "f7") {
        return Some(0x40);
    }
    if str_eq(l, "f8") {
        return Some(0x41);
    }
    if str_eq(l, "f9") {
        return Some(0x42);
    }
    if str_eq(l, "f10") {
        return Some(0x43);
    }
    if str_eq(l, "f11") {
        return Some(0x44);
    }
    if str_eq(l, "f12") {
        return Some(0x45);
    }
    None
}

/// A mouse button.
#[derive(Debug, Clone, Copy, PartialEq, Eq, Structural)]
pub enum MouseButton {
    Left,
    Right,
    Middle,
}

impl MouseButton {
    /// The button of a wire button code: 2 right, 3 middle, anything else left.
    pub fn from_code(code: u8) -> (r: MouseButton)
        ensures
            r == (if code == 2 {
                MouseButton::Right
            } else if code == 3 {
                MouseButton::Middle
            } else {
                MouseButton::Left
            }),
    {
        if code == 2 {
            MouseButton::Right
        } else if code == 3 {
            MouseButton::Middle
        } else {
            MouseButton::Left
        }
    }
}

/// Whether a key or button goes down or up.
#[derive(Debug, Clone, Copy, PartialEq, Eq, Structural)]
pub enum KeyAction {
    Press,
    Release,
}

impl KeyAction {
    /// The action named by a wire action string: `"down"` presses, anything
    /// else releases.
    pub fn from_name(action: &str) -> (r: KeyAction)
        ensures
            r == (if action@ == "down"@ {
                KeyAction::Press
            } else {
                KeyAction::Release
            }),
    {
        if str_eq(action, "down") {
            KeyAction::Press
        } else {
            KeyAction::Release
        }
    }
}

/// Wheel data for `delta` wheel clicks.
pub fn wheel_data(delta: i32) -> (r: i32)
    requires
        i32::MIN <= delta * WHEEL_DELTA <= i32::MAX,
    ensures
        r == delta * WHEEL_DELTA,
{
    delta * WHEEL_DELTA
}

/// Windows virtual-key code of a key name: letters and digits by their
/// uppercase ASCII code, and the named navigation keys.
pub open spec fn virtual_key_code(key: Seq<char>) -> Option<u16> {
    if key.len() == 1 && 'a' <= key[0] <= 'z' {
        Some((key[0] as u32 - 0x20) as u16)
    } else if key.len() == 1 && '0' <= key[0] <= '9' {
        Some(key[0] as u32 as u16)
    } else if key == "enter"@ {
        Some(0x0Du16)
    } else if key == "escape"@ {
        Some(0x1Bu16)
    } else if key == "tab"@ {
        Some(0x09u16)
    } else if key == "space"@ {
        Some(0x20u16)
    } else if key == "delete"@ {
        Some(0x2Eu16)
    } else if key == "backspace"@ {
        Some(0x08u16)
    } else if key == "home"@ {
        Some(0x24u16)
    } else if key == "end"@ {
        Some(0x23u16)
    } else if key == "pageup"@ {
        Some(0x21u16)
    } else if key == "pagedown"@ {
        Some(0x22u16)
    } else if key == "up"@ {
        Some(0x26u16)
    } else if key == "down"@ {
        Some(0x28u16)
    } else if key == "left"@ {
        Some(0x25u16)
    } else if key == "right"@ {
        Some(0x27u16)
    } else if key == "insert"@ {
        Some(0x2Du16)
    } else {
        None
    }
}

/// The navigation key names in Windows virtual-key order: page up, page
/// down, end, home, left, up, right, down.
pub open spec fn navigation_keys() -> Seq<Seq<char>> {
    seq!["pageup"@, "pagedown"@, "end"@, "home"@, "left"@, "up"@, "right"@, "down"@]
}

/// The two key tables agree: every key name that both the input-packet
/// table (`protocol::hid`) and key injection know gets the same code from
/// both, so a packet carries the very virtual-key code that is injected.
pub proof fn key_tables_agree(k: Seq<char>)
    ensures
        named_key_code(k) is Some && virtual_key_code(k) is Some ==> named_key_code(k) == virtual_key_code(k),
{
    reveal_strlit("enter");
    reveal_strlit("return");
    reveal_strlit("escape");
    reveal_strlit("backspace");
    reveal_strlit("bksp");
    reveal_strlit("tab");
    reveal_strlit("space");
    reveal_strlit("delete");
    reveal_strlit("del");
    reveal_strlit("home");
    reveal_strlit("end");
    reveal_strlit("pageup");
    reveal_strlit("pgup");
    reveal_strlit("pagedown");
    reveal_strlit("pgdn");
    reveal_strlit("up");
    reveal_strlit("down");
    reveal_strlit("left");
    reveal_strlit("right");
    reveal_strlit("insert");
    reveal_strlit("ins");
    reveal_strlit("f1");
    reveal_strlit("f2");
    reveal_strlit("f3");
    reveal_strlit("f4");
    reveal_strlit("f5");
    reveal_strlit("f6");
    reveal_strlit("f7");
    reveal_strlit("f8");
    reveal_strlit("f9");
    reveal_strlit("f10");
    reveal_strlit("f11");
    reveal_strlit("f12");
    reveal_strlit("lctrl");
    reveal_strlit("rctrl");
    reveal_strlit("lshift");
    reveal_strlit("rshift");
    reveal_strlit("lalt");
    reveal_strlit("ralt");
    reveal_strlit("lwin");
    reveal_strlit("rwin");
    reveal_strlit("menu");
    reveal_strlit("capslock");
    reveal_strlit("numlock");
    reveal_strlit("scrolllock");
    if k == "enter"@ {
        assert(named_key_code(k) == Some(0x0Du16));
    } else if k == "escape"@ {
        assert("escape"@[0] != "return"@[0]);
        assert(named_key_code(k) == Some(0x1Bu16));
    } else if k == "tab"@ {
        assert(named_key_code(k) == Some(0x09u16));
    } else if k == "space"@ {
        assert("space"@[0] != "enter"@[0]);
        assert(named_key_code(k) == Some(0x20u16));
    } else if k == "delete"@ {
        assert("delete"@[0] != "return"@[0]);
        assert("delete"@[0] != "escape"@[0]);
        assert(named_key_code(k) == Some(0x2Eu16));
    } else if k == "backspace"@ {
        assert(named_key_code(k) == Some(0x08u16));
    } else if k == "home"@ {
        assert("home"@[0] != "bksp"@[0]);
        assert(named_key_code(k) == Some(0x24u16));
    } else if k == "end"@ {
        assert("end"@[0] != "tab"@[0]);
        assert("end"@[0] != "del"@[0]);
        assert(named_key_code(k) == Some(0x23u16));
    } else if k == "pageup"@ {
        assert("pageup"@[0] != "return"@[0]);
        assert("pageup"@[0] != "escape"@[0]);
        assert("pageup"@[0] != "delete"@[0]);
        assert(named_key_code(k) == Some(0x21u16));
    } else if k == "pagedown"@ {
        assert(named_key_code(k) == Some(0x22u16));
    } else if k == "up"@ {
        assert(named_key_code(k) == Some(0x26u16));
    } else if k == "down"@ {
        assert("down"@[0] != "bksp"@[0]);
        assert("down"@[0] != "home"@[0]);
        assert("down"@[0] != "pgup"@[0]);
        assert("down"@[0] != "pgdn"@[0]);
        assert(named_key_code(k) == Some(0x28u16));
    } else if k == "left"@ {
        assert("left"@[0] != "bksp"@[0]);
        assert("left"@[0] != "home"@[0]);
        assert("left"@[0] != "pgup"@[0]);
        assert("left"@[0] != "pgdn"@[0]);
        assert("left"@[0] != "down"@[0]);
        assert(named_key_code(k) == Some(0x25u16));
    } else if k == "right"@ {
        assert("right"@[0] != "enter"@[0]);
        assert("right"@[0] != "space"@[0]);
        assert(named_key_code(k) == Some(0x27u16));
    } else if k == "insert"@ {
        assert("insert"@[0] != "return"@[0]);
        assert("insert"@[0] != "escape"@[0]);
        assert("insert"@[0] != "delete"@[0]);
        assert("insert"@[0] != "pageup"@[0]);
        assert(named_key_code(k) == Some(0x2Du16));
    }
}

/// Injection sends the Windows virtual-key codes: the eight navigation keys
/// take the consecutive codes 0x21 to 0x28 in Windows order, a lowercase
/// letter its uppercase ASCII code and a digit its own ASCII code.
pub proof fn virtual_key_law(i: int, c: char)
    ensures
        0 <= i < 8 ==> virtual_key_code(navigation_keys()[i]) == Some((0x21 + i) as u16),
        'a' <= c <= 'z' ==> virtual_key_code(seq![c]) == Some((c as u32 - 0x20) as u16),
        '0' <= c <= '9' ==> virtual_key_code(seq![c]) == Some(c as u32 as u16),
{
    reveal_strlit("enter");
    reveal_strlit("escape");
    reveal_strlit("tab");
    reveal_strlit("space");
    reveal_strlit("delete");
    reveal_strlit("backspace");
    reveal_strlit("home");
    reveal_strlit("end");
    reveal_strlit("pageup");
    reveal_strlit("pagedown");
    reveal_strlit("up");
    reveal_strlit("down");
    reveal_strlit("left");
    reveal_strlit("right");
    reveal_strlit("insert");
    if i == 0 {
        assert(navigation_keys()[0] == "pageup"@);
        assert("pageup"@[0] != "escape"@[0]);
        assert("pageup"@[0] != "delete"@[0]);
        assert(virtual_key_code("pageup"@) == Some(0x21u16));
    } else if i == 1 {
        assert(navigation_keys()[1] == "pagedown"@);
        assert(virtual_key_code("pagedown"@) == Some(0x22u16));
    } else if i == 2 {
        assert(navigation_keys()[2] == "end"@);
        assert("end"@[0] != "tab"@[0]);
        assert(virtual_key_code("end"@) == Some(0x23u16));
    } else if i == 3 {
        assert(navigation_keys()[3] == "home"@);
        assert(virtual_key_code("home"@) == Some(0x24u16));
    } else if i == 4 {
        assert(navigation_keys()[4] == "left"@);
        assert("left"@[0] != "home"@[0]);
        assert("left"@[0] != "down"@[0]);
        assert(virtual_key_code("left"@) == Some(0x25u16));
    } else if i == 5 {
        assert(navigation_keys()[5] == "up"@);
        assert(virtual_key_code("up"@) == Some(0x26u16));
    } else if i == 6 {
        assert(navigation_keys()[6] == "right"@);
        assert("right"@[0] != "enter"@[0]);
        assert("right"@[0] != "space"@[0]);
        assert(virtual_key_code("right"@) == Some(0x27u16));
    } else if i == 7 {
        assert(navigation_keys()[7] == "down"@);
        assert("down"@[0] != "home"@[0]);
        assert(virtual_key_code("down"@) == Some(0x28u16));
    }
}

/// The virtual-key code that key injection sends for a key name (exact case).
pub fn virtual_key(key: &str) -> (r: Option<u16>)
    ensures
        r == virtual_key_code(key@),
{
    if key.unicode_len() == 1 {
        let c = key.get_char(0);
        if 'a' <= c && c <= 'z' {
            return Some((c as u32 - 0x20) as u16);
        }
        if '0' <= c && c <= '9' {
            return Some(c as u32 as u16);
        }
    }
    if str_eq(key, "enter") {
        Some(0x0D)
    } else if str_eq(key, "escape") {
        Some(0x1B)
    } else if str_eq(key, "tab") {
        Some(0x09)
    } else if str_eq(key, "space") {
        Some(0x20)
    } else if str_eq(key, "delete") {
        Some(0x2E)
    } else if str_eq(key, "backspace") {
        Some(0x08)
    } else if str_eq(key, "home") {
        Some(0x24)
    } else if str_eq(key, "end") {
        Some(0x23)
    } else if str_eq(key, "pageup") {
        Some(0x21)
    } else if str_eq(key, "pagedown") {
        Some(0x22)
    } else if str_eq(key, "up") {
        Some(0x26)
    } else if str_eq(key, "down") {
        Some(0x28)
    } else if str_eq(key, "left") {
        Some(0x25)
    } else if str_eq(key, "right") {
        Some(0x27)
    } else if str_eq(key, "insert") {
        Some(0x2D)
    } else {
        None
    }
}

/// Events older than this, in milliseconds, are refused.
pub const MAX_INPUT_AGE_MS: u64 = 5000;

/// The last accepted event of one device.
#[derive(Debug, Clone)]
pub struct InputRecord {
    pub device_id: String,
    pub last_sequence: u64,
    pub last_timestamp: u64,
}

/// Records are keyed by device id.
pub open spec fn record_key() -> spec_fn(InputRecord) -> Seq<char> {
    |r: InputRecord| r.device_id@
}

/// Last accepted sequence number and timestamp of a device; (0, 0) before any.
pub open spec fn last_seen(m: Map<Seq<char>, InputRecord>, id: Seq<char>) -> (u64, u64) {
    if m.contains_key(id) {
        (m[id].last_sequence, m[id].last_timestamp)
    } else {
        (0, 0)
    }
}

/// `now - t`, or zero when `t` is later.
pub open spec fn age(now: u64, t: u64) -> int {
    if now >= t {
        now - t
    } else {
        0
    }
}

/// An event is accepted when its sequence number is above the device's
/// last accepted one and it is at most five seconds old.
pub open spec fn accepts(m: Map<Seq<char>, InputRecord>, id: Seq<char>, sequence: u64, timestamp: u64, now: u64) -> bool {
    sequence > last_seen(m, id).0 && age(now, timestamp) <= MAX_INPUT_AGE_MS
}

/// What one decision does to the records: the device gets a record, which
/// holds the event when it was accepted; other devices are untouched.
pub open spec fn guard_step(
    m: Map<Seq<char>, InputRecord>,
    id: Seq<char>,
    sequence: u64,
    timestamp: u64,
    accepted: bool,
    m2: Map<Seq<char>, InputRecord>,
) -> bool {
    &&& m2.dom() == m.dom().insert(id)
    &&& forall|k: Seq<char>| k != id && m.contains_key(k) ==> m2[k] == m[k]
    &&& m2[id].device_id@ == id
    &&& last_seen(m2, id) == (if accepted {
        (sequence, timestamp)
    } else {
        last_seen(m, id)
    })
}

/// Per-device replay protection for injected input.
pub struct InputGuard {
    records: Vec<InputRecord>,
}

impl InputGuard {
    /// The records, one per device.
    pub closed spec fn entries(&self) -> Seq<InputRecord> {
        self.records@
    }

    /// The records by device id.
    pub open spec fn view(&self) -> Map<Seq<char>, InputRecord> {
        map_of(self.entries(), record_key())
    }

    pub open spec fn wf(&self) -> bool {
        unique_keys(self.entries(), record_key())
    }

    pub fn new() -> (r: Self)
        ensures
            r.wf(),
            r.view() == Map::<Seq<char>, InputRecord>::empty(),
    {
        InputGuard { records: Vec::new() }
    }

    fn find(&self, id: &str) -> (r: Option<usize>)
        requires
            self.wf(),
        ensures
            r matches Some(i) ==> i < self.entries().len() && self.entries()[i as int].device_id@ == id@
                && self.view().contains_key(id@) && self.view()[id@] == self.entries()[i as int],
            r is None ==> !self.view().contains_key(id@),
    {
        let mut i: usize = 0;
        while i < self.records.len()
            invariant
                i <= self.records@.len(),
                self.wf(),
                forall|j: int| 0 <= j < i ==> self.records@[j].device_id@ != id@,
            decreases self.records@.len() - i,
        {
            if str_eq(self.records[i].device_id.as_str(), id) {
                assert((record_key())(self.records@[i as int]) == id@);
                proof {
                    lemma_map_of_index(self.entries(), record_key(), id@);
                }
                return Some(i);
            }
            i = i + 1;
        }
        assert(!(exists|j: int| 0 <= j < self.records@.len() && (record_key())(self.records@[j]) == id@)) by {
            if exists|j: int| 0 <= j < self.records@.len() && (record_key())(self.records@[j]) == id@ {
                let j = choose|j: int| 0 <= j < self.records@.len() && (record_key())(self.records@[j]) == id@;
                assert(self.records@[j].device_id@ != id@);
            }
        }
        proof {
            lemma_map_of_index(self.entries(), record_key(), id@);
        }
        None
    }

    /// Whether an input event from `device_id` is accepted now; see
    /// `is_input_allowed_at`.
    pub fn is_input_allowed(&mut self, device_id: &str, sequence: u64, timestamp: u64) -> (r: bool)
        requires
            old(self).wf(),
        ensures
            final(self).wf(),
            exists|now: u64| #[trigger] accepts(old(self).view(), device_id@, sequence, timestamp, now) == r,
            guard_step(old(self).view(), device_id@, sequence, timestamp, r, final(self).view()),
    {
        let now = now_ms();
        self.is_input_allowed_at(device_id, sequence, timestamp, now)
    }

    /// Whether an input event from `device_id` is accepted at time `now`:
    /// its sequence number must exceed the device's last accepted one and its
    /// timestamp be at most five seconds old. An accepted event becomes the
    /// device's last one.
    pub fn is_input_allowed_at(&mut self, device_id: &str, sequence: u64, timestamp: u64, now: u64) -> (r: bool)
        requires
            old(self).wf(),
        ensures
            final(self).wf(),
            r == accepts(old(self).view(), device_id@, sequence, timestamp, now),
            guard_step(old(self).view(), device_id@, sequence, timestamp, r, final(self).view()),
    {
        let i = match self.find(device_id) {
            Some(i) => i,
            None => {
                let rec = InputRecord { device_id: to_string(device_id), last_sequence: 0, last_timestamp: 0 };
                proof {
                    lemma_map_of_push(self.records@, record_key(), rec);
                }
                self.records.push(rec);
                proof {
                    lemma_map_of_index(self.entries(), record_key(), device_id@);
                    assert((record_key())(self.records@[self.records@.len() - 1]) == device_id@);
                }
                self.records.len() - 1
            },
        };
        assert(self.view().contains_key(device_id@) && self.view()[device_id@] == self.records@[i as int]);
        assert(last_seen(self.view(), device_id@) == last_seen(old(self).view(), device_id@));
        assert(self.view().dom() =~= old(self).view().dom().insert(device_id@));
        assert(forall|k: Seq<char>| k != device_id@ && old(self).view().contains_key(k) ==> self.view()[k] == old(self).view()[k]);
        let ghost mid = self.view();
        if sequence <= self.records[i].last_sequence {
            return false;
        }
        let elapsed: u64 = if now >= timestamp { now - timestamp } else { 0 };
        if elapsed > MAX_INPUT_AGE_MS {
            return false;
        }
        let rec = InputRecord { device_id: to_string(device_id), last_sequence: sequence, last_timestamp: timestamp };
        proof {
            lemma_map_of_update(self.records@, record_key(), i as int, rec);
        }
        self.records.set(i, rec);
        assert(self.view().dom() =~= mid.dom());
        true
    }

    /// Checks a key event from `device_id` now and names the virtual key to
    /// send with whether it goes down; see `prepare_key_at`.
    pub fn prepare_key(&mut self, device_id: &str, key: &str, action: &str, sequence: u64, timestamp: u64) -> (r: Result<(u16, bool), String>)
        requires
            old(self).wf(),
        ensures
            final(self).wf(),
            exists|now: u64| #[trigger] key_outcome(old(self).view(), device_id@, key@, action@, sequence, timestamp, now, r),
            guard_step(old(self).view(), device_id@, sequence, timestamp, r is Ok || !(r matches Err(e) && e@ == "Input rejected: not allowed"@), final(self).view()),
    {
        let now = now_ms();
        self.prepare_key_at(device_id, key, action, sequence, timestamp, now)
    }

    /// Checks a key event from `device_id` at time `now`. A refused event
    /// gives `Input rejected: not allowed`; an unknown key gives
    /// `Unsupported key: <key>`; otherwise the virtual key and whether the
    /// action is `"down"`.
    pub fn prepare_key_at(
        &mut self,
        device_id: &str,
        key: &str,
        action: &str,
        sequence: u64,
        timestamp: u64,
        now: u64,
    ) -> (r: Result<(u16, bool), String>)
        requires
            old(self).wf(),
        ensures
            final(self).wf(),
            key_outcome(old(self).view(), device_id@, key@, action@, sequence, timestamp, now, r),
            guard_step(old(self).view(), device_id@, sequence, timestamp, accepts(old(self).view(), device_id@, sequence, timestamp, now), final(self).view()),
            accepts(old(self).view(), device_id@, sequence, timestamp, now) <==> (r is Ok || !(r matches Err(e) && e@ == "Input rejected: not allowed"@)),
    {
        let ghost m = self.view();
        if !self.is_input_allowed_at(device_id, sequence, timestamp, now) {
            return Err(to_string("Input rejected: not allowed"));
        }
        match virtual_key(key) {
            Some(vk) => Ok((vk, str_eq(action, "down"))),
            None => {
                let mut msg = to_string("Unsupported key: ");
                push_str(&mut msg, key);
                proof {
                    reveal_strlit("Unsupported key: ");
                    reveal_strlit("Input rejected: not allowed");
                    assert(msg@[0] != "Input rejected: not allowed"@[0]);
                }
                Err(msg)
            },
        }
    }
}

/// The outcome of a key event: refused by the guard, or the key's plan.
pub open spec fn key_outcome(
    m: Map<Seq<char>, InputRecord>,
    id: Seq<char>,
    key: Seq<char>,
    action: Seq<char>,
    sequence: u64,
    timestamp: u64,
    now: u64,
    r: Result<(u16, bool), String>,
) -> bool {
    if accepts(m, id, sequence, timestamp, now) {
        key_plan(key, action, r)
    } else {
        r matches Err(e) && e@ == "Input rejected: not allowed"@
    }
}

/// The outcome for an accepted key event.
pub open spec fn key_plan(key: Seq<char>, action: Seq<char>, r: Result<(u16, bool), String>) -> bool {
    match virtual_key_code(key) {
        Some(vk) => r == Ok::<(u16, bool), String>((vk, action == "down"@)),
        None => r matches Err(e) && e@ == "Unsupported key: "@ + key,
    }
}

/// Replay protection: once an event is accepted, the same sequence number
/// from the same device is refused, at any later time.
pub proof fn replay_is_refused(
    m: Map<Seq<char>, InputRecord>,
    m2: Map<Seq<char>, InputRecord>,
    id: Seq<char>,
    sequence: u64,
    timestamp: u64,
    later: u64,
)
    requires
        guard_step(m, id, sequence, timestamp, true, m2),
    ensures
        !accepts(m2, id, sequence, timestamp, later),
{
}

/// The guard never lowers a device's last accepted sequence number.
pub proof fn sequence_never_decreases(
    m: Map<Seq<char>, InputRecord>,
    m2: Map<Seq<char>, InputRecord>,
    id: Seq<char>,
    sequence: u64,
    timestamp: u64,
    now: u64,
)
    requires
        guard_step(m, id, sequence, timestamp, accepts(m, id, sequence, timestamp, now), m2),
    ensures
        last_seen(m2, id).0 >= last_seen(m, id).0,
{
}

} // verus!
