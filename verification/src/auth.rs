//! Device identity, PIN codes and pairing hashes.
use vstd::prelude::*;
use vstd::string::StringSliceAdditionalSpecFns;
use vstd::utf8::encode_utf8;
use crate::clock::now_ms;
use crate::crypto::primitives::{random_below, sha256, spec_sha256};
use crate::text::{push_char, str_eq};
use crate::wire::push_slice;

verus! {

/// Characters of generated device ids (no I, O, 0 or 1).
pub open spec fn id_alphabet() -> Seq<char> {
    "ABCDEFGHJKLMNPQRSTUVWXYZ23456789"@
}

/// A character allowed in a device id: `A`-`Z` or `2`-`9`.
pub open spec fn id_char(c: char) -> bool {
    ('A' <= c <= 'Z') || ('2' <= c <= '9')
}

/// Eight bytes long and made of id characters only.
pub open spec fn valid_device_id(s: Seq<char>) -> bool {
    encode_utf8(s).len() == 8 && forall|i: int| 0 <= i < s.len() ==> id_char(#[trigger] s[i])
}

/// Four bytes long and made of ASCII digits only.
pub open spec fn valid_pin(s: Seq<char>) -> bool {
    encode_utf8(s).len() == 4 && forall|i: int| 0 <= i < s.len() ==> is_digit(#[trigger] s[i])
}

pub open spec fn is_digit(c: char) -> bool {
    '0' <= c <= '9'
}

/// Whether every character of `s` is an id character.
pub fn all_id_chars(s: &str) -> (r: bool)
    ensures
        r == forall|i: int| 0 <= i < s@.len() ==> id_char(#[trigger] s@[i]),
{
    let n = s.unicode_len();
    let mut i: usize = 0;
    while i < n
        invariant
            n == s@.len(),
            i <= n,
            forall|j: int| 0 <= j < i ==> id_char(#[trigger] s@[j]),
        decreases n - i,
    {
        let c = s.get_char(i);
        if !(('A' <= c && c <= 'Z') || ('2' <= c && c <= '9')) {
            return false;
        }
        i = i + 1;
    }
    true
}

/// Whether every character of `s` is an ASCII digit.
pub fn all_digits(s: &str) -> (r: bool)
    ensures
        r == forall|i: int| 0 <= i < s@.len() ==> is_digit(#[trigger] s@[i]),
{
    let n = s.unicode_len();
    let mut i: usize = 0;
    while i < n
        invariant
            n == s@.len(),
            i <= n,
            forall|j: int| 0 <= j < i ==> is_digit(#[trigger] s@[j]),
        decreases n - i,
    {
        let c = s.get_char(i);
        if !('0' <= c && c <= '9') {
            return false;
        }
        i = i + 1;
    }
    true
}

/// A string of `n` random characters drawn from `alphabet`.
pub fn random_string(alphabet: &str, n: usize) -> (r: String)
    requires
        0 < alphabet@.len() <= u32::MAX,
    ensures
        r@.len() == n,
        forall|i: int| 0 <= i < n ==> alphabet@.contains(#[trigger] r@[i]),
{
    let k = alphabet.unicode_len();
    let mut out = String::new();
    let mut i: usize = 0;
    while i < n
        invariant
            k == alphabet@.len(),
            0 < k <= u32::MAX,
            i <= n,
            out@.len() == i,
            forall|j: int| 0 <= j < i ==> alphabet@.contains(#[trigger] out@[j]),
        decreases n - i,
    {
        let idx = random_below(k as u32) as usize;
        let c = alphabet.get_char(idx);
        assert(alphabet@[idx as int] == c);
        push_char(&mut out, c);
        i = i + 1;
    }
    out
}

/// Characters that are all ASCII are encoded one byte each.
pub proof fn lemma_ascii_byte_len(s: Seq<char>)
    requires
        forall|i: int| 0 <= i < s.len() ==> (#[trigger] s[i] as u32) < 128,
    ensures
        encode_utf8(s).len() == s.len(),
    decreases s.len(),
{
    if s.len() > 0 {
        let rest = s.drop_first();
        assert forall|i: int| 0 <= i < rest.len() implies (#[trigger] rest[i] as u32) < 128 by {
            assert(rest[i] == s[i + 1]);
        }
        lemma_ascii_byte_len(rest);
        assert((s[0] as u32) < 128);
    }
}

/// 8-character device id.
#[derive(Debug, Clone, PartialEq, Eq, Hash)]
pub struct DeviceId(pub String);

impl DeviceId {
    /// A random 8-character id over the unambiguous alphabet.
    pub fn generate() -> (r: Self)
        ensures
            r.0@.len() == 8,
            forall|i: int| 0 <= i < 8 ==> id_alphabet().contains(#[trigger] r.0@[i]),
            valid_device_id(r.0@),
    {
        let alphabet = "ABCDEFGHJKLMNPQRSTUVWXYZ23456789";
        proof {
            reveal_strlit("ABCDEFGHJKLMNPQRSTUVWXYZ23456789");
        }
        let s = random_string(alphabet, 8);
        proof {
            assert forall|i: int| 0 <= i < s@.len() implies id_char(#[trigger] s@[i]) && (s@[i] as u32) < 128 by {
                let c = s@[i];
                assert(id_alphabet().contains(c));
                let j = choose|j: int| 0 <= j < id_alphabet().len() && id_alphabet()[j] == c;
                assert(id_char(id_alphabet()[j]));
            }
            lemma_ascii_byte_len(s@);
        }
        DeviceId(s)
    }

    /// Whether the id is eight bytes of `A`-`Z` and `2`-`9`.
    pub fn is_valid(&self) -> (r: bool)
        ensures
            r == valid_device_id(self.0@),
    {
        let s = self.0.as_str();
        s.as_bytes().len() == 8 && all_id_chars(s)
    }
}

impl Default for DeviceId {
    fn default() -> (r: Self)
        ensures
            valid_device_id(r.0@),
    {
        Self::generate()
    }
}

/// 4-digit PIN for device pairing.
#[derive(Debug, Clone, PartialEq, Eq)]
pub struct PinCode(pub String);

impl PinCode {
    /// A random 4-digit PIN.
    pub fn generate() -> (r: Self)
        ensures
            r.0@.len() == 4,
            valid_pin(r.0@),
    {
        let digits = "0123456789";
        proof {
            reveal_strlit("0123456789");
        }
        let s = random_string(digits, 4);
        proof {
            assert forall|i: int| 0 <= i < s@.len() implies is_digit(#[trigger] s@[i]) && (s@[i] as u32) < 128 by {
                let c = s@[i];
                let j = choose|j: int| 0 <= j < "0123456789"@.len() && "0123456789"@[j] == c;
                assert(is_digit("0123456789"@[j]));
            }
            lemma_ascii_byte_len(s@);
        }
        PinCode(s)
    }

    /// Whether the PIN is four bytes of ASCII digits.
    pub fn is_valid(&self) -> (r: bool)
        ensures
            r == valid_pin(self.0@),
    {
        let s = self.0.as_str();
        s.as_bytes().len() == 4 && all_digits(s)
    }
}

impl Default for PinCode {
    fn default() -> (r: Self)
        ensures
            valid_pin(r.0@),
    {
        Self::generate()
    }
}

/// Authentication session; times are milliseconds since the Unix epoch.
#[derive(Debug, Clone)]
pub struct AuthSession {
    pub device_id: DeviceId,
    pub pin: PinCode,
    pub session_key: Vec<u8>,
    pub created_at: u64,
    pub expires_at: u64,
}

impl AuthSession {
    /// Whether the session has expired by now.
    /// Whether the session has expired at the current time.
    pub fn is_expired(&self) -> (r: bool)
        ensures
            exists|now: u64| r == #[trigger] expired_after(self.expires_at, now),
    {
        let now = now_ms();
        let r = self.is_expired_at(now);
        assert(r == expired_after(self.expires_at, now));
        r
    }

    /// Whether the session has expired at time `now`: strictly after its expiry.
    pub fn is_expired_at(&self, now: u64) -> (r: bool)
        ensures
            r == (now > self.expires_at),
    {
        now > self.expires_at
    }
}

/// A deadline has passed at `now`: `now` is strictly later.
pub open spec fn expired_after(deadline: u64, now: u64) -> bool {
    now > deadline
}

/// Access credential for remote control; times are milliseconds since the Unix epoch.
#[derive(Debug, Clone)]
pub struct AccessCredential {
    pub device_id: DeviceId,
    pub access_pin: PinCode,
    pub allowed: bool,
    pub created_at: u64,
}

impl AccessCredential {
    /// The PIN matches and access is allowed.
    pub fn verify_pin(&self, pin: &PinCode) -> (r: bool)
        ensures
            r == (self.access_pin.0@ == pin.0@ && self.allowed),
    {
        str_eq(self.access_pin.0.as_str(), pin.0.as_str()) && self.allowed
    }
}

/// Lowercase hexadecimal digit for `d` < 16.
pub open spec fn hex_digit(d: int) -> char {
    if d < 10 {
        (d + 48) as char
    } else {
        (d + 87) as char
    }
}

/// Lowercase hexadecimal notation of bytes, two digits per byte.
pub open spec fn hex_lower(bytes: Seq<u8>) -> Seq<char>
    decreases bytes.len(),
{
    if bytes.len() == 0 {
        Seq::empty()
    } else {
        hex_lower(bytes.drop_last()) + seq![hex_digit((bytes.last() / 16) as int), hex_digit((bytes.last() % 16) as int)]
    }
}

/// Lowercase hexadecimal string of `bytes`.
pub fn to_hex_lower(bytes: &[u8]) -> (r: String)
    ensures
        r@ == hex_lower(bytes@),
        r@.len() == 2 * bytes@.len(),
{
    let mut out = String::new();
    let mut i: usize = 0;
    while i < bytes.len()
        invariant
            i <= bytes@.len(),
            out@ == hex_lower(bytes@.subrange(0, i as int)),
            out@.len() == 2 * i,
        decreases bytes@.len() - i,
    {
        let b = bytes[i];
        let hi = b / 16;
        let lo = b % 16;
        let ch = if hi < 10 { ((hi + 48) as u8) as char } else { ((hi + 87) as u8) as char };
        let cl = if lo < 10 { ((lo + 48) as u8) as char } else { ((lo + 87) as u8) as char };
        push_char(&mut out, ch);
        push_char(&mut out, cl);
        proof {
            let pre = bytes@.subrange(0, i + 1);
            assert(pre.drop_last() =~= bytes@.subrange(0, i as int));
        }
        i = i + 1;
    }
    assert(bytes@.subrange(0, bytes@.len() as int) =~= bytes@);
    out
}

/// Pairing hash for device verification: lowercase hex of
/// SHA-256(device_id || pin).
pub fn generate_pairing_hash(device_id: &str, pin: &str) -> (r: String)
    ensures
        r@ == hex_lower(spec_sha256(device_id.spec_bytes() + pin.spec_bytes())),
        r@.len() == 64,
{
    let mut input: Vec<u8> = Vec::new();
    push_slice(&mut input, device_id.as_bytes());
    push_slice(&mut input, pin.as_bytes());
    let digest = sha256(input.as_slice());
    to_hex_lower(digest.as_slice())
}

} // verus!
