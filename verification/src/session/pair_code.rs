//! 6-digit pairing codes.
use vstd::prelude::*;
use vstd::string::StringSliceAdditionalSpecFns;
use vstd::utf8::{encode_utf8, is_char_boundary};
use crate::auth::{all_digits, is_digit, lemma_ascii_byte_len, random_string};
use crate::clock::utc_now_micros;
use crate::text::{push_char, push_str, to_string};

verus! {

/// Six bytes long and made of ASCII digits only.
pub open spec fn valid_pair_code(s: Seq<char>) -> bool {
    encode_utf8(s).len() == 6 && forall|i: int| 0 <= i < s.len() ==> is_digit(#[trigger] s[i])
}

/// Lifetime of a pairing code, in milliseconds.
pub const PAIR_CODE_TTL_MS: i64 = 300_000;

/// A code created at `created_ms` has expired at `now_ms` once five whole
/// minutes have passed.
pub open spec fn code_expired(created_ms: i64, now_ms: i64) -> bool {
    now_ms - created_ms >= PAIR_CODE_TTL_MS
}

/// UTF-8 encoding distributes over concatenation.
pub proof fn lemma_encode_concat(a: Seq<char>, b: Seq<char>)
    ensures
        encode_utf8(a + b) == encode_utf8(a) + encode_utf8(b),
    decreases a.len(),
{
    if a.len() == 0 {
        assert(a + b =~= b);
    } else {
        assert((a + b).drop_first() =~= a.drop_first() + b);
        lemma_encode_concat(a.drop_first(), b);
        assert(encode_utf8(a + b) =~= encode_utf8(a) + encode_utf8(b));
    }
}

/// 6-digit numeric pairing code.
#[derive(Debug, Clone, PartialEq, Eq, Hash)]
pub struct PairCode(pub String);

impl PairCode {
    /// A random 6-digit code.
    pub fn generate() -> (r: Self)
        ensures
            r.0@.len() == 6,
            valid_pair_code(r.0@),
    {
        let digits = "0123456789";
        proof {
            reveal_strlit("0123456789");
        }
        let s = random_string(digits, 6);
        proof {
            assert forall|i: int| 0 <= i < s@.len() implies is_digit(#[trigger] s@[i]) && (s@[i] as u32) < 128 by {
                let c = s@[i];
                let j = choose|j: int| 0 <= j < "0123456789"@.len() && "0123456789"@[j] == c;
                assert(is_digit("0123456789"@[j]));
            }
            lemma_ascii_byte_len(s@);
        }
        PairCode(s)
    }

    /// Exactly six bytes, all ASCII digits.
    pub fn is_valid(&self) -> (r: bool)
        ensures
            r == valid_pair_code(self.0@),
    {
        let s = self.0.as_str();
        s.as_bytes().len() == 6 && all_digits(s)
    }

    /// Whether a code created at `created_ms` (milliseconds since the epoch)
    /// has expired at the current time.
    pub fn is_expired(&self, created_ms: i64) -> (r: bool)
        ensures
            exists|now: i64| r == code_expired(created_ms, now),
    {
        let now = utc_now_micros() / 1000;
        self.is_expired_at(created_ms, now)
    }

    /// Whether a code created at `created_ms` has expired at `now_ms`: five
    /// minutes or more have passed.
    pub fn is_expired_at(&self, created_ms: i64, now_ms: i64) -> (r: bool)
        ensures
            r == code_expired(created_ms, now_ms),
    {
        (now_ms as i128) - (created_ms as i128) >= PAIR_CODE_TTL_MS as i128
    }

    /// The code with a dash after its first three bytes: "123456" -> "123-456".
    pub fn display(&self) -> (r: String)
        requires
            is_char_boundary(encode_utf8(self.0@), 3),
            encode_utf8(self.0@).len() >= 3,
        ensures
            encode_utf8(r@) == encode_utf8(self.0@).subrange(0, 3) + seq![0x2Du8] + encode_utf8(
                self.0@,
            ).subrange(3, encode_utf8(self.0@).len() as int),
    {
        let s = self.0.as_str();
        let (a, b) = s.split_at(3);
        let mut out = to_string(a);
        push_char(&mut out, '-');
        push_str(&mut out, b);
        proof {
            lemma_encode_concat(a@.push('-'), b@);
            lemma_encode_concat(a@, seq!['-']);
            assert(a@.push('-') =~= a@ + seq!['-']);
            assert(encode_utf8(seq!['-']) =~= seq![0x2Du8]) by {
                reveal_with_fuel(encode_utf8, 2);
                assert(('-' as u32) == 0x2Du32);
                assert((0x2Du32 & 0x7F) as u8 == 0x2Du8) by (bit_vector);
                assert(seq!['-'].drop_first() =~= Seq::<char>::empty());
            }
        }
        out
    }
}

impl Default for PairCode {
    fn default() -> (r: Self)
        ensures
            valid_pair_code(r.0@),
    {
        Self::generate()
    }
}

} // verus!
