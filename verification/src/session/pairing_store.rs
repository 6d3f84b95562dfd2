//! Store of issued pairing codes, keyed by code.
use vstd::prelude::*;
use crate::clock::utc_now_micros;
use crate::keyed::{lemma_map_of_index, lemma_map_of_push, lemma_map_of_remove, lemma_map_of_update, map_of, unique_keys};
use crate::session::pair_code::{valid_pair_code, PairCode, PAIR_CODE_TTL_MS};
use crate::text::{str_eq, to_string};

verus! {

/// One issued pairing code; times are milliseconds since the Unix epoch.
#[derive(Debug, Clone)]
pub struct PairingSession {
    pub code: PairCode,
    pub device_id: String,
    pub created_at: i64,
    pub expires_at: i64,
    pub verified: bool,
}

impl PairingSession {
    /// A copy of the session.
    pub fn duplicate(&self) -> (r: Self)
        ensures
            r == *self,
    {
        PairingSession {
            code: PairCode(self.code.0.clone()),
            device_id: self.device_id.clone(),
            created_at: self.created_at,
            expires_at: self.expires_at,
            verified: self.verified,
        }
    }
}

/// Sessions are keyed by their code.
pub open spec fn code_key() -> spec_fn(PairingSession) -> Seq<char> {
    |s: PairingSession| s.code.0@
}

/// Expiry of a code issued at `now`: five minutes later (the latest
/// representable time if that overflows).
pub open spec fn expiry_for(now: i64) -> i64 {
    if now > i64::MAX - PAIR_CODE_TTL_MS {
        i64::MAX
    } else {
        (now + PAIR_CODE_TTL_MS) as i64
    }
}

/// Whether a session is still usable at `now`.
pub open spec fn live_at(s: PairingSession, now: i64) -> bool {
    !(s.expires_at < now)
}

/// Store of pairing codes.
#[derive(Debug, Default)]
pub struct PairingStore {
    codes: Vec<PairingSession>,
}

impl PairingStore {
    pub closed spec fn entries(&self) -> Seq<PairingSession> {
        self.codes@
    }

    /// The sessions by code.
    pub open spec fn view(&self) -> Map<Seq<char>, PairingSession> {
        map_of(self.entries(), code_key())
    }

    pub open spec fn wf(&self) -> bool {
        unique_keys(self.entries(), code_key())
    }

    pub fn new() -> (r: Self)
        ensures
            r.wf(),
            r.view() == Map::<Seq<char>, PairingSession>::empty(),
    {
        PairingStore { codes: Vec::new() }
    }

    /// Index of the session with `code`, if any.
    fn find(&self, code: &str) -> (r: Option<usize>)
        requires
            self.wf(),
        ensures
            r matches Some(i) ==> i < self.entries().len() && self.entries()[i as int].code.0@ == code@
                && self.view().contains_key(code@) && self.view()[code@] == self.entries()[i as int],
            r is None ==> !self.view().contains_key(code@),
    {
        proof {
            lemma_map_of_index(self.entries(), code_key(), code@);
        }
        let mut i: usize = 0;
        while i < self.codes.len()
            invariant
                i <= self.codes@.len(),
                self.wf(),
                forall|j: int| 0 <= j < i ==> self.codes@[j].code.0@ != code@,
            decreases self.codes@.len() - i,
        {
            if str_eq(self.codes[i].code.0.as_str(), code) {
                assert((code_key())(self.codes@[i as int]) == code@);
                proof {
                    lemma_map_of_index(self.entries(), code_key(), code@);
                }
                return Some(i);
            }
            i = i + 1;
        }
        assert(!(exists|j: int| 0 <= j < self.codes@.len() && (code_key())(self.codes@[j]) == code@)) by {
            if exists|j: int| 0 <= j < self.codes@.len() && (code_key())(self.codes@[j]) == code@ {
                let j = choose|j: int| 0 <= j < self.codes@.len() && (code_key())(self.codes@[j]) == code@;
                assert(self.codes@[j].code.0@ != code@);
            }
        }
        proof {
            lemma_map_of_index(self.entries(), code_key(), code@);
        }
        None
    }

    /// Issues a new random 6-digit code for `device_id`, valid for five
    /// minutes, and returns it.
    pub fn generate_code(&mut self, device_id: &str) -> (r: String)
        requires
            old(self).wf(),
        ensures
            final(self).wf(),
            r@.len() == 6,
            valid_pair_code(r@),
            final(self).view() == old(self).view().insert(r@, final(self).view()[r@]),
            exists|now: i64| issued(#[trigger] final(self).view()[r@], r@, device_id@, now),
    {
        let code = PairCode::generate();
        let now = utc_now_micros() / 1000;
        let text = code.0.clone();
        self.register_code(code, device_id, now);
        text
    }

    /// Records `code` as issued to `device_id` at `now`, replacing any
    /// session with the same code.
    pub fn register_code(&mut self, code: PairCode, device_id: &str, now: i64)
        requires
            old(self).wf(),
        ensures
            final(self).wf(),
            final(self).view() == old(self).view().insert(code.0@, final(self).view()[code.0@]),
            issued(final(self).view()[code.0@], code.0@, device_id@, now),
    {
        let expires_at = if now > i64::MAX - PAIR_CODE_TTL_MS { i64::MAX } else { now + PAIR_CODE_TTL_MS };
        let ghost key = code.0@;
        let session = PairingSession { code, device_id: to_string(device_id), created_at: now, expires_at, verified: false };
        assert(session.code.0@ == key);
        match self.find(session.code.0.as_str()) {
            Some(i) => {
                proof {
                    lemma_map_of_update(self.codes@, code_key(), i as int, session);
                }
                self.codes.set(i, session);
            },
            None => {
                proof {
                    lemma_map_of_push(self.codes@, code_key(), session);
                }
                self.codes.push(session);
            },
        }
    }

    /// Verifies `code` for `device_id` now.
    pub fn verify_code(&mut self, code: &str, device_id: &str) -> (r: Option<String>)
        requires
            old(self).wf(),
        ensures
            final(self).wf(),
            exists|now: i64| #[trigger] verify_outcome(old(self).view(), code@, device_id@, now, r is Some, final(self).view()),
            r matches Some(id) ==> id@ == device_id@,
    {
        let now = utc_now_micros() / 1000;
        self.verify_code_at(code, device_id, now)
    }

    /// Verifies `code` for `device_id` at `now`. An expired code is dropped
    /// and refused; an unexpired, unverified code issued to the same device
    /// is marked verified and the device id returned; anything else is refused.
    pub fn verify_code_at(&mut self, code: &str, device_id: &str, now: i64) -> (r: Option<String>)
        requires
            old(self).wf(),
        ensures
            final(self).wf(),
            verify_outcome(old(self).view(), code@, device_id@, now, r is Some, final(self).view()),
            r matches Some(id) ==> id@ == device_id@,
    {
        match self.find(code) {
            None => None,
            Some(i) => {
                if self.codes[i].expires_at < now {
                    proof {
                        lemma_map_of_remove(self.codes@, code_key(), i as int);
                    }
                    self.codes.remove(i);
                    return None;
                }
                if str_eq(self.codes[i].device_id.as_str(), device_id) && !self.codes[i].verified {
                    let mut s = self.codes[i].duplicate();
                    s.verified = true;
                    proof {
                        lemma_map_of_update(self.codes@, code_key(), i as int, s);
                    }
                    self.codes.set(i, s);
                    return Some(to_string(device_id));
                }
                None
            },
        }
    }

    /// Whether `code` exists, is unexpired now and not yet verified.
    pub fn is_valid(&self, code: &str) -> (r: bool)
        requires
            self.wf(),
        ensures
            exists|now: i64| r == #[trigger] code_usable(self.view(), code@, now),
    {
        let now = utc_now_micros() / 1000;
        let r = self.is_valid_at(code, now);
        assert(r == code_usable(self.view(), code@, now));
        r
    }

    /// Whether `code` exists, is unexpired at `now` and not yet verified.
    pub fn is_valid_at(&self, code: &str, now: i64) -> (r: bool)
        requires
            self.wf(),
        ensures
            r == (self.view().contains_key(code@) && live_at(self.view()[code@], now) && !self.view()[code@].verified),
    {
        match self.find(code) {
            None => false,
            Some(i) => !(self.codes[i].expires_at < now) && !self.codes[i].verified,
        }
    }

    /// Drops the codes expired by now.
    pub fn cleanup(&mut self)
        requires
            old(self).wf(),
        ensures
            final(self).wf(),
            exists|now: i64| #[trigger] cleaned_at(old(self).view(), now, final(self).view()),
    {
        let now = utc_now_micros() / 1000;
        self.cleanup_at(now);
        assert(cleaned_at(old(self).view(), now, self.view()));
    }

    /// Drops the codes that have expired at `now`; the others stay as they are.
    pub fn cleanup_at(&mut self, now: i64)
        requires
            old(self).wf(),
        ensures
            final(self).wf(),
            forall|k: Seq<char>| #[trigger] final(self).view().contains_key(k) <==> (old(self).view().contains_key(k)
                && old(self).view()[k].expires_at >= now),
            forall|k: Seq<char>| #[trigger] final(self).view().contains_key(k) ==> final(self).view()[k] == old(self).view()[k],
    {
        let ghost old_entries = self.codes@;
        let mut kept: Vec<PairingSession> = Vec::new();
        let mut i: usize = 0;
        while i < self.codes.len()
            invariant
                self.codes@ == old_entries,
                unique_keys(old_entries, code_key()),
                i <= old_entries.len(),
                unique_keys(kept@, code_key()),
                forall|k: Seq<char>| #[trigger] map_of(kept@, code_key()).contains_key(k) <==> (map_of(old_entries.take(i as int), code_key()).contains_key(k)
                    && map_of(old_entries.take(i as int), code_key())[k].expires_at >= now),
                forall|k: Seq<char>| #[trigger] map_of(kept@, code_key()).contains_key(k) ==> map_of(kept@, code_key())[k]
                    == map_of(old_entries.take(i as int), code_key())[k],
            decreases old_entries.len() - i,
        {
            let ghost pre = old_entries.take(i as int);
            let ghost next = old_entries.take(i + 1);
            assert(next.drop_last() =~= pre);
            assert(next.last() == old_entries[i as int]);
            proof {
                let k = old_entries[i as int].code.0@;
                lemma_map_of_index(pre, code_key(), k);
                if map_of(pre, code_key()).contains_key(k) {
                    let j = choose|j: int| 0 <= j < pre.len() && (code_key())(pre[j]) == k;
                    assert(pre[j] == old_entries[j]);
                }
            }
            if self.codes[i].expires_at >= now {
                let s = self.codes[i].duplicate();
                proof {
                    lemma_map_of_push(kept@, code_key(), s);
                }
                kept.push(s);
            }
            i = i + 1;
        }
        assert(old_entries.take(old_entries.len() as int) =~= old_entries);
        self.codes = kept;
    }
}

/// A clean-up at `now` of the sessions `m` leaves `m2`: the sessions not yet
/// expired at `now`, unchanged.
pub open spec fn cleaned_at(m: Map<Seq<char>, PairingSession>, now: i64, m2: Map<Seq<char>, PairingSession>) -> bool {
    &&& forall|k: Seq<char>| #[trigger] m2.contains_key(k) <==> (m.contains_key(k) && m[k].expires_at >= now)
    &&& forall|k: Seq<char>| #[trigger] m2.contains_key(k) ==> m2[k] == m[k]
}

/// `code` is issued, unexpired at `now` and not yet verified.
pub open spec fn code_usable(m: Map<Seq<char>, PairingSession>, code: Seq<char>, now: i64) -> bool {
    m.contains_key(code) && live_at(m[code], now) && !m[code].verified
}

/// What verifying `code` for `device` at `now` does to the sessions `m`,
/// giving `m2`, and whether it is accepted. An expired code is dropped and
/// refused; an unexpired, unverified code issued to the same device is
/// marked verified and accepted; anything else is refused and changes nothing.
pub open spec fn verify_outcome(
    m: Map<Seq<char>, PairingSession>,
    code: Seq<char>,
    device: Seq<char>,
    now: i64,
    accepted: bool,
    m2: Map<Seq<char>, PairingSession>,
) -> bool {
    if !m.contains_key(code) {
        !accepted && m2 == m
    } else {
        let s = m[code];
        if !live_at(s, now) {
            !accepted && m2 == m.remove(code)
        } else if s.device_id@ == device && !s.verified {
            accepted && m2 == m.insert(code, PairingSession { verified: true, ..s })
        } else {
            !accepted && m2 == m
        }
    }
}

/// A code is accepted at most once: after an accepted verification, any
/// later verification of the same code, for any device at any time, is refused.
pub proof fn code_verifies_once(
    m: Map<Seq<char>, PairingSession>,
    m2: Map<Seq<char>, PairingSession>,
    m3: Map<Seq<char>, PairingSession>,
    code: Seq<char>,
    device: Seq<char>,
    other_device: Seq<char>,
    now: i64,
    later: i64,
    second: bool,
)
    requires
        verify_outcome(m, code, device, now, true, m2),
        verify_outcome(m2, code, other_device, later, second, m3),
    ensures
        !second,
{
}

/// A code issued to a device is accepted for that device until it expires,
/// five minutes after issue.
pub proof fn issued_code_verifies(
    m: Map<Seq<char>, PairingSession>,
    m2: Map<Seq<char>, PairingSession>,
    code: Seq<char>,
    device: Seq<char>,
    issued_at: i64,
    now: i64,
    accepted: bool,
)
    requires
        m.contains_key(code),
        issued(m[code], code, device, issued_at),
        now <= expiry_for(issued_at),
        verify_outcome(m, code, device, now, accepted, m2),
    ensures
        accepted,
        m2[code].verified,
{
}

/// A code issued to `device` at `t` (as `register_code` and `generate_code`
/// leave it) is accepted for that device at any time within its five-minute
/// lifetime, and after that acceptance it is refused for every device, at
/// every time.
pub proof fn pairing_code_law(
    m: Map<Seq<char>, PairingSession>,
    code: Seq<char>,
    device: Seq<char>,
    t: i64,
    now: i64,
    first: bool,
    m2: Map<Seq<char>, PairingSession>,
    any_device: Seq<char>,
    later: i64,
    second: bool,
    m3: Map<Seq<char>, PairingSession>,
)
    requires
        m.contains_key(code),
        issued(m[code], code, device, t),
        now <= t + PAIR_CODE_TTL_MS,
        verify_outcome(m, code, device, now, first, m2),
        verify_outcome(m2, code, any_device, later, second, m3),
    ensures
        first,
        !second,
        spent(m3, code),
{
}

/// `code` can no longer be accepted: it is gone or already verified.
pub open spec fn spent(m: Map<Seq<char>, PairingSession>, code: Seq<char>) -> bool {
    !m.contains_key(code) || m[code].verified
}

/// Once spent, a code stays spent under any number of verifications, each
/// of them refused, whatever the device and the time.
pub proof fn spent_code_stays_refused(
    m: Map<Seq<char>, PairingSession>,
    code: Seq<char>,
    device: Seq<char>,
    now: i64,
    accepted: bool,
    m2: Map<Seq<char>, PairingSession>,
)
    requires
        spent(m, code),
        verify_outcome(m, code, device, now, accepted, m2),
    ensures
        !accepted,
        spent(m2, code),
{
}

/// A code is refused for any device other than the one it was issued to.
pub proof fn code_bound_to_device(
    m: Map<Seq<char>, PairingSession>,
    m2: Map<Seq<char>, PairingSession>,
    code: Seq<char>,
    device: Seq<char>,
    other_device: Seq<char>,
    issued_at: i64,
    now: i64,
    accepted: bool,
)
    requires
        m.contains_key(code),
        issued(m[code], code, device, issued_at),
        other_device != device,
        verify_outcome(m, code, other_device, now, accepted, m2),
    ensures
        !accepted,
{
}

/// `s` is the session recorded when `code` is issued to `device` at `now`.
pub open spec fn issued(s: PairingSession, code: Seq<char>, device: Seq<char>, now: i64) -> bool {
    &&& s.code.0@ == code
    &&& s.device_id@ == device
    &&& s.created_at == now
    &&& s.expires_at == expiry_for(now)
    &&& !s.verified
}

/// Connection state after pairing; `paired_at` is in milliseconds since the epoch.
#[derive(Debug, Clone)]
pub struct PairedConnection {
    pub device_id: String,
    pub session_key: Vec<u8>,
    pub remote_public_key: [u8; 32],
    pub paired_at: i64,
}

/// A pairing expires once more than sixty whole minutes have passed.
pub open spec fn pairing_expired(paired_at: i64, now: i64) -> bool {
    now - paired_at >= 61 * 60_000
}

impl PairedConnection {
    /// Whether the pairing has expired at the current time.
    pub fn is_expired(&self) -> (r: bool)
        ensures
            exists|now: i64| r == pairing_expired(self.paired_at, now),
    {
        let now = utc_now_micros() / 1000;
        self.is_expired_at(now)
    }

    /// Whether the pairing has expired at `now`: more than sixty whole minutes old.
    pub fn is_expired_at(&self, now: i64) -> (r: bool)
        ensures
            r == pairing_expired(self.paired_at, now),
    {
        (now as i128) - (self.paired_at as i128) >= 61 * 60_000
    }
}

} // verus!
