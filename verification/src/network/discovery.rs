//! Devices found on the local network, keyed by device id.
use vstd::prelude::*;
use crate::keyed::{lemma_map_of_index, lemma_map_of_push, lemma_map_of_remove, lemma_map_of_update, map_of, unique_keys};
use crate::text::{str_eq, to_string};
use crate::wire::push_slice;

verus! {

#[derive(Debug, Clone)]
pub struct DiscoveredDevice {
    pub name: String,
    pub ip: String,
    pub port: u16,
    pub device_id: String,
    pub public_key: Vec<u8>,
}

/// Two device records with the same contents.
pub open spec fn same_device(a: DiscoveredDevice, b: DiscoveredDevice) -> bool {
    &&& a.name@ == b.name@
    &&& a.ip@ == b.ip@
    &&& a.port == b.port
    &&& a.device_id@ == b.device_id@
    &&& a.public_key@ == b.public_key@
}

impl DiscoveredDevice {
    pub fn new(name: &str, ip: &str, port: u16, device_id: &str, public_key: &[u8]) -> (r: Self)
        ensures
            r.name@ == name@,
            r.ip@ == ip@,
            r.port == port,
            r.device_id@ == device_id@,
            r.public_key@ == public_key@,
    {
        let mut key: Vec<u8> = Vec::new();
        push_slice(&mut key, public_key);
        DiscoveredDevice { name: to_string(name), ip: to_string(ip), port, device_id: to_string(device_id), public_key: key }
    }

    /// A copy of the record.
    pub fn duplicate(&self) -> (r: Self)
        ensures
            same_device(r, *self),
    {
        let mut key: Vec<u8> = Vec::new();
        push_slice(&mut key, self.public_key.as_slice());
        DiscoveredDevice {
            name: self.name.clone(),
            ip: self.ip.clone(),
            port: self.port,
            device_id: self.device_id.clone(),
            public_key: key,
        }
    }
}

/// The characters of each optional string.
pub open spec fn optional_texts(v: Seq<Option<String>>) -> Seq<Option<Seq<char>>> {
    v.map_values(|o: Option<String>| match o {
        Some(t) => Some(t@),
        None => None,
    })
}

/// For JSON text holding an array: for each element, the string under
/// `key` if the element is an object holding a string there. `None` when
/// the text is not a JSON array.
pub uninterp spec fn spec_json_string_fields(text: Seq<char>, key: Seq<char>) -> Option<Seq<Option<Seq<char>>>>;

/// `serde_json::from_str::<Vec<serde_json::Value>>`, then for each element
/// `Value::get(key)` and `Value::as_str`; the outcome, a function of the
/// text and key, is named `spec_json_string_fields`.
#[verifier::external_body]
fn json_string_fields(text: &str, key: &str) -> (r: Option<Vec<Option<String>>>)
    ensures
        match r {
            Some(v) => spec_json_string_fields(text@, key@) == Some(optional_texts(v@)),
            None => spec_json_string_fields(text@, key@) is None,
        },
{
    match serde_json::from_str::<Vec<serde_json::Value>>(text) {
        Ok(items) => Some(items.iter().map(|d| d.get(key).and_then(|v| v.as_str()).map(|t| t.to_string())).collect()),
        Err(_) => None,
    }
}

/// Some entry of `ids` is `device_id`.
pub open spec fn lists_id(ids: Seq<Option<Seq<char>>>, device_id: Seq<char>) -> bool {
    exists|i: int| 0 <= i < ids.len() && ids[i] == Some(device_id)
}

/// Whether the device ids read from a trust list include `device_id`.
pub fn trusted_in(ids: &Vec<Option<String>>, device_id: &str) -> (r: bool)
    ensures
        r == lists_id(optional_texts(ids@), device_id@),
{
    let mut i: usize = 0;
    while i < ids.len()
        invariant
            i <= ids@.len(),
            forall|j: int| 0 <= j < i ==> optional_texts(ids@)[j] != Some(device_id@),
        decreases ids@.len() - i,
    {
        match &ids[i] {
            Some(t) => {
                if str_eq(t.as_str(), device_id) {
                    assert(optional_texts(ids@)[i as int] == Some(device_id@));
                    return true;
                }
            },
            None => {},
        }
        i = i + 1;
    }
    false
}

/// Whether a trust file's text lists `device_id`: the text must be a JSON
/// array with an element whose `device_id` is that string. No file, or text
/// that is not such an array, trusts nobody.
pub open spec fn file_trusts(file: Option<Seq<char>>, device_id: Seq<char>) -> bool {
    match file {
        None => false,
        Some(text) => match spec_json_string_fields(text, "device_id"@) {
            None => false,
            Some(ids) => lists_id(ids, device_id),
        },
    }
}

/// Discovered devices are keyed by device id.
pub open spec fn discovered_key() -> spec_fn(DiscoveredDevice) -> Seq<char> {
    |d: DiscoveredDevice| d.device_id@
}

/// The devices found so far.
pub struct DiscoveryManager {
    services: Vec<DiscoveredDevice>,
}

impl DiscoveryManager {
    /// The records, in the order their ids were first seen.
    pub closed spec fn entries(&self) -> Seq<DiscoveredDevice> {
        self.services@
    }

    /// The devices by id.
    pub open spec fn view(&self) -> Map<Seq<char>, DiscoveredDevice> {
        map_of(self.entries(), discovered_key())
    }

    pub open spec fn wf(&self) -> bool {
        unique_keys(self.entries(), discovered_key())
    }

    pub fn new() -> (r: Self)
        ensures
            r.wf(),
            r.entries() == Seq::<DiscoveredDevice>::empty(),
    {
        DiscoveryManager { services: Vec::new() }
    }

    fn find(&self, id: &str) -> (r: Option<usize>)
        requires
            self.wf(),
        ensures
            r matches Some(i) ==> i < self.entries().len() && self.entries()[i as int].device_id@ == id@
                && self.view().contains_key(id@) && self.view()[id@] == self.entries()[i as int],
            r is None ==> !self.view().contains_key(id@),
    {
        let mut i: usize = 0;
        while i < self.services.len()
            invariant
                i <= self.services@.len(),
                self.wf(),
                forall|j: int| 0 <= j < i ==> self.services@[j].device_id@ != id@,
            decreases self.services@.len() - i,
        {
            if str_eq(self.services[i].device_id.as_str(), id) {
                assert((discovered_key())(self.services@[i as int]) == id@);
                proof {
                    lemma_map_of_index(self.entries(), discovered_key(), id@);
                }
                return Some(i);
            }
            i = i + 1;
        }
        assert(!(exists|j: int| 0 <= j < self.services@.len() && (discovered_key())(self.services@[j]) == id@)) by {
            if exists|j: int| 0 <= j < self.services@.len() && (discovered_key())(self.services@[j]) == id@ {
                let j = choose|j: int| 0 <= j < self.services@.len() && (discovered_key())(self.services@[j]) == id@;
                assert(self.services@[j].device_id@ != id@);
            }
        }
        proof {
            lemma_map_of_index(self.entries(), discovered_key(), id@);
        }
        None
    }

    /// Records a device, replacing any record with the same device id.
    pub fn add_device(&mut self, device: DiscoveredDevice)
        requires
            old(self).wf(),
        ensures
            final(self).wf(),
            final(self).view() == old(self).view().insert(device.device_id@, device),
    {
        match self.find(device.device_id.as_str()) {
            Some(i) => {
                proof {
                    lemma_map_of_update(self.services@, discovered_key(), i as int, device);
                }
                self.services.set(i, device);
            },
            None => {
                proof {
                    lemma_map_of_push(self.services@, discovered_key(), device);
                }
                self.services.push(device);
            },
        }
    }

    /// Forgets the device with `device_id`, if recorded.
    pub fn remove_device(&mut self, device_id: &str)
        requires
            old(self).wf(),
        ensures
            final(self).wf(),
            final(self).view() == old(self).view().remove(device_id@),
    {
        match self.find(device_id) {
            Some(i) => {
                proof {
                    lemma_map_of_remove(self.services@, discovered_key(), i as int);
                }
                self.services.remove(i);
            },
            None => {
                assert(self.view() =~= old(self).view().remove(device_id@));
            },
        }
    }

    /// Whether `device_id` is listed in the trusted-devices file, given the
    /// file's text (`None` when there is no such file).
    pub fn is_trusted(&self, trusted_file: Option<&str>, device_id: &str) -> (r: bool)
        ensures
            r == file_trusts(
                match trusted_file {
                    Some(t) => Some(t@),
                    None => None,
                },
                device_id@,
            ),
    {
        match trusted_file {
            None => false,
            Some(text) => match json_string_fields(text, "device_id") {
                None => false,
                Some(ids) => trusted_in(&ids, device_id),
            },
        }
    }

    /// Copies of all recorded devices: one per device id.
    pub fn get_devices(&self) -> (r: Vec<DiscoveredDevice>)
        requires
            self.wf(),
        ensures
            r@.len() == self.entries().len(),
            r@.len() == self.view().len(),
            forall|i: int| 0 <= i < r@.len() ==> same_device(#[trigger] r@[i], self.entries()[i]),
    {
        let mut out: Vec<DiscoveredDevice> = Vec::new();
        let mut i: usize = 0;
        while i < self.services.len()
            invariant
                i <= self.services@.len(),
                out@.len() == i,
                forall|j: int| 0 <= j < i ==> same_device(#[trigger] out@[j], self.services@[j]),
            decreases self.services@.len() - i,
        {
            out.push(self.services[i].duplicate());
            i = i + 1;
        }
        proof {
            lemma_map_len(self.entries());
        }
        out
    }
}

/// With distinct keys, the map has one entry per record.
proof fn lemma_map_len(s: Seq<DiscoveredDevice>)
    requires
        unique_keys(s, discovered_key()),
    ensures
        map_of(s, discovered_key()).len() == s.len(),
        map_of(s, discovered_key()).dom().finite(),
    decreases s.len(),
{
    if s.len() > 0 {
        let p = s.drop_last();
        assert(unique_keys(p, discovered_key())) by {
            assert forall|a: int, b: int| 0 <= a < p.len() && 0 <= b < p.len() && a != b implies (discovered_key())(#[trigger] p[a]) != (discovered_key())(#[trigger] p[b]) by {
                assert(p[a] == s[a] && p[b] == s[b]);
            }
        }
        lemma_map_len(p);
        lemma_map_of_index(p, discovered_key(), s.last().device_id@);
        if map_of(p, discovered_key()).contains_key(s.last().device_id@) {
            let j = choose|j: int| 0 <= j < p.len() && (discovered_key())(p[j]) == s.last().device_id@;
            assert(p[j] == s[j]);
            assert((discovered_key())(s[j]) != (discovered_key())(s[s.len() - 1]));
        }
    }
}

} // verus!
