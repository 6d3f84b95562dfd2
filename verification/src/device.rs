//! Device identities and the set of trusted devices.
use vstd::prelude::*;
use crate::keyed::{lemma_map_of_index, lemma_map_of_push, lemma_map_of_update, map_of, unique_keys};
use crate::text::{str_eq, to_string};

verus! {

/// A known device.
#[derive(Debug, Clone)]
pub struct DeviceInfo {
    pub id: String,
    pub name: String,
    pub platform: String,
    pub public_key: Vec<u8>,
    pub paired_with: Vec<String>,
    pub last_connected: Option<String>,
}

/// Devices are keyed by their id.
pub open spec fn device_key() -> spec_fn(DeviceInfo) -> Seq<char> {
    |d: DeviceInfo| d.id@
}

/// Known devices by id, and the ids of trusted devices.
#[derive(Debug)]
pub struct DeviceStore {
    devices: Vec<DeviceInfo>,
    trusted_devices: Vec<String>,
}

impl DeviceStore {
    pub closed spec fn entries(&self) -> Seq<DeviceInfo> {
        self.devices@
    }

    /// The registered devices by id.
    pub open spec fn view(&self) -> Map<Seq<char>, DeviceInfo> {
        map_of(self.entries(), device_key())
    }

    /// The trusted ids, in the order they were added.
    pub closed spec fn trusted(&self) -> Seq<Seq<char>> {
        self.trusted_devices@.map_values(|s: String| s@)
    }

    /// Device ids are distinct and no id is trusted twice.
    pub open spec fn wf(&self) -> bool {
        &&& unique_keys(self.entries(), device_key())
        &&& self.trusted().no_duplicates()
    }

    pub fn new() -> (r: Self)
        ensures
            r.wf(),
            r.view() == Map::<Seq<char>, DeviceInfo>::empty(),
            r.trusted() == Seq::<Seq<char>>::empty(),
    {
        let r = DeviceStore { devices: Vec::new(), trusted_devices: Vec::new() };
        assert(r.trusted() =~= Seq::<Seq<char>>::empty());
        r
    }

    fn find(&self, id: &str) -> (r: Option<usize>)
        requires
            self.wf(),
        ensures
            r matches Some(i) ==> i < self.entries().len() && self.entries()[i as int].id@ == id@
                && self.view().contains_key(id@) && self.view()[id@] == self.entries()[i as int],
            r is None ==> !self.view().contains_key(id@),
    {
        let mut i: usize = 0;
        while i < self.devices.len()
            invariant
                i <= self.devices@.len(),
                self.wf(),
                forall|j: int| 0 <= j < i ==> self.devices@[j].id@ != id@,
            decreases self.devices@.len() - i,
        {
            if str_eq(self.devices[i].id.as_str(), id) {
                assert((device_key())(self.devices@[i as int]) == id@);
                proof {
                    lemma_map_of_index(self.entries(), device_key(), id@);
                }
                return Some(i);
            }
            i = i + 1;
        }
        assert(!(exists|j: int| 0 <= j < self.devices@.len() && (device_key())(self.devices@[j]) == id@)) by {
            if exists|j: int| 0 <= j < self.devices@.len() && (device_key())(self.devices@[j]) == id@ {
                let j = choose|j: int| 0 <= j < self.devices@.len() && (device_key())(self.devices@[j]) == id@;
                assert(self.devices@[j].id@ != id@);
            }
        }
        proof {
            lemma_map_of_index(self.entries(), device_key(), id@);
        }
        None
    }

    /// Registers a device under its id, replacing any device with that id.
    pub fn register(&mut self, device: DeviceInfo)
        requires
            old(self).wf(),
        ensures
            final(self).wf(),
            final(self).view() == old(self).view().insert(device.id@, device),
            final(self).trusted() == old(self).trusted(),
    {
        match self.find(device.id.as_str()) {
            Some(i) => {
                proof {
                    lemma_map_of_update(self.devices@, device_key(), i as int, device);
                }
                self.devices.set(i, device);
            },
            None => {
                proof {
                    lemma_map_of_push(self.devices@, device_key(), device);
                }
                self.devices.push(device);
            },
        }
    }

    /// The device registered under `id`, if any.
    pub fn get(&self, id: &str) -> (r: Option<&DeviceInfo>)
        requires
            self.wf(),
        ensures
            r is Some <==> self.view().contains_key(id@),
            r matches Some(d) ==> *d == self.view()[id@],
    {
        match self.find(id) {
            Some(i) => Some(&self.devices[i]),
            None => None,
        }
    }

    /// Whether `device_id` is trusted.
    pub fn is_trusted(&self, device_id: &str) -> (r: bool)
        ensures
            r == self.trusted().contains(device_id@),
    {
        let mut i: usize = 0;
        while i < self.trusted_devices.len()
            invariant
                i <= self.trusted_devices@.len(),
                forall|j: int| 0 <= j < i ==> self.trusted_devices@[j]@ != device_id@,
            decreases self.trusted_devices@.len() - i,
        {
            if str_eq(self.trusted_devices[i].as_str(), device_id) {
                assert(self.trusted()[i as int] == device_id@);
                return true;
            }
            i = i + 1;
        }
        assert(!self.trusted().contains(device_id@)) by {
            if self.trusted().contains(device_id@) {
                let j = choose|j: int| 0 <= j < self.trusted().len() && self.trusted()[j] == device_id@;
                assert(self.trusted_devices@[j]@ == device_id@);
            }
        }
        false
    }

    /// Trusts `device_id`; an id already trusted is not added again.
    pub fn add_trusted(&mut self, device_id: &str)
        requires
            old(self).wf(),
        ensures
            final(self).wf(),
            final(self).view() == old(self).view(),
            final(self).trusted() == trust_step(old(self).trusted(), device_id@),
    {
        if !self.is_trusted(device_id) {
            let ghost before = self.trusted();
            self.trusted_devices.push(to_string(device_id));
            assert(self.trusted() =~= before.push(device_id@));
        }
    }
}

impl Default for DeviceStore {
    fn default() -> (r: Self)
        ensures
            r.wf(),
            r.view() == Map::<Seq<char>, DeviceInfo>::empty(),
            r.trusted() == Seq::<Seq<char>>::empty(),
    {
        Self::new()
    }
}

/// The trusted ids after trusting `id`: unchanged if already trusted,
/// else `id` appended.
pub open spec fn trust_step(trusted: Seq<Seq<char>>, id: Seq<char>) -> Seq<Seq<char>> {
    if trusted.contains(id) {
        trusted
    } else {
        trusted.push(id)
    }
}

/// After trusting a device it is trusted, every device trusted before
/// still is, and trusting it again changes nothing.
pub proof fn trust_laws(trusted: Seq<Seq<char>>, id: Seq<char>)
    ensures
        trust_step(trusted, id).contains(id),
        forall|other: Seq<char>| trusted.contains(other) ==> #[trigger] trust_step(trusted, id).contains(other),
        trust_step(trust_step(trusted, id), id) == trust_step(trusted, id),
{
    if !trusted.contains(id) {
        assert(trusted.push(id)[trusted.len() as int] == id);
        assert forall|other: Seq<char>| trusted.contains(other) implies #[trigger] trust_step(trusted, id).contains(other) by {
            let j = choose|j: int| 0 <= j < trusted.len() && trusted[j] == other;
            assert(trusted.push(id)[j] == other);
        }
    }
}

/// A registered device is found again under its id, and registering it
/// leaves the other devices as they were.
pub proof fn register_then_get(devices: Map<Seq<char>, DeviceInfo>, device: DeviceInfo, other: Seq<char>)
    ensures
        devices.insert(device.id@, device).contains_key(device.id@),
        devices.insert(device.id@, device)[device.id@] == device,
        other != device.id@ ==> (devices.insert(device.id@, device).contains_key(other) == devices.contains_key(other)),
        other != device.id@ && devices.contains_key(other) ==> devices.insert(device.id@, device)[other] == devices[other],
{
}

} // verus!
