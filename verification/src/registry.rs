//! The table of devices that the current scan has found.
//!
//! The table is modelled as the sequence of its entries, in the order in
//! which their addresses were first seen. No two entries share an address.

use vstd::prelude::*;
use crate::device::{text_of, Device, DeviceId, DeviceView};

verus! {

/// No two entries share an address.
pub open spec fn distinct_addresses(entries: Seq<DeviceView>) -> bool {
    forall|i: int, j: int|
        0 <= i < entries.len() && 0 <= j < entries.len() && i != j
            ==> (#[trigger] entries[i]).address != (#[trigger] entries[j]).address
}

/// Whether `entries[i]` is an entry for `address`.
pub open spec fn is_slot(entries: Seq<DeviceView>, address: Seq<char>, i: int) -> bool {
    0 <= i < entries.len() && entries[i].address == address
}

/// Whether some entry has this address.
pub open spec fn known(entries: Seq<DeviceView>, address: Seq<char>) -> bool {
    exists|i: int| is_slot(entries, address, i)
}

/// Where the entry for this address stands, if there is one.
pub open spec fn slot(entries: Seq<DeviceView>, address: Seq<char>) -> int {
    choose|i: int| is_slot(entries, address, i)
}

/// The entry for this address.
pub open spec fn lookup(entries: Seq<DeviceView>, address: Seq<char>) -> Option<DeviceView> {
    if known(entries, address) {
        Some(entries[slot(entries, address)])
    } else {
        None
    }
}

/// The entries after `device` was reported: an entry with the same address is
/// replaced where it stands, a new address is added at the end.
pub open spec fn upsert(entries: Seq<DeviceView>, device: DeviceView) -> Seq<DeviceView> {
    if known(entries, device.address) {
        entries.update(slot(entries, device.address), device)
    } else {
        entries.push(device)
    }
}

/// The entries after a name was fetched for `address`.
pub open spec fn with_fetched_name(
    entries: Seq<DeviceView>,
    address: Seq<char>,
    fetched: Option<Seq<char>>,
) -> Seq<DeviceView> {
    if known(entries, address) {
        let i = slot(entries, address);
        entries.update(i, entries[i].resolved(fetched))
    } else {
        entries
    }
}

/// Among distinct addresses an entry's index is the slot of its address.
pub proof fn lemma_slot_is_unique(entries: Seq<DeviceView>, i: int)
    requires
        distinct_addresses(entries),
        0 <= i < entries.len(),
    ensures
        known(entries, entries[i].address),
        slot(entries, entries[i].address) == i,
{
    assert(is_slot(entries, entries[i].address, i));
}

/// Reporting a device keeps the addresses distinct, makes the device the entry
/// for its address and leaves every other address as it was.
pub proof fn lemma_upsert(entries: Seq<DeviceView>, device: DeviceView)
    requires
        distinct_addresses(entries),
    ensures
        distinct_addresses(upsert(entries, device)),
        lookup(upsert(entries, device), device.address) == Some(device),
        forall|other: Seq<char>|
            other != device.address ==> lookup(upsert(entries, device), other) == lookup(
                entries,
                other,
            ),
        upsert(entries, device).len() == entries.len() + if known(entries, device.address) {
            0int
        } else {
            1int
        },
{
    let after = upsert(entries, device);
    if known(entries, device.address) {
        let k = slot(entries, device.address);
        assert(is_slot(entries, device.address, k));
        assert forall|i: int, j: int|
            0 <= i < after.len() && 0 <= j < after.len() && i != j implies (#[trigger] after[i]).address
            != (#[trigger] after[j]).address by {
            assert(after[i].address == entries[i].address);
            assert(after[j].address == entries[j].address);
        }
        lemma_slot_is_unique(after, k);
        assert forall|other: Seq<char>| other != device.address implies lookup(after, other)
            == lookup(entries, other) by {
            lemma_same_addresses_same_slots(entries, after, other);
            if known(entries, other) {
                assert(is_slot(entries, other, slot(entries, other)));
            }
        }
    } else {
        let k = entries.len() as int;
        assert forall|i: int, j: int|
            0 <= i < after.len() && 0 <= j < after.len() && i != j implies (#[trigger] after[i]).address
            != (#[trigger] after[j]).address by {
            if i < k {
                assert(!is_slot(entries, device.address, i));
            }
            if j < k {
                assert(!is_slot(entries, device.address, j));
            }
        }
        lemma_slot_is_unique(after, k);
        assert forall|other: Seq<char>| other != device.address implies lookup(after, other)
            == lookup(entries, other) by {
            if known(entries, other) {
                let o = slot(entries, other);
                assert(is_slot(entries, other, o));
                assert(is_slot(after, other, o));
                lemma_slot_is_unique(after, o);
            } else {
                if known(after, other) {
                    let o = slot(after, other);
                    assert(is_slot(after, other, o));
                    assert(is_slot(entries, other, o));
                }
            }
        }
    }
}

/// Two tables with the same addresses at the same places have the same slots.
pub proof fn lemma_same_addresses_same_slots(
    before: Seq<DeviceView>,
    after: Seq<DeviceView>,
    address: Seq<char>,
)
    requires
        before.len() == after.len(),
        forall|i: int| 0 <= i < before.len() ==> (#[trigger] before[i]).address == after[i].address,
        distinct_addresses(before),
        distinct_addresses(after),
    ensures
        known(before, address) == known(after, address),
        known(before, address) ==> slot(before, address) == slot(after, address),
{
    assert forall|i: int| is_slot(before, address, i) == is_slot(after, address, i) by {
        if 0 <= i < before.len() {
            assert(before[i].address == after[i].address);
        }
    }
    if known(before, address) {
        let o = slot(before, address);
        assert(is_slot(before, address, o));
        assert(is_slot(after, address, o));
        lemma_slot_is_unique(after, o);
    } else if known(after, address) {
        let o = slot(after, address);
        assert(is_slot(after, address, o));
        assert(is_slot(before, address, o));
    }
}

/// Fetching a name changes no address: the addresses stay distinct, and
/// every address is known as before.
pub proof fn lemma_with_fetched_name(
    entries: Seq<DeviceView>,
    address: Seq<char>,
    fetched: Option<Seq<char>>,
)
    requires
        distinct_addresses(entries),
    ensures
        distinct_addresses(with_fetched_name(entries, address, fetched)),
        with_fetched_name(entries, address, fetched).len() == entries.len(),
        forall|other: Seq<char>|
            known(with_fetched_name(entries, address, fetched), other) == known(entries, other),
        lookup(with_fetched_name(entries, address, fetched), address) == match lookup(
            entries,
            address,
        ) {
            Some(device) => Some(device.resolved(fetched)),
            None => None,
        },
{
    let after = with_fetched_name(entries, address, fetched);
    if known(entries, address) {
        let k = slot(entries, address);
        assert(is_slot(entries, address, k));
        assert forall|i: int| 0 <= i < entries.len() implies (#[trigger] entries[i]).address
            == after[i].address by {}
        assert forall|i: int, j: int|
            0 <= i < after.len() && 0 <= j < after.len() && i != j implies (#[trigger] after[i]).address
            != (#[trigger] after[j]).address by {
            assert(after[i].address == entries[i].address);
            assert(after[j].address == entries[j].address);
        }
        assert forall|other: Seq<char>| known(after, other) == known(entries, other) by {
            lemma_same_addresses_same_slots(entries, after, other);
        }
        lemma_same_addresses_same_slots(entries, after, address);
    }
}

/// Reporting the same address a second time replaces the entry where it
/// stands: the table does not grow, and the later report is what a lookup finds.
pub proof fn lemma_insert_twice_updates_in_place(
    entries: Seq<DeviceView>,
    first: DeviceView,
    second: DeviceView,
)
    requires
        distinct_addresses(entries),
        first.address == second.address,
    ensures
        upsert(upsert(entries, first), second).len() == upsert(entries, first).len(),
        upsert(upsert(entries, first), second) == upsert(entries, first).update(
            slot(upsert(entries, first), first.address),
            second,
        ),
        upsert(upsert(entries, first), second) == upsert(entries, second),
        lookup(upsert(upsert(entries, first), second), second.address) == Some(second),
{
    lemma_upsert(entries, first);
    let once = upsert(entries, first);
    assert(known(once, second.address));
    lemma_upsert(once, second);
    let k = slot(once, first.address);
    assert(is_slot(once, first.address, k));
    if known(entries, first.address) {
        let e = slot(entries, first.address);
        assert(is_slot(entries, first.address, e));
        assert(is_slot(once, first.address, e));
        lemma_slot_is_unique(once, e);
        assert(once.update(k, second) =~= entries.update(e, second));
    } else {
        lemma_slot_is_unique(once, entries.len() as int);
        assert(once.update(k, second) =~= entries.push(second));
    }
}

/// The devices found since the scan began, each under its address.
pub struct DeviceRegistry {
    devices: Vec<Device>,
}

impl View for DeviceRegistry {
    type V = Seq<DeviceView>;

    closed spec fn view(&self) -> Seq<DeviceView> {
        self.devices@.map_values(|d: Device| d@)
    }
}

impl DeviceRegistry {
    /// What holds of every registry: no two devices share an address.
    #[verifier::type_invariant]
    pub open spec fn well_formed(&self) -> bool {
        distinct_addresses(self@)
    }

    /// A registry without devices.
    pub fn new() -> (registry: DeviceRegistry)
        ensures
            registry@ == Seq::<DeviceView>::empty(),
            distinct_addresses(registry@),
    {
        let registry = DeviceRegistry { devices: Vec::new() };
        assert(registry@ =~= Seq::<DeviceView>::empty());
        registry
    }

    /// The number of devices known.
    pub fn len(&self) -> (count: usize)
        ensures
            count == self@.len(),
            distinct_addresses(self@),
    {
        proof {
            use_type_invariant(self);
        }
        self.devices.len()
    }

    /// Where the entry for `address` stands.
    fn position(&self, address: &String) -> (found: Option<usize>)
        ensures
            distinct_addresses(self@),
            match found {
                Some(i) => known(self@, address@) && slot(self@, address@) == i && i
                    < self@.len(),
                None => !known(self@, address@),
            },
    {
        proof {
            use_type_invariant(self);
        }
        let mut i: usize = 0;
        while i < self.devices.len()
            invariant
                i <= self.devices.len(),
                distinct_addresses(self@),
                forall|j: int| 0 <= j < i ==> !is_slot(self@, address@, j),
            decreases self.devices.len() - i,
        {
            if self.devices[i].address == *address {
                proof {
                    assert(is_slot(self@, address@, i as int));
                    lemma_slot_is_unique(self@, i as int);
                }
                return Some(i);
            }
            i += 1;
        }
        None
    }

    /// Whether a device with this identifier is known.
    pub fn contains(&self, id: &DeviceId) -> (present: bool)
        ensures
            present == known(self@, id@),
    {
        self.position(id.text()).is_some()
    }

    /// Takes in a device that the scan reported. A device already known under
    /// the same address is replaced by the new report.
    pub fn insert(&mut self, device: Device)
        ensures
            final(self)@ == upsert(old(self)@, device@),
            distinct_addresses(final(self)@),
    {
        let found = self.position(&device.address);
        proof {
            lemma_upsert(self@, device@);
        }
        let mut devices = Vec::new();
        std::mem::swap(&mut devices, &mut self.devices);
        match found {
            Some(i) => {
                devices[i] = device;
            },
            None => {
                devices.push(device);
            },
        }
        proof {
            assert(devices@.map_values(|d: Device| d@) =~= upsert(old(self)@, device@));
        }
        self.devices = devices;
    }

    /// The device known under this identifier.
    pub fn get(&self, id: &DeviceId) -> (device: Option<Device>)
        ensures
            match device {
                Some(d) => lookup(self@, id@) == Some(d@),
                None => lookup(self@, id@) is None,
            },
    {
        match self.position(id.text()) {
            Some(i) => Some(self.devices[i].clone()),
            None => None,
        }
    }

    /// Takes in the name that was fetched for a device. A device that already
    /// has a name keeps it, and an unknown identifier changes nothing.
    pub fn resolve_name(&mut self, id: &DeviceId, fetched: Option<String>)
        ensures
            final(self)@ == with_fetched_name(old(self)@, id@, text_of(fetched)),
            distinct_addresses(final(self)@),
    {
        let found = self.position(id.text());
        if let Some(i) = found {
            let mut devices = Vec::new();
            std::mem::swap(&mut devices, &mut self.devices);
            let mut device = devices[i].clone();
            device.update_name(fetched);
            devices[i] = device;
            proof {
                let after = devices@.map_values(|d: Device| d@);
                assert(after =~= with_fetched_name(old(self)@, id@, text_of(fetched)));
                assert forall|a: int, b: int|
                    0 <= a < after.len() && 0 <= b < after.len() && a != b implies (
                #[trigger] after[a]).address != (#[trigger] after[b]).address by {
                    assert(after[a].address == old(self)@[a].address);
                    assert(after[b].address == old(self)@[b].address);
                }
            }
            self.devices = devices;
        }
    }

    /// Forgets every device, as a new scan does.
    pub fn clear(&mut self)
        ensures
            final(self)@ == Seq::<DeviceView>::empty(),
            distinct_addresses(final(self)@),
    {
        let devices = Vec::new();
        proof {
            assert(devices@.map_values(|d: Device| d@) =~= Seq::<DeviceView>::empty());
        }
        self.devices = devices;
    }

    /// A copy of every device known, in the order of the table.
    pub fn snapshot(&self) -> (devices: Vec<Device>)
        ensures
            devices@.map_values(|d: Device| d@) == self@,
    {
        let mut copies: Vec<Device> = Vec::new();
        let mut i: usize = 0;
        while i < self.devices.len()
            invariant
                i <= self.devices.len(),
                copies@.len() == i,
                forall|j: int| 0 <= j < i ==> (#[trigger] copies@[j])@ == self.devices@[j]@,
            decreases self.devices.len() - i,
        {
            copies.push(self.devices[i].clone());
            i += 1;
        }
        proof {
            assert(copies@.map_values(|d: Device| d@) =~= self@);
        }
        copies
    }
}

} // verus!
