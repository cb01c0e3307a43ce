//! Devices as the scan reports them, and the identifier that names one.

use vstd::prelude::*;
use vstd::std_specs::cmp::PartialEqSpecImpl;

verus! {

/// The text of an optional string.
pub open spec fn text_of(text: Option<String>) -> Option<Seq<char>> {
    match text {
        Some(t) => Some(t@),
        None => None,
    }
}

/// Names a device by the address that the platform gave it. Two identifiers
/// are the same when their addresses are the same text.
#[derive(Debug, Hash)]
pub struct DeviceId(String);

impl View for DeviceId {
    type V = Seq<char>;

    closed spec fn view(&self) -> Seq<char> {
        self.0@
    }
}

impl Clone for DeviceId {
    fn clone(&self) -> (copy: Self)
        ensures
            copy@ == self@,
    {
        DeviceId(self.0.clone())
    }
}

impl PartialEq for DeviceId {
    fn eq(&self, other: &Self) -> (equal: bool) {
        self.0 == other.0
    }
}

impl Eq for DeviceId {}

impl PartialEqSpecImpl for DeviceId {
    open spec fn obeys_eq_spec() -> bool {
        true
    }

    open spec fn eq_spec(&self, other: &Self) -> bool {
        self@ == other@
    }
}

impl DeviceId {
    pub(crate) fn text(&self) -> (text: &String)
        ensures
            text@ == self@,
    {
        &self.0
    }

    /// The address that the identifier was made from.
    pub fn address(&self) -> (address: &str)
        ensures
            address@ == self@,
    {
        self.0.as_str()
    }
}

/// A device that a scan has found, connected or not.
#[derive(Debug)]
pub struct Device {
    pub address: String,
    pub name: Option<String>,
}

/// What a `Device` holds, as plain text.
pub struct DeviceView {
    pub address: Seq<char>,
    pub name: Option<Seq<char>>,
}

impl DeviceView {
    /// A name counts as known once one is there, whatever it says.
    pub open spec fn named(self) -> bool {
        self.name is Some
    }

    /// The device after a name was fetched for it: a name that is there
    /// stays, and without one the answer is kept as it came.
    pub open spec fn resolved(self, fetched: Option<Seq<char>>) -> DeviceView {
        if self.name is None && fetched is Some {
            DeviceView { address: self.address, name: fetched }
        } else {
            self
        }
    }
}

/// A name that is there is kept whatever is fetched later, and fetching the
/// same answer twice is fetching it once.
pub proof fn lemma_name_is_kept(device: DeviceView, fetched: Option<Seq<char>>, later: Option<Seq<char>>)
    ensures
        device.named() ==> device.resolved(fetched) == device,
        device.resolved(fetched).named() ==> device.resolved(fetched).resolved(later)
            == device.resolved(fetched),
        device.resolved(fetched).resolved(fetched) == device.resolved(fetched),
        device.resolved(fetched).address == device.address,
{
}

impl View for Device {
    type V = DeviceView;

    open spec fn view(&self) -> DeviceView {
        DeviceView { address: self.address@, name: text_of(self.name) }
    }
}

impl Clone for Device {
    fn clone(&self) -> (copy: Self)
        ensures
            copy@ == self@,
    {
        let name = match &self.name {
            Some(n) => Some(n.clone()),
            None => None,
        };
        Device { address: self.address.clone(), name }
    }
}

impl Device {
    /// The identifier under which the registry holds this device.
    pub fn id(&self) -> (id: DeviceId)
        ensures
            id@ == self@.address,
    {
        DeviceId(self.address.clone())
    }

    /// Whether a name is known, so that none has to be fetched.
    pub fn has_name(&self) -> (known: bool)
        ensures
            known == self@.named(),
    {
        self.name.is_some()
    }

    /// Takes in the name that the native stack answered with. The first
    /// name that it gives is kept for good; while it gives none, the device
    /// stays without one.
    pub fn update_name(&mut self, fetched: Option<String>)
        ensures
            final(self)@ == old(self)@.resolved(text_of(fetched)),
    {
        if self.name.is_none() {
            if let Some(n) = fetched {
                self.name = Some(n);
            }
        }
    }
}

} // verus!
