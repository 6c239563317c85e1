use vstd::prelude::*;

use crate::device::{device_views, DeviceView, ExtronDevice};
use crate::protocol::{devices_from_probes, probed_devices, PortProbe};

verus! {

/// No two entries carry the same name.
pub open spec fn names_unique(s: Seq<DeviceView>) -> bool {
    forall|i: int, j: int|
        0 <= i < s.len() && 0 <= j < s.len() && i != j ==> s[i].name != s[j].name
}

/// Some entry carries `name`.
pub open spec fn holds_name(s: Seq<DeviceView>, name: Seq<char>) -> bool {
    exists|i: int| 0 <= i < s.len() && s[i].name == name
}

/// The entry for `name`, if there is one.
pub open spec fn lookup(s: Seq<DeviceView>, name: Seq<char>) -> Option<DeviceView> {
    if holds_name(s, name) {
        Some(s[choose|i: int| 0 <= i < s.len() && s[i].name == name])
    } else {
        None
    }
}

/// Registers `d` under its name: an entry of that name is replaced where it
/// stands, otherwise `d` is added at the end.
pub open spec fn insert_device(s: Seq<DeviceView>, d: DeviceView) -> Seq<DeviceView> {
    if holds_name(s, d.name) {
        s.update(choose|i: int| 0 <= i < s.len() && s[i].name == d.name, d)
    } else {
        s.push(d)
    }
}

/// The registry built from `devs` registered in turn, the later of two
/// devices with one name winning.
pub open spec fn registry_of(devs: Seq<DeviceView>) -> Seq<DeviceView>
    decreases devs.len(),
{
    if devs.len() == 0 {
        Seq::empty()
    } else {
        insert_device(registry_of(devs.drop_last()), devs.last())
    }
}

/// Registering a device keeps names unique.
pub proof fn lemma_insert_keeps_unique(s: Seq<DeviceView>, d: DeviceView)
    requires
        names_unique(s),
    ensures
        names_unique(insert_device(s, d)),
        holds_name(insert_device(s, d), d.name),
        lookup(insert_device(s, d), d.name) == Some(d),
{
    let r = insert_device(s, d);
    if holds_name(s, d.name) {
        let k = choose|i: int| 0 <= i < s.len() && s[i].name == d.name;
        assert(r[k].name == d.name);
        assert forall|i: int| 0 <= i < r.len() && r[i].name == d.name implies i == k by {
            if i != k {
                assert(s[i].name == d.name);
            }
        }
    } else {
        let k = s.len() as int;
        assert(r[k].name == d.name);
        assert forall|i: int| 0 <= i < r.len() && r[i].name == d.name implies i == k by {
            if i != k {
                assert(s[i] == r[i]);
            }
        }
    }
}

/// A registry built from any devices has unique names.
pub proof fn lemma_registry_unique(devs: Seq<DeviceView>)
    ensures
        names_unique(registry_of(devs)),
    decreases devs.len(),
{
    if devs.len() > 0 {
        lemma_registry_unique(devs.drop_last());
        lemma_insert_keeps_unique(registry_of(devs.drop_last()), devs.last());
    }
}

/// The collection of devices found by the last scan, keyed by name.
#[derive(Debug, Clone)]
pub struct ExtronDeviceList {
    devices: Vec<ExtronDevice>,
}

impl View for ExtronDeviceList {
    type V = Seq<DeviceView>;

    closed spec fn view(&self) -> Seq<DeviceView> {
        device_views(self.devices@)
    }
}

impl ExtronDeviceList {
    /// Names in the registry are unique.
    pub open spec fn wf(&self) -> bool {
        names_unique(self@)
    }

    /// An empty registry.
    pub fn new() -> (r: Self)
        ensures
            r.wf(),
            r@ == Seq::<DeviceView>::empty(),
    {
        let r = ExtronDeviceList { devices: Vec::new() };
        assert(r@ =~= Seq::<DeviceView>::empty());
        r
    }

    /// Where the entry named `name` stands, if there is one.
    fn position(&self, name: &String) -> (r: Option<usize>)
        requires
            self.wf(),
        ensures
            match r {
                Some(k) => k < self@.len() && self@[k as int].name == name@
                    && lookup(self@, name@) == Some(self@[k as int]),
                None => !holds_name(self@, name@) && lookup(self@, name@) is None,
            },
    {
        let mut i: usize = 0;
        while i < self.devices.len()
            invariant
                i <= self.devices.len(),
                self.wf(),
                self.devices@.len() == self@.len(),
                forall|k: int| 0 <= k < i ==> self@[k].name != name@,
            decreases self.devices.len() - i,
        {
            assert(self@[i as int] == self.devices@[i as int]@);
            if self.devices[i].name == *name {
                proof {
                    let c = choose|j: int| 0 <= j < self@.len() && self@[j].name == name@;
                    assert(self@[c].name == self@[i as int].name);
                    assert(c == i as int);
                }
                return Some(i);
            }
            i += 1;
        }
        None
    }

    /// Registers `d` under its name.
    fn insert(&mut self, d: ExtronDevice)
        requires
            old(self).wf(),
        ensures
            final(self).wf(),
            final(self)@ == insert_device(old(self)@, d@),
    {
        proof {
            lemma_insert_keeps_unique(self@, d@);
        }
        let ghost s = self@;
        match self.position(&d.name) {
            Some(k) => {
                proof {
                    let c = choose|j: int| 0 <= j < s.len() && s[j].name == d@.name;
                    assert(s[c].name == s[k as int].name);
                    assert(c == k as int);
                }
                self.devices[k] = d;
            },
            None => {
                self.devices.push(d);
            },
        }
        assert(self@ =~= insert_device(s, d@));
    }

    /// Replaces the whole registry by the devices given, registered in turn.
    pub fn replace(&mut self, devices: Vec<ExtronDevice>)
        ensures
            final(self).wf(),
            final(self)@ == registry_of(device_views(devices@)),
    {
        let ghost dv = device_views(devices@);
        let mut fresh = ExtronDeviceList::new();
        let mut i: usize = 0;
        while i < devices.len()
            invariant
                i <= devices.len(),
                dv == device_views(devices@),
                fresh.wf(),
                fresh@ == registry_of(dv.subrange(0, i as int)),
            decreases devices.len() - i,
        {
            let d = devices[i].duplicate();
            proof {
                let p = dv.subrange(0, i as int + 1);
                assert(p.drop_last() =~= dv.subrange(0, i as int));
                assert(p.last() == d@);
            }
            fresh.insert(d);
            i += 1;
        }
        assert(dv.subrange(0, devices.len() as int) =~= dv);
        *self = fresh;
    }

    /// Rebuilds the registry from what a discovery found: the devices that
    /// answered, each under its trimmed answer.
    pub fn rescan(&mut self, probes: &Vec<PortProbe>)
        ensures
            final(self).wf(),
            final(self)@ == registry_of(probed_devices(probes@)),
    {
        let devices = devices_from_probes(probes);
        self.replace(devices);
    }

    /// A registry built from what a discovery found.
    pub fn enumerate_extron(probes: &Vec<PortProbe>) -> (r: Self)
        ensures
            r.wf(),
            r@ == registry_of(probed_devices(probes@)),
    {
        let mut r = ExtronDeviceList::new();
        r.rescan(probes);
        r
    }

    /// The device named exactly `name`, if there is one.
    pub fn find(&self, name: &str) -> (r: Option<ExtronDevice>)
        requires
            self.wf(),
        ensures
            match r {
                Some(d) => lookup(self@, name@) == Some(d@),
                None => lookup(self@, name@) is None,
            },
    {
        let key = String::from_str(name);
        match self.position(&key) {
            Some(k) => {
                let d = self.devices[k].duplicate();
                assert(self@[k as int] == self.devices@[k as int]@);
                Some(d)
            },
            None => None,
        }
    }

    /// The number of devices.
    pub fn len(&self) -> (r: usize)
        ensures
            r == self@.len(),
    {
        self.devices.len()
    }

    /// A copy of every device, in the registry's order.
    pub fn iter(&self) -> (r: Vec<ExtronDevice>)
        ensures
            device_views(r@) == self@,
    {
        let mut out: Vec<ExtronDevice> = Vec::new();
        let mut i: usize = 0;
        while i < self.devices.len()
            invariant
                i <= self.devices.len(),
                out@.len() == i,
                self.devices@.len() == self@.len(),
                forall|k: int| 0 <= k < i ==> out@[k]@ == self@[k],
            decreases self.devices.len() - i,
        {
            let d = self.devices[i].duplicate();
            assert(self@[i as int] == d@);
            out.push(d);
            i += 1;
        }
        assert(device_views(out@) =~= self@);
        out
    }
}

} // verus!
