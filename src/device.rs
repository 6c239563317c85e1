use vstd::prelude::*;

verus! {

/// What a device is, mathematically: the port it hangs on and the name it
/// reported for itself.
pub struct DeviceView {
    pub path: Seq<char>,
    pub name: Seq<char>,
}

/// One switcher or scaler found on a serial port.
#[derive(Debug, Clone)]
pub struct ExtronDevice {
    pub device_path: String,
    pub name: String,
}

impl View for ExtronDevice {
    type V = DeviceView;

    open spec fn view(&self) -> DeviceView {
        DeviceView { path: self.device_path@, name: self.name@ }
    }
}

/// The views of a sequence of devices, one for one.
pub open spec fn device_views(s: Seq<ExtronDevice>) -> Seq<DeviceView> {
    s.map_values(|d: ExtronDevice| d@)
}

impl ExtronDevice {
    /// A device on `device_path` that answered with `name`.
    pub fn new(device_path: &str, name: &str) -> (r: Self)
        ensures
            r.device_path@ == device_path@,
            r.name@ == name@,
    {
        ExtronDevice { device_path: String::from_str(device_path), name: String::from_str(name) }
    }

    /// A copy of the device, field by field.
    pub fn duplicate(&self) -> (r: Self)
        ensures
            r@ == self@,
    {
        ExtronDevice { device_path: self.device_path.clone(), name: self.name.clone() }
    }
}

} // verus!
