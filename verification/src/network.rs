//! Which network interfaces are watched.

use vstd::prelude::*;

verus! {

/// The wired interface whose traffic is shown.
pub const DEVICE_ETHERNET: &'static str = "enp0s20f0u3u4";

/// The wireless interface whose traffic is shown.
pub const DEVICE_WIFI: &'static str = "wlp0s20f3";

/// A watched network interface.
#[derive(Clone, Copy, Debug, PartialEq, Eq, Structural)]
pub enum NetworkDevice {
    Ethernet,
    Wifi,
}

/// The name of a watched interface.
pub open spec fn device_name(device: NetworkDevice) -> Seq<char> {
    match device {
        NetworkDevice::Ethernet => DEVICE_ETHERNET@,
        NetworkDevice::Wifi => DEVICE_WIFI@,
    }
}

/// Which watched interface, if any, an interface name stands for; traffic
/// on any other interface is not shown.
pub fn classify_interface(interface_name: &str) -> (device: Option<NetworkDevice>)
    ensures
        interface_name@ == DEVICE_ETHERNET@ ==> device == Some(NetworkDevice::Ethernet),
        interface_name@ != DEVICE_ETHERNET@ && interface_name@ == DEVICE_WIFI@ ==> device == Some(
            NetworkDevice::Wifi,
        ),
        interface_name@ != DEVICE_ETHERNET@ && interface_name@ != DEVICE_WIFI@ ==> device is None,
{
    let name = String::from_str(interface_name);
    if name == String::from_str(DEVICE_ETHERNET) {
        Some(NetworkDevice::Ethernet)
    } else if name == String::from_str(DEVICE_WIFI) {
        Some(NetworkDevice::Wifi)
    } else {
        None
    }
}

/// Each watched interface is recognised by its own name.
pub proof fn lemma_device_names_distinct()
    ensures
        device_name(NetworkDevice::Ethernet) != device_name(NetworkDevice::Wifi),
{
    reveal_strlit("enp0s20f0u3u4");
    reveal_strlit("wlp0s20f3");
    assert(device_name(NetworkDevice::Ethernet)[0] != device_name(NetworkDevice::Wifi)[0]);
}

} // verus!
