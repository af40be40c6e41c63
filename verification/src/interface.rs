//! The network interfaces of a device, and what selects each of them in a
//! platform call.

use vstd::prelude::*;

verus! {

/// A network interface of the device.
#[derive(Debug, Clone, Copy, PartialEq, Eq, Structural)]
pub enum Interface {
    /// WiFi in station mode.
    Sta,
    /// WiFi in access point mode.
    Ap,
    /// Bluetooth.
    Bt,
    /// Ethernet.
    Eth,
}

/// The kind of MAC address that the platform's MAC read is asked for.
#[derive(Debug, Clone, Copy, PartialEq, Eq, Structural)]
pub enum MacType {
    /// The address of the WiFi station.
    WifiSta,
    /// The address of the WiFi soft access point.
    WifiSoftAp,
    /// The Bluetooth address.
    Bt,
    /// The Ethernet address.
    Eth,
}

/// The adapter that the adapter-based IP query is asked for.
#[derive(Debug, Clone, Copy, PartialEq, Eq, Structural)]
pub enum AdapterType {
    /// The station adapter.
    Sta,
    /// The access point adapter.
    Ap,
}

impl Interface {
    /// The kind of MAC address that belongs to this interface.
    pub open spec fn spec_mac_type(self) -> MacType {
        match self {
            Interface::Sta => MacType::WifiSta,
            Interface::Ap => MacType::WifiSoftAp,
            Interface::Bt => MacType::Bt,
            Interface::Eth => MacType::Eth,
        }
    }

    /// Whether the platform keeps an IP configuration for this interface:
    /// it does so for the two WiFi interfaces only.
    pub open spec fn carries_ip(self) -> bool {
        self is Sta || self is Ap
    }

    /// The adapter that stands for this interface in the adapter-based IP
    /// query, if the interface carries an IP configuration.
    pub open spec fn spec_adapter_type(self) -> Option<AdapterType> {
        match self {
            Interface::Sta => Some(AdapterType::Sta),
            Interface::Ap => Some(AdapterType::Ap),
            _ => None,
        }
    }

    /// The characters of the key under which the handle-based IP query finds
    /// this interface, the terminating NUL included; empty for an interface
    /// without an IP configuration.
    pub open spec fn spec_netif_key(self) -> Seq<char> {
        match self {
            Interface::Sta => "WIFI_STA_DEF\0"@,
            Interface::Ap => "WIFI_AP_DEF\0"@,
            _ => Seq::empty(),
        }
    }

    /// The kind of MAC address to ask the platform for.
    #[verifier::when_used_as_spec(spec_mac_type)]
    pub fn mac_type(self) -> (mac_type: MacType)
        ensures
            mac_type == self.mac_type(),
    {
        match self {
            Interface::Sta => MacType::WifiSta,
            Interface::Ap => MacType::WifiSoftAp,
            Interface::Bt => MacType::Bt,
            Interface::Eth => MacType::Eth,
        }
    }

    /// The adapter to name in the adapter-based IP query: `Some` exactly for
    /// the interfaces that carry an IP configuration.
    #[verifier::when_used_as_spec(spec_adapter_type)]
    pub fn adapter_type(self) -> (adapter: Option<AdapterType>)
        ensures
            adapter == self.adapter_type(),
            adapter is Some <==> self.carries_ip(),
    {
        match self {
            Interface::Sta => Some(AdapterType::Sta),
            Interface::Ap => Some(AdapterType::Ap),
            Interface::Bt | Interface::Eth => None,
        }
    }

    /// The key to resolve in the handle-based IP query: `Some` exactly for the
    /// interfaces that carry an IP configuration. The key is ASCII and ends in
    /// its only NUL, so its bytes can be handed to the platform as they are.
    pub fn netif_key(self) -> (key: Option<&'static str>)
        ensures
            key is Some <==> self.carries_ip(),
            key matches Some(k) ==> k@ == self.spec_netif_key() && is_c_string(k@),
    {
        match self {
            Interface::Sta => {
                proof {
                    reveal_strlit("WIFI_STA_DEF\0");
                }
                Some("WIFI_STA_DEF\0")
            },
            Interface::Ap => {
                proof {
                    reveal_strlit("WIFI_AP_DEF\0");
                }
                Some("WIFI_AP_DEF\0")
            },
            Interface::Bt | Interface::Eth => None,
        }
    }
}

/// Whether `chars` is a C string in ASCII: not empty, every character below
/// 128, the last one NUL and none before it.
pub open spec fn is_c_string(chars: Seq<char>) -> bool {
    &&& chars.len() > 0
    &&& chars.last() == '\0'
    &&& forall|i: int| 0 <= i < chars.len() - 1 ==> chars[i] != '\0'
    &&& forall|i: int| 0 <= i < chars.len() ==> (chars[i] as u32) < 128
}

/// No two interfaces ask for the same kind of MAC address.
pub proof fn lemma_mac_type_injective(a: Interface, b: Interface)
    requires
        a.mac_type() == b.mac_type(),
    ensures
        a == b,
{
}

/// No two interfaces that carry an IP configuration share an adapter or a key.
pub proof fn lemma_ip_selectors_injective(a: Interface, b: Interface)
    requires
        a.carries_ip(),
        b.carries_ip(),
        a.adapter_type() == b.adapter_type() || a.spec_netif_key() == b.spec_netif_key(),
    ensures
        a == b,
{
    reveal_strlit("WIFI_STA_DEF\0");
    reveal_strlit("WIFI_AP_DEF\0");
    if a != b {
        assert(a.spec_netif_key().len() != b.spec_netif_key().len());
    }
}

} // verus!
