//! The IPv4 configuration of an interface, read from the record that the
//! platform fills.

use crate::byte_order::{
    be_octets, be_value, decode_be, encode_be, lemma_be_value_fits, lemma_be_value_zero,
    lemma_decode_encode, lemma_encode_decode,
};
use crate::status::{EspError, ESP_OK};
use vstd::prelude::*;

verus! {

/// The record that the platform fills for an interface: three IPv4 addresses,
/// each as the four octets that lie in memory, which are in network order.
#[derive(Debug, Clone, Copy, PartialEq, Eq)]
pub struct IpInfoLayout {
    /// The address of the interface.
    pub ip: [u8; 4],
    /// The netmask of its network.
    pub netmask: [u8; 4],
    /// The address of the gateway.
    pub gw: [u8; 4],
}

/// Three IPv4 addresses as numbers: the most significant octet of each is the
/// first of its dotted form.
pub struct IpTriple {
    /// The address of the interface.
    pub ip: u32,
    /// The netmask of its network.
    pub netmask: u32,
    /// The address of the gateway.
    pub gateway: u32,
}

impl IpTriple {
    /// Whether all three addresses are zero.
    pub open spec fn is_zero(self) -> bool {
        self.ip == 0 && self.netmask == 0 && self.gateway == 0
    }
}

/// An IPv4 configuration that is assigned to an interface. At least one of its
/// three addresses is not zero: three zero addresses mean that nothing is
/// assigned, and no value of this type stands for that.
#[derive(Debug, Clone, Copy, PartialEq, Eq, Structural)]
pub struct IpInfo {
    ip: u32,
    netmask: u32,
    gateway: u32,
}

impl View for IpInfo {
    type V = IpTriple;

    closed spec fn view(&self) -> IpTriple {
        IpTriple { ip: self.ip, netmask: self.netmask, gateway: self.gateway }
    }
}

/// The three addresses of a configuration, if there is one.
pub open spec fn triple_of(info: Option<IpInfo>) -> Option<IpTriple> {
    match info {
        Some(i) => Some(i@),
        None => None,
    }
}

fn octets_are_zero(octets: &[u8; 4]) -> (zero: bool)
    ensures
        zero <==> octets@ == seq![0u8, 0u8, 0u8, 0u8],
{
    let zero = octets[0] == 0 && octets[1] == 0 && octets[2] == 0 && octets[3] == 0;
    proof {
        if zero {
            assert(octets@ =~= seq![0u8, 0u8, 0u8, 0u8]);
        }
    }
    zero
}

impl IpInfoLayout {
    /// Whether every octet of the record is zero, which is how the platform
    /// says that no address is assigned.
    pub open spec fn spec_is_zero(&self) -> bool {
        &&& self.ip@ == seq![0u8, 0u8, 0u8, 0u8]
        &&& self.netmask@ == seq![0u8, 0u8, 0u8, 0u8]
        &&& self.gw@ == seq![0u8, 0u8, 0u8, 0u8]
    }

    /// The three addresses of the record, each decoded from network order.
    pub open spec fn decoded(self) -> IpTriple {
        IpTriple {
            ip: be_value(self.ip@) as u32,
            netmask: be_value(self.netmask@) as u32,
            gateway: be_value(self.gw@) as u32,
        }
    }

    /// The configuration that the record stands for: its decoded addresses,
    /// unless all three are zero.
    pub open spec fn normalized(self) -> Option<IpTriple> {
        if self.decoded().is_zero() {
            None
        } else {
            Some(self.decoded())
        }
    }

    /// Whether the record holds the three addresses of `triple`, each in
    /// network order.
    pub open spec fn encodes(self, triple: IpTriple) -> bool {
        &&& self.ip@ == be_octets(triple.ip)
        &&& self.netmask@ == be_octets(triple.netmask)
        &&& self.gw@ == be_octets(triple.gateway)
    }

    /// Whether every octet of the record is zero.
    #[verifier::when_used_as_spec(spec_is_zero)]
    pub fn is_zero(&self) -> (zero: bool)
        ensures
            zero == self.is_zero(),
    {
        octets_are_zero(&self.ip) && octets_are_zero(&self.netmask) && octets_are_zero(&self.gw)
    }
}

impl IpInfo {
    /// What holds of every value of this type: its three addresses are not
    /// all zero.
    #[verifier::type_invariant]
    pub open spec fn is_assigned(&self) -> bool {
        !self@.is_zero()
    }

    /// The address of the interface.
    pub fn ip(&self) -> (ip: u32)
        ensures
            ip == self@.ip,
    {
        self.ip
    }

    /// The netmask of its network.
    pub fn netmask(&self) -> (netmask: u32)
        ensures
            netmask == self@.netmask,
    {
        self.netmask
    }

    /// The address of the gateway.
    pub fn gateway(&self) -> (gateway: u32)
        ensures
            gateway == self@.gateway,
    {
        self.gateway
    }

    /// Decodes a record of which the caller knows that it is not all zero.
    pub(crate) fn from_native_unchecked(layout: IpInfoLayout) -> (info: IpInfo)
        requires
            !layout.is_zero(),
        ensures
            layout.normalized() == Some(info@),
    {
        proof {
            lemma_zero_record_is_absent(layout);
            lemma_decoded_fields(layout);
        }
        IpInfo {
            ip: decode_be(&layout.ip),
            netmask: decode_be(&layout.netmask),
            gateway: decode_be(&layout.gw),
        }
    }

    /// The configuration that a record stands for: none if every octet of the
    /// record is zero, else its three addresses, each decoded from network
    /// order.
    pub fn from_native(layout: IpInfoLayout) -> (info: Option<IpInfo>)
        ensures
            info is None <==> layout.is_zero(),
            triple_of(info) == layout.normalized(),
            info matches Some(i) ==> i@.ip == be_value(layout.ip@),
            info matches Some(i) ==> i@.netmask == be_value(layout.netmask@),
            info matches Some(i) ==> i@.gateway == be_value(layout.gw@),
    {
        proof {
            lemma_zero_record_is_absent(layout);
            lemma_decoded_fields(layout);
        }
        if layout.is_zero() {
            return None;
        }
        Some(Self::from_native_unchecked(layout))
    }

    /// The configuration that a read of the record gave: the failure if the
    /// platform did not report success, whatever the record holds, else what
    /// [`IpInfo::from_native`] makes of the record.
    pub fn from_read(status: i32, layout: IpInfoLayout) -> (read: Result<Option<IpInfo>, EspError>)
        ensures
            read is Ok <==> status == ESP_OK,
            read matches Ok(info) ==> triple_of(info) == layout.normalized(),
            read matches Err(e) ==> e.code() == status,
    {
        match EspError::check(status) {
            Ok(()) => Ok(Self::from_native(layout)),
            Err(e) => Err(e),
        }
    }

    /// The record that stands for this configuration: each address encoded in
    /// network order. It is never all zero, and decoding it gives the
    /// configuration back.
    pub fn to_native(&self) -> (layout: IpInfoLayout)
        ensures
            layout.encodes(self@),
            !layout.is_zero(),
            layout.normalized() == Some(self@),
    {
        proof {
            use_type_invariant(self);
        }
        let layout = IpInfoLayout {
            ip: encode_be(self.ip),
            netmask: encode_be(self.netmask),
            gw: encode_be(self.gateway),
        };
        proof {
            lemma_round_trip(self@, layout);
            lemma_zero_record_is_absent(layout);
        }
        layout
    }
}

/// A record of which every octet is zero stands for no configuration, and no
/// other record does.
pub proof fn lemma_zero_record_is_absent(layout: IpInfoLayout)
    ensures
        layout.is_zero() <==> layout.normalized() is None,
{
    lemma_be_value_zero(layout.ip@);
    lemma_be_value_zero(layout.netmask@);
    lemma_be_value_zero(layout.gw@);
    lemma_be_value_fits(layout.ip@);
    lemma_be_value_fits(layout.netmask@);
    lemma_be_value_fits(layout.gw@);
}

/// Each decoded address is the number that the four octets of its field stand
/// for in network order, and a record that is not all zero stands for exactly
/// these three.
pub proof fn lemma_decoded_fields(layout: IpInfoLayout)
    ensures
        layout.decoded().ip == be_value(layout.ip@),
        layout.decoded().netmask == be_value(layout.netmask@),
        layout.decoded().gateway == be_value(layout.gw@),
        !layout.is_zero() ==> layout.normalized() == Some(layout.decoded()),
{
    lemma_be_value_fits(layout.ip@);
    lemma_be_value_fits(layout.netmask@);
    lemma_be_value_fits(layout.gw@);
    lemma_zero_record_is_absent(layout);
}

/// Encoding a configuration as a record and decoding the record gives the
/// configuration back.
pub proof fn lemma_round_trip(triple: IpTriple, layout: IpInfoLayout)
    requires
        !triple.is_zero(),
        layout.encodes(triple),
    ensures
        layout.normalized() == Some(triple),
{
    lemma_decode_encode(triple.ip);
    lemma_decode_encode(triple.netmask);
    lemma_decode_encode(triple.gateway);
}

/// A record holds, in network order, the addresses of the configuration that
/// it stands for.
pub proof fn lemma_normalized_encodes(layout: IpInfoLayout)
    ensures
        layout.normalized() matches Some(triple) ==> layout.encodes(triple) && !triple.is_zero(),
{
    lemma_encode_decode(layout.ip@);
    lemma_encode_decode(layout.netmask@);
    lemma_encode_decode(layout.gw@);
}

/// Two reads whose records hold the same octets give the same result, so
/// reading again while nothing has changed changes nothing.
pub proof fn lemma_read_is_repeatable(
    first: IpInfoLayout,
    second: IpInfoLayout,
    once: Option<IpInfo>,
    again: Option<IpInfo>,
)
    requires
        first.ip@ == second.ip@,
        first.netmask@ == second.netmask@,
        first.gw@ == second.gw@,
        triple_of(once) == first.normalized(),
        triple_of(again) == second.normalized(),
    ensures
        once == again,
{
}

} // verus!
