//! The hardware address of an interface.

use crate::status::{EspError, ESP_OK};
use vstd::prelude::*;

verus! {

/// A six-octet hardware address. Every value is an address; the one of six
/// zero octets is unusual but valid.
#[derive(Debug, Clone, Copy, PartialEq, Eq)]
pub struct MacAddress {
    /// The octets in the order of transmission.
    pub octets: [u8; 6],
}

impl View for MacAddress {
    type V = Seq<u8>;

    open spec fn view(&self) -> Seq<u8> {
        self.octets@
    }
}

impl MacAddress {
    /// The address that a MAC read gave: the buffer it filled, if it reported
    /// success, else the failure, so that nothing of a buffer that the
    /// platform did not fill is ever handed on.
    pub fn from_read(status: i32, buffer: [u8; 6]) -> (mac: Result<MacAddress, EspError>)
        ensures
            mac is Ok <==> status == ESP_OK,
            mac matches Ok(m) ==> m@ == buffer@ && m@.len() == 6,
            mac matches Err(e) ==> e.code() == status,
    {
        match EspError::check(status) {
            Ok(()) => Ok(MacAddress { octets: buffer }),
            Err(e) => Err(e),
        }
    }
}

} // verus!
