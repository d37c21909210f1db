//! MAC addresses.

use vstd::prelude::*;
use vstd::string::StringExecFns;

use crate::text::hex_string;

verus! {

/// A 48-bit IEEE 802 MAC address.
#[derive(Clone, Copy, Debug, PartialEq, Eq, Hash)]
pub struct MacAddr(pub [u8; 6]);

impl View for MacAddr {
    type V = Seq<u8>;

    open spec fn view(&self) -> Seq<u8> {
        self.0@
    }
}

/// The all-zero address, byte by byte.
pub open spec fn zero_mac() -> Seq<u8> {
    Seq::new(6, |i: int| 0u8)
}

/// The canonical text of an address: six hexadecimal pairs between colons.
pub open spec fn mac_text(mac: Seq<u8>) -> Seq<char> {
    crate::text::hex_pair(mac[0]) + ":"@ + crate::text::hex_pair(mac[1]) + ":"@
        + crate::text::hex_pair(mac[2]) + ":"@ + crate::text::hex_pair(mac[3]) + ":"@
        + crate::text::hex_pair(mac[4]) + ":"@ + crate::text::hex_pair(mac[5])
}

impl MacAddr {
    /// The canonical text of the address.
    pub open spec fn text(self) -> Seq<char> {
        mac_text(self@)
    }

    /// The all-zero address (`00:00:00:00:00:00`).
    pub fn zero() -> (mac: MacAddr)
        ensures
            mac@ == zero_mac(),
    {
        let mac = MacAddr([0; 6]);
        assert(mac@ =~= zero_mac());
        mac
    }

    /// The raw six address bytes.
    pub fn as_bytes(&self) -> (bytes: &[u8; 6])
        ensures
            *bytes == self.0,
    {
        &self.0
    }

    /// The address as `de:ad:be:ef:00:01`.
    pub fn to_string(&self) -> (s: String)
        ensures
            s@ == self.text(),
    {
        let mut s = hex_string(self.0[0]);
        s.append(":");
        s.append(&hex_string(self.0[1]));
        s.append(":");
        s.append(&hex_string(self.0[2]));
        s.append(":");
        s.append(&hex_string(self.0[3]));
        s.append(":");
        s.append(&hex_string(self.0[4]));
        s.append(":");
        s.append(&hex_string(self.0[5]));
        s
    }

    /// The address as `MacAddr(de:ad:be:ef:00:01)`, the form meant for log lines.
    pub fn to_debug_string(&self) -> (s: String)
        ensures
            s@ == "MacAddr("@ + self.text() + ")"@,
    {
        let mut s = "MacAddr(".to_owned();
        s.append(&self.to_string());
        s.append(")");
        s
    }
}

} // verus!
