//! Core of a smart-lighting bridge: the color-gamut mapper that keeps any
//! requested chromaticity inside a luminaire's color triangle, the update
//! builder that accumulates a pending light-state change, and the binary
//! encoder that serializes it into the fixed-layout command consumed by
//! gradient-capable luminaires. Around that core stand the plain data types
//! of the bridge's resource APIs.

pub mod api;
pub mod fmt;
pub mod gamut;
pub mod legacy_api;
pub mod mdns;
pub mod update;
pub mod zigbee;

use vstd::prelude::*;

use crate::fmt::{push_hex_byte, spec_hex_byte};

verus! {

/// The bridge hardware model this emulation reports.
pub fn hue_bridge_v2_model_id() -> (r: &'static str)
    ensures
        r@ == "BSB002"@,
{
    "BSB002"
}

/// The bridge identifier derived from a hardware address: the six mac
/// bytes in lowercase hexadecimal with `fffe` spliced into the middle,
/// after the extended-unique-identifier convention.
pub open spec fn spec_bridge_id(m: Seq<u8>) -> Seq<char> {
    spec_hex_byte(m[0]) + spec_hex_byte(m[1]) + spec_hex_byte(m[2]) + seq!['f', 'f', 'f', 'e']
        + spec_hex_byte(m[3]) + spec_hex_byte(m[4]) + spec_hex_byte(m[5])
}

/// The bridge identifier of the bridge with the given hardware address.
pub fn bridge_id(mac: [u8; 6]) -> (r: String)
    ensures
        r@ == spec_bridge_id(mac@),
{
    proof {
        reveal_strlit("fffe");
    }
    let mut s = String::new();
    push_hex_byte(&mut s, mac[0]);
    push_hex_byte(&mut s, mac[1]);
    push_hex_byte(&mut s, mac[2]);
    s.append("fffe");
    push_hex_byte(&mut s, mac[3]);
    push_hex_byte(&mut s, mac[4]);
    push_hex_byte(&mut s, mac[5]);
    assert(s@ =~= spec_bridge_id(mac@));
    s
}

} // verus!
