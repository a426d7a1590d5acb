//! What the bridge advertises over multicast DNS: the service name,
//! hostname and properties are computed here; a network daemon outside
//! this library performs the actual registration.

use vstd::prelude::*;

use crate::fmt::{push_hex_byte, spec_hex_byte};
use crate::{bridge_id, spec_bridge_id};

verus! {

/// Everything a registration needs: the service instance, its type and
/// hostname, the port, and the advertised properties.
pub struct MdnsService {
    pub instance_name: String,
    pub service_type: String,
    pub hostname: String,
    pub port: u16,
    pub properties: Vec<(String, String)>,
}

/// The instance name the bridge advertises: a fixed prefix followed by
/// the twelve lowercase hexadecimal digits of its hardware address.
pub open spec fn spec_mdns_instance_name(m: Seq<u8>) -> Seq<char> {
    "bifrost-"@ + spec_hex_byte(m[0]) + spec_hex_byte(m[1]) + spec_hex_byte(m[2]) + spec_hex_byte(
        m[3],
    ) + spec_hex_byte(m[4]) + spec_hex_byte(m[5])
}

/// The advertisement for a bridge with the given hardware address:
/// instance `bifrost-<mac digits>` of service type `_hue._tcp.local.`
/// on port 80, carrying the bridge model and the bridge identifier as
/// properties.
pub fn mdns_service_config(mac: [u8; 6]) -> (r: MdnsService)
    ensures
        r.instance_name@ == spec_mdns_instance_name(mac@),
        r.service_type@ == "_hue._tcp.local."@,
        r.hostname@ == spec_mdns_instance_name(mac@) + "."@ + "_hue._tcp.local."@,
        r.port == 80,
        r.properties@.len() == 2,
        r.properties@[0].0@ == "modelid"@,
        r.properties@[0].1@ == "BSB002"@,
        r.properties@[1].0@ == "bridgeid"@,
        r.properties@[1].1@ == spec_bridge_id(mac@),
{
    let mut instance_name = "bifrost-".to_owned();
    push_hex_byte(&mut instance_name, mac[0]);
    push_hex_byte(&mut instance_name, mac[1]);
    push_hex_byte(&mut instance_name, mac[2]);
    push_hex_byte(&mut instance_name, mac[3]);
    push_hex_byte(&mut instance_name, mac[4]);
    push_hex_byte(&mut instance_name, mac[5]);
    assert(instance_name@ =~= spec_mdns_instance_name(mac@));
    let service_type = "_hue._tcp.local.".to_owned();
    let mut hostname = instance_name.clone();
    hostname.append(".");
    hostname.append("_hue._tcp.local.");
    assert(hostname@ =~= spec_mdns_instance_name(mac@) + "."@ + "_hue._tcp.local."@);
    let mut properties: Vec<(String, String)> = Vec::new();
    properties.push(("modelid".to_owned(), "BSB002".to_owned()));
    properties.push(("bridgeid".to_owned(), bridge_id(mac)));
    MdnsService { instance_name, service_type, hostname, port: 80, properties }
}

} // verus!
