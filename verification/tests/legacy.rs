use bifrost::api::{
    Device, DeviceArchetype, DeviceProductData, Homekit, Light, Metadata, On, Room,
};
use bifrost::gamut::{ColorGamut, XY};
use bifrost::legacy_api::{
    ApiBackup, ApiConfig, ApiGroup, ApiInternetServices, ApiLight, ApiScene, ApiSceneVersion,
    ApiShortConfig, Capabilities, Capacity, ConnectionState, LightColorMode, PortalState,
    SoftwareUpdate2, SwUpdateState, SwVersion, mac_address_string,
};

#[test]
fn bridge_id_splices_fffe_into_the_mac() {
    let id = bifrost::bridge_id([0xec, 0xb5, 0xfa, 0x12, 0x34, 0x56]);
    assert_eq!(id, "ecb5fafffe123456");
}

#[test]
fn mac_is_printed_lowercase_with_colons() {
    let s = mac_address_string([0xEC, 0xB5, 0xFA, 0x01, 0x02, 0x03]);
    assert_eq!(s, "ec:b5:fa:01:02:03");
}

#[test]
fn short_config_default_values() {
    let c = ApiShortConfig::default();
    assert_eq!(c.apiversion, "1.66.0");
    assert_eq!(c.bridgeid, "0000000000000000");
    assert_eq!(c.datastoreversion, "163");
    assert!(!c.factorynew);
    assert_eq!(c.mac, [0; 6]);
    assert_eq!(c.modelid, "BSB002");
    assert_eq!(c.name, "Bifrost Bridge");
    assert!(c.replacesbridgeid.is_none());
    assert_eq!(c.starterkitid, "");
    assert_eq!(c.swversion, "1966060010");
}

#[test]
fn short_config_from_mac_and_version() {
    let v = SwVersion::new("1.66.0".to_string(), "1966060010".to_string());
    let c = ApiShortConfig::from_mac_and_version([1, 2, 3, 4, 5, 6], &v);
    assert_eq!(c.bridgeid, "010203fffe040506");
    assert_eq!(c.apiversion, "1.66.0");
    assert_eq!(c.swversion, "1966060010");
    assert_eq!(c.mac, [1, 2, 3, 4, 5, 6]);
    assert_eq!(c.name, "Bifrost Bridge");
}

#[test]
fn connection_and_portal_defaults() {
    assert_eq!(ConnectionState::default(), ConnectionState::Disconnected);
    let p = PortalState::default();
    assert_eq!(p.communication, ConnectionState::Disconnected);
    assert!(!p.incoming && !p.outgoing && !p.signedon);
    let i = ApiInternetServices::default();
    assert_eq!(i.internet, ConnectionState::Connected);
    assert_eq!(i.time, ConnectionState::Connected);
}

#[test]
fn backup_defaults_to_idle() {
    let b = ApiBackup::default();
    assert_eq!(b.errorcode, 0);
    assert_eq!(b.status, "idle");
}

#[test]
fn software_update_record_is_quiet() {
    let s = SoftwareUpdate2::new();
    assert!(s.autoinstall.on);
    assert_eq!(s.autoinstall.updatetime, "T14:00:00");
    assert!(!s.checkforupdate);
    assert_eq!(s.state, SwUpdateState::NoUpdates);
    assert_eq!(s.bridge.state, SwUpdateState::NoUpdates);
    assert!(s.bridge.lastinstall >= 0);
}

#[test]
fn api_config_default_values() {
    let c = ApiConfig::default();
    assert!(c.dhcp);
    assert!(!c.linkbutton);
    assert_eq!(c.proxyaddress, "none");
    assert_eq!(c.proxyport, 0);
    assert_eq!(c.zigbeechannel, 25);
    assert_eq!(c.ipaddress, [0; 4]);
    assert_eq!(c.timezone, "UTC");
    assert!(c.whitelist.is_empty());
    assert!(c.utc >= 0 && c.localtime >= 0);
}

#[test]
fn group_from_lights_and_room() {
    let room = Room {
        children: vec![],
        metadata: Metadata::new(DeviceArchetype::SpotBulb, "Bedroom one"),
        services: vec![],
    };
    let g = ApiGroup::from_lights_and_room(
        Some(On { on: true }),
        Some(254),
        vec!["1".to_string(), "2".to_string()],
        room,
    );
    assert_eq!(g.name, "Bedroom one");
    assert_eq!(g.lights, vec!["1".to_string(), "2".to_string()]);
    assert!(g.action.on);
    assert_eq!(g.action.bri, Some(254));
    assert!(g.action.xy.is_none());
    assert_eq!(g.class, "Bedroom");
    assert!(!g.recycle);
}

#[test]
fn group_with_absent_power_counts_as_off() {
    let room = Room {
        children: vec![],
        metadata: Metadata::new(DeviceArchetype::SpotBulb, "Hall"),
        services: vec![],
    };
    let g = ApiGroup::from_lights_and_room(None, None, vec![], room);
    assert!(!g.action.on);
    let room = Room {
        children: vec![],
        metadata: Metadata::new(DeviceArchetype::SpotBulb, "Hall"),
        services: vec![],
    };
    let g = ApiGroup::from_lights_and_room(Some(On { on: false }), None, vec![], room);
    assert!(!g.action.on);
}

#[test]
fn config_takes_a_guessed_timezone() {
    let c = ApiConfig::default().with_timezone("Europe/Copenhagen".to_string());
    assert_eq!(c.timezone, "Europe/Copenhagen");
    // Everything else keeps its default.
    assert_eq!(c.proxyaddress, "none");
    assert_eq!(c.zigbeechannel, 25);
    assert_eq!(c.short_config.modelid, "BSB002");
}

#[test]
fn light_from_dev_and_light() {
    let dev = Device {
        product_data: DeviceProductData {
            model_id: "LCT003".to_string(),
            manufacturer_name: "Signify Netherlands B.V.".to_string(),
            product_name: "Hue color spot".to_string(),
            software_version: "1.1.0".to_string(),
        },
    };
    let light = Light {
        on: On { on: true },
        bri: Some(128),
        color: Some(XY { x: 45317, y: 20204 }),
        mirek: None,
        metadata: Metadata::new(DeviceArchetype::SpotBulb, "Spot one"),
    };
    let id = 0x00112233_4455_6677_8899_aabbccddeeffu128;
    let al = ApiLight::from_dev_and_light(id, &dev, &light);
    assert!(al.state.on);
    assert_eq!(al.state.bri, Some(128));
    assert_eq!(al.state.colormode, Some(LightColorMode::Xy));
    assert_eq!(al.state.mode, "homeautomation");
    assert!(al.state.reachable);
    assert_eq!(al.name, "Spot one");
    assert_eq!(al.modelid, "Hue color spot");
    assert_eq!(al.manufacturername, "Signify Netherlands B.V.");
    assert_eq!(al.productid, Some("LCT003".to_string()));
    assert_eq!(al.swversion, "1.1.0");
    assert_eq!(al.uniqueid, "00112233445566778899aabbccddeeff");
    assert_eq!(al.light_type, "Extended color light");
    assert!(al.capabilities.certified);
    assert_eq!(al.capabilities.control.colorgamut, ColorGamut::gamut_c());
    assert_eq!(al.capabilities.control.colorgamuttype, "C");
    assert_eq!(al.capabilities.control.ct_min, 153);
    assert_eq!(al.capabilities.control.ct_max, 500);
    assert_eq!(al.config.archetype, "spotbulb");
}

#[test]
fn colorless_light_reports_ct_mode() {
    let dev = Device {
        product_data: DeviceProductData {
            model_id: "m".to_string(),
            manufacturer_name: "m".to_string(),
            product_name: "p".to_string(),
            software_version: "v".to_string(),
        },
    };
    let light = Light {
        on: On { on: false },
        bri: None,
        color: None,
        mirek: Some(300),
        metadata: Metadata::new(DeviceArchetype::ClassicBulb, "Bulb"),
    };
    let al = ApiLight::from_dev_and_light(1, &dev, &light);
    assert_eq!(al.state.colormode, Some(LightColorMode::Ct));
    assert_eq!(al.state.ct, Some(300));
}

#[test]
fn scene_from_parts() {
    let s = ApiScene::from_scene_parts(
        "Evening".to_string(),
        vec!["4".to_string()],
        vec![],
        0x00112233_4455_6677_8899_aabbccddeeffu128,
        7,
        None,
    );
    assert_eq!(s.name, "Evening");
    assert_eq!(s.owner, "00112233-4455-6677-8899-aabbccddeeff");
    assert_eq!(s.appdata.data, Some("xxxxx_r7".to_string()));
    assert_eq!(s.appdata.version, Some(1));
    assert_eq!(s.group, Some("7".to_string()));
    assert_eq!(s.version, 2);
    assert!(!s.recycle && !s.locked);
    assert_eq!(s.picture, "");
}

#[test]
fn scene_version_number() {
    assert_eq!(ApiSceneVersion::V2.value(), 2);
}

#[test]
fn capacity_and_capabilities() {
    let c = Capacity::new(63, 60);
    assert_eq!(c.total, 63);
    assert_eq!(c.available, 60);
    let caps = Capabilities::new();
    assert_eq!(caps.lights.total, 63);
    assert_eq!(caps.sensors.clip.total, 250);
    assert_eq!(caps.rules.conditions.available, 1451);
    assert_eq!(caps.streaming.channels, 20);
    assert_eq!(
        caps.timezones,
        vec!["CET", "UTC", "GMT", "Europe/Copenhagen"]
    );
}

#[test]
fn homekit_and_metadata() {
    let h = Homekit::default();
    assert_eq!(h.status, "unpaired");
    assert_eq!(h.status_values, vec!["pairing", "paired", "unpaired"]);
    let m = Metadata::new(DeviceArchetype::SpotBulb, "Lamp");
    assert_eq!(m.name, "Lamp");
    assert_eq!(m.archetype, DeviceArchetype::SpotBulb);
}

#[test]
fn identifier_formatting() {
    assert_eq!(bifrost::fmt::dec_string_u32(0), "0");
    assert_eq!(bifrost::fmt::dec_string_u32(1234567890), "1234567890");
    assert_eq!(bifrost::fmt::uuid_simple(0), "0".repeat(32));
    assert_eq!(
        bifrost::fmt::uuid_hyphenated(0xffffffff_ffff_ffff_ffff_ffffffffffffu128),
        "ffffffff-ffff-ffff-ffff-ffffffffffff"
    );
    assert_eq!(
        bifrost::update::legacy_id_v1(0x1f),
        "/legacy/0000000000000000000000000000001f"
    );
}

#[test]
fn mdns_service_config_names_and_properties() {
    let svc = bifrost::mdns::mdns_service_config([0xec, 0xb5, 0xfa, 0x12, 0x34, 0x56]);
    assert_eq!(svc.instance_name, "bifrost-ecb5fa123456");
    assert_eq!(svc.service_type, "_hue._tcp.local.");
    assert_eq!(svc.hostname, "bifrost-ecb5fa123456._hue._tcp.local.");
    assert_eq!(svc.port, 80);
    assert_eq!(svc.properties.len(), 2);
    assert_eq!(svc.properties[0].0, "modelid");
    assert_eq!(svc.properties[0].1, "BSB002");
    assert_eq!(svc.properties[1].0, "bridgeid");
    assert_eq!(svc.properties[1].1, "ecb5fafffe123456");
}
