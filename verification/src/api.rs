//! Plain data types of the bridge's current resource-model API: the
//! typed records that the resource store hands around. They carry no
//! behaviour beyond their constructors; identifiers are held as plain
//! 128-bit values.

use vstd::prelude::*;

verus! {

/// The kind of a resource a link can point at.
#[derive(Clone, Copy, Debug, PartialEq, Eq, Structural)]
pub enum RType {
    BehaviorInstance,
    BehaviorScript,
    Bridge,
    BridgeHome,
    Button,
    Device,
    DevicePower,
    DeviceSoftwareUpdate,
    Entertainment,
    EntertainmentConfiguration,
    GeofenceClient,
    Geolocation,
    GroupedLight,
    GroupedLightLevel,
    GroupedMotion,
    Homekit,
    Light,
    LightLevel,
    Matter,
    Motion,
    PublicImage,
    RelativeRotary,
    Room,
    Scene,
    SmartScene,
    Taurus,
    Temperature,
    ZigbeeConnectivity,
    ZigbeeDeviceDiscovery,
    Zone,
}

/// A typed reference to another resource, by its 128-bit identifier.
#[derive(Clone, Copy, Debug, PartialEq, Eq, Structural)]
pub struct ResourceLink {
    pub rid: u128,
    pub rtype: RType,
}

/// The physical shape a device reports for icon selection.
#[derive(Clone, Copy, Debug, PartialEq, Eq, Structural)]
pub enum DeviceArchetype {
    BridgeV2,
    ClassicBulb,
    SultanBulb,
    FloodBulb,
    SpotBulb,
    CandleBulb,
    LusterBulb,
    PendantRound,
    PendantLong,
    CeilingRound,
    CeilingSquare,
    FloorShade,
    FloorLantern,
    TableShade,
    RecessedCeiling,
    RecessedFloor,
    SingleSpot,
    DoubleSpot,
    TableWash,
    WallLantern,
    WallShade,
    FlexibleLamp,
    GroundSpot,
    WallSpot,
    Plug,
    HueGo,
    HueLightstrip,
    HueIris,
    HueBloom,
    Bollard,
    WallWasher,
    HuePlay,
    VintageBulb,
    ChristmasTree,
    HueCentris,
    HueTube,
    HueSigne,
    UnknownArchetype,
}

/// A power state.
#[derive(Clone, Copy, Debug, PartialEq, Eq, Structural)]
pub struct On {
    pub on: bool,
}

pub struct Bridge {
    pub bridge_id: String,
    pub owner: ResourceLink,
    pub time_zone: TimeZone,
}

pub struct BridgeHome {
    pub children: Vec<ResourceLink>,
    pub services: Vec<ResourceLink>,
}

#[derive(Clone, Copy, Debug, PartialEq, Eq, Structural)]
pub struct ButtonMetadata {
    pub control_id: u32,
}

/// A reference into a configuration schema, when one is named.
pub struct DollarRef {
    pub dref: Option<String>,
}

pub struct BehaviorInstanceMetadata {
    pub name: String,
}

pub struct Entertainment {
    pub equalizer: bool,
    pub owner: ResourceLink,
    pub proxy: bool,
    pub renderer: bool,
    pub max_streams: Option<u32>,
    pub renderer_reference: Option<ResourceLink>,
    pub segments: Option<EntertainmentSegments>,
}

pub struct EntertainmentConfigurationMetadata {
    pub name: String,
}

pub struct EntertainmentConfigurationStreamProxy {
    pub mode: String,
    pub node: ResourceLink,
}

pub struct EntertainmentConfigurationStreamMembers {
    pub service: ResourceLink,
    pub index: u32,
}

pub struct EntertainmentSegments {
    pub configurable: bool,
    pub max_segments: u32,
    pub segments: Vec<EntertainmentSegment>,
}

#[derive(Clone, Copy, Debug, PartialEq, Eq, Structural)]
pub struct EntertainmentSegment {
    pub length: u32,
    pub start: u32,
}

pub struct GeofenceClient {
    pub name: String,
}

/// The pairing state the bridge reports to clients of the home-kit
/// surface.
pub struct Homekit {
    pub status: String,
    pub status_values: Vec<String>,
}

impl Default for Homekit {
    /// A fresh, unpaired state that lists the three states the surface
    /// can report.
    fn default() -> (r: Self)
        ensures
            r.status@ == "unpaired"@,
            r.status_values@.len() == 3,
            r.status_values@[0]@ == "pairing"@,
            r.status_values@[1]@ == "paired"@,
            r.status_values@[2]@ == "unpaired"@,
    {
        let mut status_values: Vec<String> = Vec::new();
        status_values.push("pairing".to_owned());
        status_values.push("paired".to_owned());
        status_values.push("unpaired".to_owned());
        Homekit { status: "unpaired".to_owned(), status_values }
    }
}

#[derive(Clone, Copy, Debug, PartialEq, Eq, Structural)]
pub struct Matter {
    pub has_qr_code: bool,
    pub max_fabrics: u32,
}

#[derive(Clone, Copy, Debug, PartialEq, Eq, Structural)]
pub struct PrivateGroup {}

#[derive(Clone, Copy, Debug, PartialEq, Eq, Structural)]
pub struct PublicImage {}

#[derive(Clone, Copy, Debug, PartialEq, Eq, Structural)]
pub struct Taurus {}

#[derive(Clone, Copy, Debug, PartialEq, Eq, Structural)]
pub enum ZigbeeConnectivityStatus {
    Connected,
    ConnectivityIssue,
}

pub struct Zone {
    pub metadata: Metadata,
    pub children: Vec<ResourceLink>,
    pub services: Vec<ResourceLink>,
}

/// The bridge's configured time zone, as an IANA name.
pub struct TimeZone {
    pub time_zone: String,
}

/// A resource's display name and reported shape.
pub struct Metadata {
    pub name: String,
    pub archetype: DeviceArchetype,
}

impl Metadata {
    /// A metadata record with the given shape and name.
    pub fn new(archetype: DeviceArchetype, name: &str) -> (r: Self)
        ensures
            r.archetype == archetype,
            r.name@ == name@,
    {
        Metadata { archetype, name: name.to_owned() }
    }
}

/// A partial change of a resource's metadata.
pub struct MetadataUpdate {
    pub name: Option<String>,
    pub archetype: Option<DeviceArchetype>,
}

/// The product strings a device reports.
pub struct DeviceProductData {
    pub model_id: String,
    pub manufacturer_name: String,
    pub product_name: String,
    pub software_version: String,
}

/// A physical device, as far as the legacy surface reads it.
pub struct Device {
    pub product_data: DeviceProductData,
}

/// A light's current state, as far as the legacy surface reads it:
/// power, brightness already scaled to the legacy range, an optional
/// chromaticity, and an optional color temperature in mirek.
pub struct Light {
    pub on: On,
    pub bri: Option<u32>,
    pub color: Option<crate::gamut::XY>,
    pub mirek: Option<u16>,
    pub metadata: Metadata,
}

/// A room of the current resource model.
pub struct Room {
    pub children: Vec<ResourceLink>,
    pub metadata: Metadata,
    pub services: Vec<ResourceLink>,
}

} // verus!
