//! Plain data types of the bridge's legacy resource API, and the
//! factories that fill them. Dates are held as milliseconds since the
//! Unix epoch, hardware and network addresses as plain byte arrays, and
//! identifiers as 128-bit values; the serialization layer outside this
//! library turns them into the legacy wire shapes.

use vstd::prelude::*;

use crate::api::{Device, Light, On, Room};
use crate::fmt::{dec_string_u32, push_hex_byte, spec_dec_digits, spec_hex_byte, spec_hex_digits,
    uuid_hyphenated, uuid_simple, spec_uuid_hyphenated};
use crate::gamut::{ColorGamut, XY};
use crate::spec_bridge_id;
use crate::bridge_id;

verus! {

/// Relies on std's `SystemTime::now`, whose documentation promises
/// nothing about the value read. The result depends on the machine
/// clock, so only its sign is stated; the body is total: a clock before
/// the Unix epoch yields zero, and a span beyond the result type
/// saturates.
#[verifier::external_body]
fn utc_now_millis() -> (r: i64)
    ensures
        0 <= r,
{
    match std::time::SystemTime::now().duration_since(std::time::UNIX_EPOCH) {
        Ok(span) => i64::try_from(span.as_millis()).unwrap_or(i64::MAX),
        Err(_) => 0,
    }
}

/// An error entry of a legacy API reply.
pub struct HueError {
    pub typ: u32,
    pub address: String,
    pub description: String,
}

/// A legacy API reply: either a payload or an error entry.
pub enum HueResult<T> {
    Success(T),
    Error(HueError),
}

/// A hardware address as six colon-separated lowercase hexadecimal
/// bytes.
pub open spec fn spec_mac_colon(m: Seq<u8>) -> Seq<char> {
    spec_hex_byte(m[0]) + seq![':'] + spec_hex_byte(m[1]) + seq![':'] + spec_hex_byte(m[2])
        + seq![':'] + spec_hex_byte(m[3]) + seq![':'] + spec_hex_byte(m[4]) + seq![':']
        + spec_hex_byte(m[5])
}

/// The colon-separated lowercase writing of a hardware address, as the
/// legacy configuration surface prints it.
pub fn mac_address_string(mac: [u8; 6]) -> (r: String)
    ensures
        r@ == spec_mac_colon(mac@),
{
    proof {
        reveal_strlit(":");
    }
    let mut s = String::new();
    push_hex_byte(&mut s, mac[0]);
    s.append(":");
    push_hex_byte(&mut s, mac[1]);
    s.append(":");
    push_hex_byte(&mut s, mac[2]);
    s.append(":");
    push_hex_byte(&mut s, mac[3]);
    s.append(":");
    push_hex_byte(&mut s, mac[4]);
    s.append(":");
    push_hex_byte(&mut s, mac[5]);
    assert(s@ =~= spec_mac_colon(mac@));
    s
}

/// A software version as the legacy surface reports it: an API version
/// and a build version string.
pub struct SwVersion {
    pub apiversion: String,
    pub swversion: String,
}

impl SwVersion {
    /// A version record with the given legacy strings.
    pub fn new(apiversion: String, swversion: String) -> (r: Self)
        ensures
            r.apiversion@ == apiversion@,
            r.swversion@ == swversion@,
    {
        SwVersion { apiversion, swversion }
    }

    /// The legacy API version string.
    pub fn get_legacy_apiversion(&self) -> (r: String)
        ensures
            r@ == self.apiversion@,
    {
        self.apiversion.clone()
    }

    /// The legacy build version string.
    pub fn get_legacy_swversion(&self) -> (r: String)
        ensures
            r@ == self.swversion@,
    {
        self.swversion.clone()
    }
}

/// The short configuration record every client may read.
pub struct ApiShortConfig {
    pub apiversion: String,
    pub bridgeid: String,
    pub datastoreversion: String,
    pub factorynew: bool,
    pub mac: [u8; 6],
    pub modelid: String,
    pub name: String,
    pub replacesbridgeid: Option<String>,
    pub starterkitid: String,
    pub swversion: String,
}

impl Default for ApiShortConfig {
    /// The factory configuration: an all-zero bridge identifier and
    /// hardware address, the bridge model, and the default version
    /// strings.
    fn default() -> (r: Self)
        ensures
            r.apiversion@ == "1.66.0"@,
            r.bridgeid@ == "0000000000000000"@,
            r.datastoreversion@ == "163"@,
            r.factorynew == false,
            r.mac@ =~= seq![0u8, 0u8, 0u8, 0u8, 0u8, 0u8],
            r.modelid@ == "BSB002"@,
            r.name@ == "Bifrost Bridge"@,
            r.replacesbridgeid is None,
            r.starterkitid@ == ""@,
            r.swversion@ == "1966060010"@,
    {
        ApiShortConfig {
            apiversion: "1.66.0".to_owned(),
            bridgeid: "0000000000000000".to_owned(),
            datastoreversion: "163".to_owned(),
            factorynew: false,
            mac: [0, 0, 0, 0, 0, 0],
            modelid: "BSB002".to_owned(),
            name: "Bifrost Bridge".to_owned(),
            replacesbridgeid: None,
            starterkitid: "".to_owned(),
            swversion: "1966060010".to_owned(),
        }
    }
}

impl ApiShortConfig {
    /// The short configuration of a bridge with the given hardware
    /// address and software version; every other field keeps its
    /// default.
    pub fn from_mac_and_version(mac: [u8; 6], version: &SwVersion) -> (r: Self)
        ensures
            r.bridgeid@ == spec_bridge_id(mac@),
            r.apiversion@ == version.apiversion@,
            r.swversion@ == version.swversion@,
            r.mac@ == mac@,
            r.datastoreversion@ == "163"@,
            r.factorynew == false,
            r.modelid@ == "BSB002"@,
            r.name@ == "Bifrost Bridge"@,
            r.replacesbridgeid is None,
            r.starterkitid@ == ""@,
    {
        ApiShortConfig {
            bridgeid: bridge_id(mac),
            apiversion: version.get_legacy_apiversion(),
            swversion: version.get_legacy_swversion(),
            mac,
            ..Default::default()
        }
    }
}

/// The resource families of the legacy API.
#[derive(Clone, Copy, Debug, PartialEq, Eq, Structural)]
pub enum ApiResourceType {
    Config,
    Groups,
    Lights,
    Resourcelinks,
    Rules,
    Scenes,
    Schedules,
    Sensors,
    Capabilities,
}

/// A pairing request from a new client.
pub struct NewUser {
    pub devicetype: String,
    pub generateclientkey: Option<bool>,
}

/// The credentials handed to a newly paired client.
#[derive(Clone, Copy, Debug, PartialEq, Eq, Structural)]
pub struct NewUserReply {
    pub username: u128,
    pub clientkey: u128,
}

/// Whether a portal-side service is reachable.
#[derive(Clone, Copy, Debug, PartialEq, Eq, Structural)]
pub enum ConnectionState {
    Connected,
    Disconnected,
}

impl Default for ConnectionState {
    /// Disconnected until something says otherwise.
    fn default() -> (r: Self)
        ensures
            r == ConnectionState::Disconnected,
    {
        ConnectionState::Disconnected
    }
}

/// The reachability the bridge claims for the internet-facing services.
#[derive(Clone, Copy, Debug, PartialEq, Eq, Structural)]
pub struct ApiInternetServices {
    pub internet: ConnectionState,
    pub remoteaccess: ConnectionState,
    pub swupdate: ConnectionState,
    pub time: ConnectionState,
}

impl Default for ApiInternetServices {
    /// Everything reported as connected, as the emulated bridge always
    /// answers.
    fn default() -> (r: Self)
        ensures
            r.internet == ConnectionState::Connected,
            r.remoteaccess == ConnectionState::Connected,
            r.swupdate == ConnectionState::Connected,
            r.time == ConnectionState::Connected,
    {
        ApiInternetServices {
            internet: ConnectionState::Connected,
            remoteaccess: ConnectionState::Connected,
            swupdate: ConnectionState::Connected,
            time: ConnectionState::Connected,
        }
    }
}

/// The legacy portal-link state.
#[derive(Clone, Copy, Debug, PartialEq, Eq, Structural)]
pub struct PortalState {
    pub communication: ConnectionState,
    pub incoming: bool,
    pub outgoing: bool,
    pub signedon: bool,
}

impl Default for PortalState {
    /// No portal link at all.
    fn default() -> (r: Self)
        ensures
            r.communication == ConnectionState::Disconnected,
            r.incoming == false,
            r.outgoing == false,
            r.signedon == false,
    {
        PortalState {
            communication: ConnectionState::Disconnected,
            incoming: false,
            outgoing: false,
            signedon: false,
        }
    }
}

/// The state of the last configuration backup.
pub struct ApiBackup {
    pub errorcode: u32,
    pub status: String,
}

impl Default for ApiBackup {
    /// No backup running and no error recorded.
    fn default() -> (r: Self)
        ensures
            r.errorcode == 0,
            r.status@ == "idle"@,
    {
        ApiBackup { errorcode: 0, status: "idle".to_owned() }
    }
}

/// Whether a software update is waiting or moving.
#[derive(Clone, Copy, Debug, PartialEq, Eq, Structural)]
pub enum SwUpdateState {
    NoUpdates,
    Transferring,
}

/// The software-update state of one component, with the time of its
/// last installation in milliseconds since the Unix epoch.
#[derive(Clone, Copy, Debug, PartialEq, Eq, Structural)]
pub struct SwUpdate {
    pub lastinstall: i64,
    pub state: SwUpdateState,
}

impl Default for SwUpdate {
    /// Nothing to update, installed just now.
    fn default() -> (r: Self)
        ensures
            r.state == SwUpdateState::NoUpdates,
            0 <= r.lastinstall,
    {
        SwUpdate { lastinstall: utc_now_millis(), state: SwUpdateState::NoUpdates }
    }
}

/// When automatic installation runs.
pub struct AutoInstall {
    pub on: bool,
    pub updatetime: String,
}

/// The whole software-update record of the legacy configuration.
pub struct SoftwareUpdate2 {
    pub autoinstall: AutoInstall,
    pub bridge: SwUpdate,
    pub checkforupdate: bool,
    pub lastchange: i64,
    pub state: SwUpdateState,
}

impl SoftwareUpdate2 {
    /// A quiet update record: automatic installation at the fixed
    /// afternoon slot, nothing transferring, everything current.
    pub fn new() -> (r: Self)
        ensures
            r.autoinstall.on == true,
            r.autoinstall.updatetime@ == "T14:00:00"@,
            r.bridge.state == SwUpdateState::NoUpdates,
            0 <= r.bridge.lastinstall,
            r.checkforupdate == false,
            0 <= r.lastchange,
            r.state == SwUpdateState::NoUpdates,
    {
        SoftwareUpdate2 {
            autoinstall: AutoInstall { on: true, updatetime: "T14:00:00".to_owned() },
            bridge: SwUpdate {
                lastinstall: utc_now_millis(),
                state: SwUpdateState::NoUpdates,
            },
            checkforupdate: false,
            lastchange: utc_now_millis(),
            state: SwUpdateState::NoUpdates,
        }
    }
}

/// One paired client, with its creation and last-use times in
/// milliseconds since the Unix epoch.
pub struct Whitelist {
    pub create_date: i64,
    pub last_use_date: i64,
    pub name: String,
}

/// The full legacy configuration record. Network addresses are held as
/// plain byte quadruples and times as milliseconds since the Unix
/// epoch.
pub struct ApiConfig {
    pub analyticsconsent: bool,
    pub backup: ApiBackup,
    pub short_config: ApiShortConfig,
    pub dhcp: bool,
    pub internetservices: ApiInternetServices,
    pub linkbutton: bool,
    pub portalconnection: ConnectionState,
    pub portalservices: bool,
    pub portalstate: PortalState,
    pub proxyaddress: String,
    pub proxyport: u16,
    pub swupdate2: SoftwareUpdate2,
    pub zigbeechannel: u8,
    pub ipaddress: [u8; 4],
    pub netmask: [u8; 4],
    pub gateway: [u8; 4],
    pub timezone: String,
    pub utc: i64,
    pub localtime: i64,
    /// The paired clients, one entry per client key; no key appears
    /// twice.
    pub whitelist: Vec<(String, Whitelist)>,
}

impl ApiConfig {
    /// The same configuration with the time zone replaced, for a host
    /// that has guessed its own zone and hands the name in as a plain
    /// value; every other field is kept.
    pub fn with_timezone(self, timezone: String) -> (r: Self)
        ensures
            r == (ApiConfig { timezone, ..self }),
    {
        ApiConfig { timezone, ..self }
    }
}

impl Default for ApiConfig {
    /// An unconfigured bridge: dynamic addressing on an unspecified
    /// address, no portal link, no proxy, no paired clients, the radio
    /// on its default channel, the factory short configuration, and the
    /// clock read once for both time fields. The time zone starts at
    /// the universal default; a host that has guessed its own zone
    /// hands the name to [`ApiConfig::with_timezone`].
    fn default() -> (r: Self)
        ensures
            r.analyticsconsent == false,
            r.backup.errorcode == 0,
            r.backup.status@ == "idle"@,
            r.short_config.apiversion@ == "1.66.0"@,
            r.short_config.bridgeid@ == "0000000000000000"@,
            r.short_config.datastoreversion@ == "163"@,
            r.short_config.factorynew == false,
            r.short_config.mac@ =~= seq![0u8, 0u8, 0u8, 0u8, 0u8, 0u8],
            r.short_config.modelid@ == "BSB002"@,
            r.short_config.name@ == "Bifrost Bridge"@,
            r.short_config.replacesbridgeid is None,
            r.short_config.starterkitid@ == ""@,
            r.short_config.swversion@ == "1966060010"@,
            r.dhcp == true,
            r.internetservices.internet == ConnectionState::Connected,
            r.linkbutton == false,
            r.portalconnection == ConnectionState::Disconnected,
            r.portalservices == false,
            r.portalstate == (PortalState {
                communication: ConnectionState::Disconnected,
                incoming: false,
                outgoing: false,
                signedon: false,
            }),
            r.proxyaddress@ == "none"@,
            r.proxyport == 0,
            r.swupdate2.state == SwUpdateState::NoUpdates,
            r.zigbeechannel == 25,
            r.ipaddress@ =~= seq![0u8, 0u8, 0u8, 0u8],
            r.netmask@ =~= seq![0u8, 0u8, 0u8, 0u8],
            r.gateway@ =~= seq![0u8, 0u8, 0u8, 0u8],
            r.timezone@ == "UTC"@,
            0 <= r.utc,
            0 <= r.localtime,
            r.whitelist@.len() == 0,
    {
        ApiConfig {
            analyticsconsent: false,
            backup: Default::default(),
            short_config: Default::default(),
            dhcp: true,
            internetservices: Default::default(),
            linkbutton: false,
            portalconnection: ConnectionState::Disconnected,
            portalservices: false,
            portalstate: Default::default(),
            proxyaddress: "none".to_owned(),
            proxyport: 0,
            swupdate2: SoftwareUpdate2::new(),
            zigbeechannel: 25,
            ipaddress: [0, 0, 0, 0],
            netmask: [0, 0, 0, 0],
            gateway: [0, 0, 0, 0],
            timezone: "UTC".to_owned(),
            utc: utc_now_millis(),
            localtime: utc_now_millis(),
            whitelist: Vec::new(),
        }
    }
}

/// The visual effect a legacy state change may name. The wire writes
/// the first variant as the word for no effect at all.
#[derive(Clone, Copy, Debug, PartialEq, Eq, Structural)]
pub enum ApiEffect {
    NoEffect,
}

/// The alert a legacy state change may name. The wire writes the first
/// variant as the word for no alert at all.
#[derive(Clone, Copy, Debug, PartialEq, Eq, Structural)]
pub enum ApiAlert {
    NoAlert,
    Select,
}

/// Which of the color channels drove the last change.
#[derive(Clone, Copy, Debug, PartialEq, Eq, Structural)]
pub enum LightColorMode {
    Ct,
    Xy,
    Hs,
}

/// The aggregate action record of a legacy group.
pub struct ApiGroupAction {
    pub on: bool,
    pub bri: Option<u32>,
    pub hue: Option<u32>,
    pub sat: Option<u32>,
    pub effect: Option<ApiEffect>,
    pub xy: Option<XY>,
    pub ct: Option<u16>,
    pub alert: ApiAlert,
    pub colormode: Option<LightColorMode>,
}

/// The family of a legacy group.
#[derive(Clone, Copy, Debug, PartialEq, Eq, Structural)]
pub enum ApiGroupType {
    Entertainment,
    LightGroup,
    Room,
    Zone,
}

/// A legacy group record. The opaque transitional fields of the wire
/// shape live with the serialization layer.
pub struct ApiGroup {
    pub name: String,
    pub lights: Vec<String>,
    pub action: ApiGroupAction,
    pub group_type: ApiGroupType,
    pub class: String,
    pub recycle: bool,
    pub sensors: Vec<String>,
}

impl ApiGroup {
    /// The legacy view of a room: the room's name, its light
    /// identifiers, and an action built from the grouped light's power
    /// state — absent counts as off — and already-scaled brightness;
    /// every other channel is absent.
    pub fn from_lights_and_room(on: Option<On>, bri: Option<u32>, lights: Vec<String>, room: Room)
        -> (r: Self)
        ensures
            r.name@ == room.metadata.name@,
            r.lights@ == lights@,
            r.action.on == (on matches Some(o) && o.on),
            r.action.bri == bri,
            r.action.hue is None,
            r.action.sat is None,
            r.action.effect is None,
            r.action.xy is None,
            r.action.ct is None,
            r.action.alert == ApiAlert::NoAlert,
            r.action.colormode is None,
            r.class@ == "Bedroom"@,
            r.group_type == ApiGroupType::Room,
            r.recycle == false,
            r.sensors@.len() == 0,
    {
        let powered = match on {
            Some(o) => o.on,
            None => false,
        };
        ApiGroup {
            name: room.metadata.name,
            lights,
            action: ApiGroupAction {
                on: powered,
                bri,
                hue: None,
                sat: None,
                effect: None,
                xy: None,
                ct: None,
                alert: ApiAlert::NoAlert,
                colormode: None,
            },
            class: "Bedroom".to_owned(),
            group_type: ApiGroupType::Room,
            recycle: false,
            sensors: Vec::new(),
        }
    }
}

/// The aggregate power state of a legacy group.
#[derive(Clone, Copy, Debug, PartialEq, Eq, Structural)]
pub struct ApiGroupState {
    pub all_on: bool,
    pub any_on: bool,
}

/// A legacy group update that recalls a scene.
pub struct ApiGroupUpdate {
    pub scene: String,
}

/// A legacy state change of a single light.
pub struct ApiLightStateUpdate {
    pub on: Option<bool>,
    pub bri: Option<u32>,
    pub xy: Option<XY>,
    pub ct: Option<u16>,
}

/// A legacy group action: either a scene recall or a light-state
/// change.
pub enum ApiGroupActionUpdate {
    GroupUpdate(ApiGroupUpdate),
    LightUpdate(ApiLightStateUpdate),
}

/// The momentary state a legacy light reports.
pub struct ApiLightState {
    pub on: bool,
    pub bri: Option<u32>,
    pub hue: Option<u32>,
    pub sat: Option<u32>,
    pub effect: Option<String>,
    pub xy: Option<XY>,
    pub ct: Option<u16>,
    pub alert: String,
    pub colormode: Option<LightColorMode>,
    pub mode: String,
    pub reachable: bool,
}

/// What a legacy light claims it can control.
pub struct ApiLightControl {
    pub colorgamut: ColorGamut,
    pub colorgamuttype: String,
    pub ct_min: u16,
    pub ct_max: u16,
    pub maxlumen: u32,
    pub mindimlevel: u32,
}

/// The streaming roles a legacy light claims.
#[derive(Clone, Copy, Debug, PartialEq, Eq, Structural)]
pub struct ApiLightStreaming {
    pub proxy: bool,
    pub renderer: bool,
}

/// The capability record of a legacy light.
pub struct ApiLightCapabilities {
    pub certified: bool,
    pub control: ApiLightControl,
    pub streaming: ApiLightStreaming,
}

/// How a legacy light powers up.
pub struct ApiLightStartup {
    pub mode: String,
    pub configured: bool,
}

/// The configuration record of a legacy light.
pub struct ApiLightConfig {
    pub archetype: String,
    pub function: String,
    pub direction: String,
    pub startup: ApiLightStartup,
}

/// A legacy light record.
pub struct ApiLight {
    pub state: ApiLightState,
    pub swupdate: SwUpdate,
    pub light_type: String,
    pub name: String,
    pub modelid: String,
    pub manufacturername: String,
    pub productname: String,
    pub capabilities: ApiLightCapabilities,
    pub config: ApiLightConfig,
    pub uniqueid: String,
    pub swversion: String,
    pub swconfigid: Option<String>,
    pub productid: Option<String>,
}

impl ApiLight {
    /// The legacy view of a current-API light: its state carried over
    /// channel by channel, the color mode chosen by whether a color is
    /// set, the device's product strings, the fixed capability and
    /// configuration records of an extended color spot, and the
    /// identifier written as thirty-two hexadecimal digits.
    pub fn from_dev_and_light(id: u128, dev: &Device, light: &Light) -> (r: Self)
        ensures
            r.state.on == light.on.on,
            r.state.bri == light.bri,
            r.state.hue is None,
            r.state.sat is None,
            r.state.effect is None,
            r.state.xy == light.color,
            r.state.ct == light.mirek,
            r.state.alert@ == ""@,
            r.state.colormode == Some(
                if light.color is Some {
                    LightColorMode::Xy
                } else {
                    LightColorMode::Ct
                },
            ),
            r.state.mode@ == "homeautomation"@,
            r.state.reachable == true,
            r.swupdate.state == SwUpdateState::NoUpdates,
            r.light_type@ == "Extended color light"@,
            r.name@ == light.metadata.name@,
            r.modelid@ == dev.product_data.product_name@,
            r.manufacturername@ == dev.product_data.manufacturer_name@,
            r.productname@ == "Hue color spot"@,
            r.capabilities.certified == true,
            r.capabilities.control.colorgamut == crate::gamut::spec_gamut_c(),
            r.capabilities.control.colorgamuttype@ == "C"@,
            r.capabilities.control.ct_min == 153,
            r.capabilities.control.ct_max == 500,
            r.capabilities.control.maxlumen == 300,
            r.capabilities.control.mindimlevel == 200,
            r.capabilities.streaming == (ApiLightStreaming { proxy: true, renderer: true }),
            r.config.archetype@ == "spotbulb"@,
            r.config.function@ == "mixed"@,
            r.config.direction@ == "downwards"@,
            r.config.startup.mode@ == "safety"@,
            r.config.startup.configured == true,
            r.uniqueid@ == spec_hex_digits(id as nat, 32),
            r.swversion@ == dev.product_data.software_version@,
            r.swconfigid is None,
            r.productid matches Some(p) && p@ == dev.product_data.model_id@,
    {
        let colormode = if light.color.is_some() {
            LightColorMode::Xy
        } else {
            LightColorMode::Ct
        };
        ApiLight {
            state: ApiLightState {
                on: light.on.on,
                bri: light.bri,
                hue: None,
                sat: None,
                effect: None,
                xy: light.color,
                ct: light.mirek,
                alert: "".to_owned(),
                colormode: Some(colormode),
                mode: "homeautomation".to_owned(),
                reachable: true,
            },
            swupdate: Default::default(),
            name: light.metadata.name.clone(),
            modelid: dev.product_data.product_name.clone(),
            manufacturername: dev.product_data.manufacturer_name.clone(),
            productname: "Hue color spot".to_owned(),
            productid: Some(dev.product_data.model_id.clone()),
            capabilities: ApiLightCapabilities {
                certified: true,
                control: ApiLightControl {
                    colorgamut: ColorGamut::gamut_c(),
                    colorgamuttype: "C".to_owned(),
                    ct_min: 153,
                    ct_max: 500,
                    maxlumen: 300,
                    mindimlevel: 200,
                },
                streaming: ApiLightStreaming { proxy: true, renderer: true },
            },
            config: ApiLightConfig {
                archetype: "spotbulb".to_owned(),
                function: "mixed".to_owned(),
                direction: "downwards".to_owned(),
                startup: ApiLightStartup { mode: "safety".to_owned(), configured: true },
            },
            light_type: "Extended color light".to_owned(),
            uniqueid: uuid_simple(id),
            swversion: dev.product_data.software_version.clone(),
            swconfigid: None,
        }
    }
}

/// A legacy link record that groups other resources.
pub struct ApiResourceLink {
    pub link_type: String,
    pub name: String,
    pub description: String,
    pub classid: u32,
    pub owner: u128,
    pub recycle: bool,
    pub links: Vec<String>,
}

/// Whether a legacy scene belongs to its lights or to a group.
#[derive(Clone, Copy, Debug, PartialEq, Eq, Structural)]
pub enum ApiSceneType {
    LightScene,
    GroupScene,
}

/// The legacy scene format generation.
#[derive(Clone, Copy, Debug, PartialEq, Eq, Structural)]
pub enum ApiSceneVersion {
    V2,
}

impl ApiSceneVersion {
    /// The number the legacy surface writes for this generation.
    pub fn value(&self) -> (v: u32)
        ensures
            v == 2,
    {
        2
    }
}

/// The client-application annotation of a legacy scene.
pub struct ApiSceneAppData {
    pub data: Option<String>,
    pub version: Option<u8>,
}

/// A legacy scene record.
pub struct ApiScene {
    pub name: String,
    pub scene_type: ApiSceneType,
    pub lights: Vec<String>,
    pub lightstates: Vec<(String, ApiLightStateUpdate)>,
    pub owner: String,
    pub recycle: bool,
    pub locked: bool,
    pub appdata: ApiSceneAppData,
    pub picture: String,
    pub lastupdated: i64,
    pub version: u32,
    pub image: Option<u128>,
    pub group: Option<String>,
}

impl ApiScene {
    /// The legacy view of a current-API scene, once the resource store
    /// has resolved its targets: the legacy light identifiers, the
    /// per-light states, the owner written in hyphenated form, and the
    /// room number both as the group field and inside the
    /// client-application annotation some clients require.
    pub fn from_scene_parts(
        name: String,
        lights: Vec<String>,
        lightstates: Vec<(String, ApiLightStateUpdate)>,
        owner: u128,
        room_id: u32,
        image: Option<u128>,
    ) -> (r: Self)
        ensures
            r.name@ == name@,
            r.scene_type == ApiSceneType::GroupScene,
            r.lights@ == lights@,
            r.lightstates@ == lightstates@,
            r.owner@ == spec_uuid_hyphenated(owner as nat),
            r.recycle == false,
            r.locked == false,
            r.appdata.data matches Some(d) && d@ == "xxxxx_r"@ + spec_dec_digits(
                room_id as nat,
            ),
            r.appdata.version == Some(1u8),
            r.picture@ == ""@,
            0 <= r.lastupdated,
            r.version == 2,
            r.image == image,
            r.group matches Some(g) && g@ == spec_dec_digits(room_id as nat),
    {
        let mut appdata_data = "xxxxx_r".to_owned();
        crate::fmt::push_dec_u32(&mut appdata_data, room_id);
        ApiScene {
            name,
            scene_type: ApiSceneType::GroupScene,
            lights,
            lightstates,
            owner: uuid_hyphenated(owner),
            recycle: false,
            locked: false,
            appdata: ApiSceneAppData { data: Some(appdata_data), version: Some(1) },
            picture: "".to_owned(),
            lastupdated: utc_now_millis(),
            version: 2,
            image,
            group: Some(dec_string_u32(room_id)),
        }
    }
}

/// How many entries of one kind the bridge claims to have room for.
#[derive(Clone, Copy, Debug, PartialEq, Eq, Structural, Default)]
pub struct Capacity {
    pub available: u32,
    pub total: u32,
}

impl Capacity {
    /// The record [`Capacity::new`] builds from the given bounds.
    pub open spec fn spec_new(total: u32, available: u32) -> Capacity {
        Capacity { available, total }
    }

    /// A capacity record with the given bounds.
    pub fn new(total: u32, available: u32) -> (r: Self)
        ensures
            r == Capacity::spec_new(total, available),
    {
        Capacity { available, total }
    }
}

/// The sensor capacities, split by radio family.
#[derive(Clone, Copy, Debug, PartialEq, Eq, Structural)]
pub struct SensorsCapacity {
    pub available: u32,
    pub total: u32,
    pub clip: Capacity,
    pub zll: Capacity,
    pub zgp: Capacity,
}

/// The scene capacities, with the per-scene light-state room.
#[derive(Clone, Copy, Debug, PartialEq, Eq, Structural)]
pub struct ScenesCapacity {
    pub available: u32,
    pub total: u32,
    pub lightstates: Capacity,
}

/// The rule capacities, with the per-rule condition and action room.
#[derive(Clone, Copy, Debug, PartialEq, Eq, Structural)]
pub struct RulesCapacity {
    pub available: u32,
    pub total: u32,
    pub conditions: Capacity,
    pub actions: Capacity,
}

/// The entertainment-streaming capacities.
#[derive(Clone, Copy, Debug, PartialEq, Eq, Structural)]
pub struct StreamingCapacity {
    pub available: u32,
    pub total: u32,
    pub channels: u32,
}

/// Everything the bridge claims to have room for, and the time zones it
/// offers.
pub struct Capabilities {
    pub lights: Capacity,
    pub sensors: SensorsCapacity,
    pub groups: Capacity,
    pub schedules: Capacity,
    pub rules: RulesCapacity,
    pub resourcelinks: Capacity,
    pub streaming: StreamingCapacity,
    pub timezones: Vec<String>,
}

impl Capabilities {
    /// The fixed capacities the emulated bridge reports, and its short
    /// list of offered time zones.
    pub fn new() -> (r: Self)
        ensures
            r.lights == Capacity::spec_new(63, 60),
            r.sensors.available == 240,
            r.sensors.total == 250,
            r.sensors.clip == Capacity::spec_new(250, 240),
            r.sensors.zll == Capacity::spec_new(64, 63),
            r.sensors.zgp == Capacity::spec_new(64, 63),
            r.groups == Capacity::spec_new(64, 60),
            r.schedules == Capacity::spec_new(100, 95),
            r.rules.available == 233,
            r.rules.total == 255,
            r.rules.conditions == Capacity::spec_new(1500, 1451),
            r.rules.actions == Capacity::spec_new(1000, 954),
            r.resourcelinks == Capacity::spec_new(64, 59),
            r.streaming == (StreamingCapacity { available: 1, total: 1, channels: 20 }),
            r.timezones@.len() == 4,
            r.timezones@[0]@ == "CET"@,
            r.timezones@[1]@ == "UTC"@,
            r.timezones@[2]@ == "GMT"@,
            r.timezones@[3]@ == "Europe/Copenhagen"@,
    {
        let mut timezones: Vec<String> = Vec::new();
        timezones.push("CET".to_owned());
        timezones.push("UTC".to_owned());
        timezones.push("GMT".to_owned());
        timezones.push("Europe/Copenhagen".to_owned());
        Capabilities {
            lights: Capacity::new(63, 60),
            sensors: SensorsCapacity {
                available: 240,
                total: 250,
                clip: Capacity::new(250, 240),
                zll: Capacity::new(64, 63),
                zgp: Capacity::new(64, 63),
            },
            groups: Capacity::new(64, 60),
            schedules: Capacity::new(100, 95),
            rules: RulesCapacity {
                available: 233,
                total: 255,
                conditions: Capacity::new(1500, 1451),
                actions: Capacity::new(1000, 954),
            },
            resourcelinks: Capacity::new(64, 59),
            streaming: StreamingCapacity { available: 1, total: 1, channels: 20 },
            timezones,
        }
    }
}

} // verus!
