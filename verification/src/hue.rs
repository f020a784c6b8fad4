//! The resources of the bridge, and the commands that change them.

use std::collections::BTreeMap;
use vstd::prelude::*;
use vstd::string::StringExecFns;

use crate::text::parse_usize;
use crate::text::read_usize;
use crate::value::JsonModel;
pub use crate::value::JsonValue;

verus! {

/// A command for a light: each field that is set is sent to the bridge, and a
/// field that is `None` is left out of what is sent.
///
/// The two coordinates of `xy` are held as the bits of single-precision floats.
#[derive(Debug, Clone, PartialEq)]
pub struct LightCommand {
    /// Whether to switch the light on or off.
    pub on: Option<bool>,
    /// The brightness.
    pub bri: Option<u8>,
    /// The hue.
    pub hue: Option<u16>,
    /// The saturation.
    pub sat: Option<u8>,
    /// The coordinates of the colour in CIE space, each as IEEE 754 binary32 bits.
    pub xy: Option<(u32, u32)>,
    /// The colour temperature in mired.
    pub ct: Option<u16>,
    /// The alert effect.
    pub alert: Option<String>,
    /// The dynamic effect: `none` or `colorloop`.
    pub effect: Option<String>,
    /// How long the change takes, in steps of 100 ms.
    pub transitiontime: Option<u16>,
    /// By how much to raise or lower the brightness.
    pub bri_inc: Option<i16>,
    /// By how much to raise or lower the saturation.
    pub sat_inc: Option<i16>,
    /// By how much to raise or lower the hue.
    pub hue_inc: Option<i16>,
    /// By how much to raise or lower the colour temperature.
    pub ct_inc: Option<i16>,
    /// By how much to move the two coordinates of the colour.
    pub xy_inc: Option<(i16, i16)>,
}

impl Default for LightCommand {
    /// The command that changes nothing.
    fn default() -> (r: LightCommand)
        ensures
            r == LightCommand::empty(),
    {
        LightCommand {
            on: None,
            bri: None,
            hue: None,
            sat: None,
            xy: None,
            ct: None,
            alert: None,
            effect: None,
            transitiontime: None,
            bri_inc: None,
            sat_inc: None,
            hue_inc: None,
            ct_inc: None,
            xy_inc: None,
        }
    }
}

impl LightCommand {
    /// The command in which no field is set.
    pub open spec fn empty() -> LightCommand {
        LightCommand {
            on: None,
            bri: None,
            hue: None,
            sat: None,
            xy: None,
            ct: None,
            alert: None,
            effect: None,
            transitiontime: None,
            bri_inc: None,
            sat_inc: None,
            hue_inc: None,
            ct_inc: None,
            xy_inc: None,
        }
    }

    /// This command, and the light switched on.
    pub fn on(self) -> (r: LightCommand)
        ensures
            r == (LightCommand { on: Some(true), ..self }),
    {
        LightCommand { on: Some(true), ..self }
    }

    /// This command, and the light switched off.
    pub fn off(self) -> (r: LightCommand)
        ensures
            r == (LightCommand { on: Some(false), ..self }),
    {
        LightCommand { on: Some(false), ..self }
    }

    /// This command, with the brightness set.
    pub fn with_bri(self, b: u8) -> (r: LightCommand)
        ensures
            r == (LightCommand { bri: Some(b), ..self }),
    {
        LightCommand { bri: Some(b), ..self }
    }

    /// This command, with the hue set.
    pub fn with_hue(self, h: u16) -> (r: LightCommand)
        ensures
            r == (LightCommand { hue: Some(h), ..self }),
    {
        LightCommand { hue: Some(h), ..self }
    }

    /// This command, with the saturation set.
    pub fn with_sat(self, s: u8) -> (r: LightCommand)
        ensures
            r == (LightCommand { sat: Some(s), ..self }),
    {
        LightCommand { sat: Some(s), ..self }
    }

    /// This command, with the coordinates of the colour set, each given as
    /// the bits of a single-precision float.
    pub fn with_xy(self, xy: (u32, u32)) -> (r: LightCommand)
        ensures
            r == (LightCommand { xy: Some(xy), ..self }),
    {
        LightCommand { xy: Some(xy), ..self }
    }

    /// This command, with the colour temperature set.
    pub fn with_ct(self, c: u16) -> (r: LightCommand)
        ensures
            r == (LightCommand { ct: Some(c), ..self }),
    {
        LightCommand { ct: Some(c), ..self }
    }

    /// This command, with the alert effect set.
    pub fn with_alert(self, a: String) -> (r: LightCommand)
        ensures
            r == (LightCommand { alert: Some(a), ..self }),
    {
        LightCommand { alert: Some(a), ..self }
    }

    /// This command, with the dynamic effect set.
    pub fn with_effect(self, a: String) -> (r: LightCommand)
        ensures
            r == (LightCommand { effect: Some(a), ..self }),
    {
        LightCommand { effect: Some(a), ..self }
    }

    /// This command, with the time of the transition set.
    pub fn with_transitiontime(self, a: u16) -> (r: LightCommand)
        ensures
            r == (LightCommand { transitiontime: Some(a), ..self }),
    {
        LightCommand { transitiontime: Some(a), ..self }
    }

    /// This command, with the change of the brightness set.
    pub fn with_bri_inc(self, b: i16) -> (r: LightCommand)
        ensures
            r == (LightCommand { bri_inc: Some(b), ..self }),
    {
        LightCommand { bri_inc: Some(b), ..self }
    }

    /// This command, with the change of the hue set.
    pub fn with_hue_inc(self, h: i16) -> (r: LightCommand)
        ensures
            r == (LightCommand { hue_inc: Some(h), ..self }),
    {
        LightCommand { hue_inc: Some(h), ..self }
    }

    /// This command, with the change of the saturation set.
    pub fn with_sat_inc(self, s: i16) -> (r: LightCommand)
        ensures
            r == (LightCommand { sat_inc: Some(s), ..self }),
    {
        LightCommand { sat_inc: Some(s), ..self }
    }

    /// This command, with the change of the colour temperature set.
    pub fn with_ct_inc(self, ct: i16) -> (r: LightCommand)
        ensures
            r == (LightCommand { ct_inc: Some(ct), ..self }),
    {
        LightCommand { ct_inc: Some(ct), ..self }
    }

    /// This command, with the change of the coordinates of the colour set.
    pub fn with_xy_inc(self, xy: (i16, i16)) -> (r: LightCommand)
        ensures
            r == (LightCommand { xy_inc: Some(xy), ..self }),
    {
        LightCommand { xy_inc: Some(xy), ..self }
    }
}

/// The type of a group.
#[derive(Debug, Clone, Copy, PartialEq, Eq, Structural)]
pub enum GroupType {
    /// A luminaire of several light sources.
    Luminaire,
    /// A part of the lights of a luminaire.
    LightSource,
    /// Lights that are controlled together.
    LightGroup,
    /// Lights that are in one room.
    Room,
}

impl GroupType {
    /// The name that the bridge has for this type.
    pub open spec fn name(self) -> Seq<char> {
        match self {
            GroupType::Luminaire => "Luminaire"@,
            GroupType::LightSource => "LightSource"@,
            GroupType::LightGroup => "LightGroup"@,
            GroupType::Room => "Room"@,
        }
    }

    /// The name that the bridge has for this type.
    pub fn to_string(&self) -> (r: String)
        ensures
            r@ == self.name(),
    {
        match self {
            GroupType::Luminaire => String::from_str("Luminaire"),
            GroupType::LightSource => String::from_str("LightSource"),
            GroupType::LightGroup => String::from_str("LightGroup"),
            GroupType::Room => String::from_str("Room"),
        }
    }
}

/// The class of the room of a group.
#[derive(Debug, Clone, Copy, PartialEq, Eq, Structural)]
pub enum RoomClass {
    LivingRoom,
    Kitchen,
    Dining,
    Bedroom,
    KidsBedroom,
    Bathroom,
    Nursery,
    Recreation,
    Office,
    Gym,
    Hallway,
    Toilet,
    FrontDoor,
    Garage,
    Terrace,
    Garden,
    Driveway,
    Carport,
    Other,
}

impl RoomClass {
    /// The name that the bridge has for this class.
    pub open spec fn name(self) -> Seq<char> {
        match self {
            RoomClass::LivingRoom => "Living room"@,
            RoomClass::Kitchen => "Kitchen"@,
            RoomClass::Dining => "Dining"@,
            RoomClass::Bedroom => "Bedroom"@,
            RoomClass::KidsBedroom => "Kids bedroom"@,
            RoomClass::Bathroom => "Bathroom"@,
            RoomClass::Nursery => "Nursery"@,
            RoomClass::Recreation => "Recreation"@,
            RoomClass::Office => "Office"@,
            RoomClass::Gym => "Gym"@,
            RoomClass::Hallway => "Hallway"@,
            RoomClass::Toilet => "Toilet"@,
            RoomClass::FrontDoor => "Front door"@,
            RoomClass::Garage => "Garage"@,
            RoomClass::Terrace => "Terrace"@,
            RoomClass::Garden => "Garden"@,
            RoomClass::Driveway => "Driveway"@,
            RoomClass::Carport => "Carport"@,
            RoomClass::Other => "Other"@,
        }
    }

    /// The name that the bridge has for this class.
    pub fn to_string(&self) -> (r: String)
        ensures
            r@ == self.name(),
    {
        match self {
            RoomClass::LivingRoom => String::from_str("Living room"),
            RoomClass::Kitchen => String::from_str("Kitchen"),
            RoomClass::Dining => String::from_str("Dining"),
            RoomClass::Bedroom => String::from_str("Bedroom"),
            RoomClass::KidsBedroom => String::from_str("Kids bedroom"),
            RoomClass::Bathroom => String::from_str("Bathroom"),
            RoomClass::Nursery => String::from_str("Nursery"),
            RoomClass::Recreation => String::from_str("Recreation"),
            RoomClass::Office => String::from_str("Office"),
            RoomClass::Gym => String::from_str("Gym"),
            RoomClass::Hallway => String::from_str("Hallway"),
            RoomClass::Toilet => String::from_str("Toilet"),
            RoomClass::FrontDoor => String::from_str("Front door"),
            RoomClass::Garage => String::from_str("Garage"),
            RoomClass::Terrace => String::from_str("Terrace"),
            RoomClass::Garden => String::from_str("Garden"),
            RoomClass::Driveway => String::from_str("Driveway"),
            RoomClass::Carport => String::from_str("Carport"),
            RoomClass::Other => String::from_str("Other"),
        }
    }
}

/// Whether every string of the list writes a number.
pub open spec fn all_numbers(list: Seq<String>) -> bool {
    forall|i: int| 0 <= i < list.len() ==> parse_usize((#[trigger] list[i])@) is Some
}

/// The numbers that the strings of a list write, in the same order; `None`
/// where one of the strings writes no number.
pub fn string_to_usize_vec(list: Vec<String>) -> (r: Option<Vec<usize>>)
    ensures
        match r {
            Some(ids) => all_numbers(list@) && ids@.len() == list@.len() && forall|i: int|
                0 <= i < ids@.len() ==> Some(#[trigger] ids@[i]) == parse_usize(list@[i]@),
            None => !all_numbers(list@),
        },
{
    let mut ids: Vec<usize> = Vec::new();
    let mut i: usize = 0;
    while i < list.len()
        invariant
            i <= list@.len(),
            ids@.len() == i,
            forall|k: int| 0 <= k < i ==> parse_usize((#[trigger] list@[k])@) is Some,
            forall|k: int| 0 <= k < i ==> Some(#[trigger] ids@[k]) == parse_usize(list@[k]@),
        decreases list@.len() - i,
    {
        match read_usize(list[i].as_str()) {
            Some(id) => {
                ids.push(id);
            },
            None => {
                return None;
            },
        }
        i = i + 1;
    }
    Some(ids)
}

/// The attributes of a group that `set_group_attributes` changes.
#[derive(Debug, Clone)]
pub struct GroupCommand {
    /// The new name of the group.
    pub name: Option<String>,
    /// The ids of the lights that are to be in the group.
    pub lights: Vec<usize>,
    /// The class of the room.
    pub class: Option<RoomClass>,
}

/// A bridge that a search has found.
#[derive(Debug, Clone)]
pub struct Discovery {
    /// The id of the bridge.
    pub id: String,
    /// The address of the bridge in the local network.
    pub internalipaddress: String,
}

impl Discovery {
    /// The address of the bridge.
    pub fn ip(&self) -> (r: &str)
        ensures
            r@ == self.internalipaddress@,
    {
        self.internalipaddress.as_str()
    }

    /// The id of the bridge.
    pub fn id(&self) -> (r: &str)
        ensures
            r@ == self.id@,
    {
        self.id.as_str()
    }

    /// The address of the bridge, taken out of `self`.
    pub fn into_ip(self) -> (r: String)
        ensures
            r == self.internalipaddress,
    {
        self.internalipaddress
    }
}

/// What can be updated.
#[derive(Debug, Clone)]
pub struct DeviceTypes {
    /// Whether there is an update for the bridge.
    pub bridge: bool,
    /// The lights that there is an update for.
    pub lights: Vec<usize>,
}

/// The software updates of the bridge.
#[derive(Debug, Clone)]
pub struct SoftwareUpdate {
    /// Whether the bridge is to look for updates.
    pub checkforupdate: bool,
    /// What can be updated.
    pub devicetypes: DeviceTypes,
    /// The state of the update.
    pub updatestate: u8,
    /// Where the update is described.
    pub url: String,
    /// A description of the update.
    pub text: String,
    /// Whether the user is to be told of the update.
    pub notify: bool,
}

/// A user in the whitelist of a `Configuration`.
#[derive(Debug, Clone)]
pub struct WhitelistUser {
    /// The name of the user: what was given as `devicetype` when the user was registered.
    pub name: String,
    /// The date on which this user was last used.
    pub last_use_date: String,
    /// The date on which this user was created.
    pub create_date: String,
}

/// The configuration of the bridge.
#[derive(Debug, Clone)]
pub struct Configuration {
    /// The name of the bridge, which is also its UPnP name.
    pub name: String,
    /// The software updates.
    pub swupdate: SoftwareUpdate,
    /// The registered users, by their usernames.
    pub whitelist: BTreeMap<String, WhitelistUser>,
    /// The version of the API of the bridge.
    pub apiversion: String,
    /// The version of the software of the bridge.
    pub swversion: String,
    /// The address of the proxy, or `none`.
    pub proxyaddress: String,
    /// The port of the proxy, or 0.
    pub proxyport: u16,
    /// Whether the link button was pressed in the last 30 seconds.
    pub linkbutton: bool,
    /// The IP address of the bridge.
    pub ipaddress: String,
    /// The MAC address of the bridge.
    pub mac: String,
    /// The network mask of the bridge.
    pub netmask: String,
    /// The gateway of the bridge.
    pub gateway: String,
    /// Whether the bridge has its address from DHCP.
    pub dhcp: bool,
    /// Whether the bridge is registered with a portal account.
    pub portalservices: bool,
    /// The time of the bridge, in UTC.
    pub utc: String,
    /// The local time of the bridge, or `none`.
    pub localtime: String,
    /// The time zone of the bridge, or `none`.
    pub timezone: String,
    /// The ZigBee channel that the bridge uses.
    pub zigbeechannel: u8,
    /// The hardware model of the bridge.
    pub modelid: String,
    /// The id of the bridge.
    pub bridgeid: String,
    /// Whether the settings of the bridge are those of the factory.
    pub factorynew: bool,
    /// The id of the bridge whose backup was restored on this one, if any.
    pub replacesbridgeid: Option<String>,
}

/// What to set of the software updates of the bridge.
#[derive(Debug, Clone)]
pub struct SoftwareUpdateModifier {
    /// Whether the bridge is to look for updates.
    pub checkforupdate: bool,
}

/// The changes that `modify_configuration` makes; a field that is `None` is left as it is.
#[derive(Debug, Clone)]
pub struct ConfigurationModifier {
    /// The name of the bridge.
    pub name: Option<String>,
    /// The software updates.
    pub swupdate: Option<SoftwareUpdateModifier>,
    /// The address of the proxy, or `none`.
    pub proxyaddress: Option<String>,
    /// The port of the proxy, or 0.
    pub proxyport: Option<u16>,
    /// Whether the link button counts as pressed.
    pub linkbutton: Option<bool>,
    /// The IP address of the bridge.
    pub ipaddress: Option<String>,
    /// The network mask of the bridge.
    pub netmask: Option<String>,
    /// The gateway of the bridge.
    pub gateway: Option<String>,
    /// Whether the bridge takes its address from DHCP.
    pub dhcp: Option<bool>,
    /// The time of the bridge, in UTC.
    pub utc: Option<String>,
    /// The time zone of the bridge.
    pub timezone: Option<String>,
    /// Whether to start a touchlink.
    pub touchlink: Option<bool>,
}

impl Default for ConfigurationModifier {
    /// The modifier that changes nothing.
    fn default() -> (r: ConfigurationModifier)
        ensures
            r.name is None && r.swupdate is None && r.proxyaddress is None && r.proxyport is None
                && r.linkbutton is None && r.ipaddress is None && r.netmask is None && r.gateway
                is None && r.dhcp is None && r.utc is None && r.timezone is None && r.touchlink
                is None,
    {
        ConfigurationModifier {
            name: None,
            swupdate: None,
            proxyaddress: None,
            proxyport: None,
            linkbutton: None,
            ipaddress: None,
            netmask: None,
            gateway: None,
            dhcp: None,
            utc: None,
            timezone: None,
            touchlink: None,
        }
    }
}

/// The value that stands for a part of the state of the bridge that is not read.
pub fn null_value() -> (r: JsonValue)
    ensures
        r@ == JsonModel::Null,
{
    JsonValue::Null
}

/// Data that an application has attached to a scene.
#[derive(Debug, Clone, PartialEq)]
pub struct AppData {
    /// The version of the data, as the application counts it.
    pub version: i8,
    /// The data.
    pub data: String,
}

impl Default for AppData {
    /// Version 0 and no data.
    fn default() -> (r: AppData)
        ensures
            r.is_default(),
    {
        AppData { version: 0, data: String::new() }
    }
}

impl AppData {
    /// Whether this is what `default` gives: version 0 and no data.
    pub open spec fn is_default(&self) -> bool {
        self.version == 0 && self.data@.len() == 0
    }
}

/// The data of an application as it was sent, unless it is missing or is
/// what `AppData::default` gives: both count as no data.
pub fn non_default(data: Option<AppData>) -> (r: Option<AppData>)
    ensures
        r == match data {
            Some(d) => if d.is_default() {
                None
            } else {
                Some(d)
            },
            None => None,
        },
{
    match data {
        Some(d) => {
            if d.version == 0 && d.data.as_str().unicode_len() == 0 {
                None
            } else {
                Some(d)
            }
        },
        None => None,
    }
}

/// What is sent to create a scene.
#[derive(Debug, Clone)]
pub struct SceneCreater {
    /// The name of the scene.
    pub name: String,
    /// The ids of the lights of the scene.
    pub lights: Vec<usize>,
    /// Whether the bridge may remove the scene by itself.
    pub recycle: Option<bool>,
    /// The data of an application.
    pub appdata: Option<AppData>,
    /// The picture of the scene.
    pub picture: Option<String>,
    /// How long the lights take to change to the scene, in steps of 100 ms.
    pub transitiontime: Option<u16>,
}

/// What is sent to change a scene.
#[derive(Debug, Clone)]
pub struct SceneModifier {
    /// The new name of the scene.
    pub name: Option<String>,
    /// The ids of the lights that the scene is to have.
    pub lights: Option<Vec<usize>>,
    /// Whether to store in the scene the states that its lights have now.
    pub storelightstate: bool,
}

} // verus!
