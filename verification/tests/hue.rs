use philipshue::hue::{
    non_default, string_to_usize_vec, AppData, Configuration, ConfigurationModifier, DeviceTypes,
    Discovery, GroupCommand, GroupType, RoomClass, SceneCreater, SceneModifier, SoftwareUpdate,
    SoftwareUpdateModifier, WhitelistUser,
};
use philipshue::LightCommand;
use std::collections::BTreeMap;

#[test]
fn default_command_sets_nothing() {
    let c = LightCommand::default();
    assert_eq!(
        c,
        LightCommand {
            on: None,
            bri: None,
            hue: None,
            sat: None,
            xy: None,
            ct: None,
            alert: None,
            effect: None,
            transitiontime: None,
            bri_inc: None,
            sat_inc: None,
            hue_inc: None,
            ct_inc: None,
            xy_inc: None,
        }
    );
}

#[test]
fn each_builder_sets_its_field_only() {
    let d = LightCommand::default;
    assert_eq!(d().on(), LightCommand { on: Some(true), ..d() });
    assert_eq!(d().off(), LightCommand { on: Some(false), ..d() });
    assert_eq!(d().with_bri(254), LightCommand { bri: Some(254), ..d() });
    assert_eq!(d().with_hue(46920), LightCommand { hue: Some(46920), ..d() });
    assert_eq!(d().with_sat(17), LightCommand { sat: Some(17), ..d() });
    assert_eq!(
        d().with_xy((0.5f32.to_bits(), 0.25f32.to_bits())),
        LightCommand { xy: Some((0x3f000000, 0x3e800000)), ..d() }
    );
    assert_eq!(d().with_ct(500), LightCommand { ct: Some(500), ..d() });
    assert_eq!(
        d().with_alert("select".to_string()),
        LightCommand { alert: Some("select".to_string()), ..d() }
    );
    assert_eq!(
        d().with_effect("colorloop".to_string()),
        LightCommand { effect: Some("colorloop".to_string()), ..d() }
    );
    assert_eq!(d().with_transitiontime(4), LightCommand { transitiontime: Some(4), ..d() });
    assert_eq!(d().with_bri_inc(-254), LightCommand { bri_inc: Some(-254), ..d() });
    assert_eq!(d().with_hue_inc(100), LightCommand { hue_inc: Some(100), ..d() });
    assert_eq!(d().with_sat_inc(-1), LightCommand { sat_inc: Some(-1), ..d() });
    assert_eq!(d().with_ct_inc(7), LightCommand { ct_inc: Some(7), ..d() });
    assert_eq!(d().with_xy_inc((1, -1)), LightCommand { xy_inc: Some((1, -1)), ..d() });
}

#[test]
fn builders_keep_what_was_set_before() {
    let c = LightCommand::default().on().with_bri(100).with_hue(5).off().with_bri(7);
    assert_eq!(
        c,
        LightCommand { on: Some(false), bri: Some(7), hue: Some(5), ..LightCommand::default() }
    );
}

#[test]
fn names_of_group_types() {
    assert_eq!(GroupType::Luminaire.to_string(), "Luminaire");
    assert_eq!(GroupType::LightSource.to_string(), "LightSource");
    assert_eq!(GroupType::LightGroup.to_string(), "LightGroup");
    assert_eq!(GroupType::Room.to_string(), "Room");
}

#[test]
fn names_of_room_classes() {
    let names = [
        (RoomClass::LivingRoom, "Living room"),
        (RoomClass::Kitchen, "Kitchen"),
        (RoomClass::Dining, "Dining"),
        (RoomClass::Bedroom, "Bedroom"),
        (RoomClass::KidsBedroom, "Kids bedroom"),
        (RoomClass::Bathroom, "Bathroom"),
        (RoomClass::Nursery, "Nursery"),
        (RoomClass::Recreation, "Recreation"),
        (RoomClass::Office, "Office"),
        (RoomClass::Gym, "Gym"),
        (RoomClass::Hallway, "Hallway"),
        (RoomClass::Toilet, "Toilet"),
        (RoomClass::FrontDoor, "Front door"),
        (RoomClass::Garage, "Garage"),
        (RoomClass::Terrace, "Terrace"),
        (RoomClass::Garden, "Garden"),
        (RoomClass::Driveway, "Driveway"),
        (RoomClass::Carport, "Carport"),
        (RoomClass::Other, "Other"),
    ];
    for (class, name) in names {
        assert_eq!(class.to_string(), name);
    }
}

#[test]
fn strings_of_numbers_become_numbers() {
    let list = vec!["1".to_string(), "22".to_string(), "+3".to_string(), "004".to_string()];
    assert_eq!(string_to_usize_vec(list), Some(vec![1, 22, 3, 4]));
    assert_eq!(string_to_usize_vec(vec![]), Some(vec![]));
}

#[test]
fn a_string_that_is_no_number_spoils_the_list() {
    assert_eq!(string_to_usize_vec(vec!["1".to_string(), "x".to_string()]), None);
    assert_eq!(string_to_usize_vec(vec!["".to_string()]), None);
    assert_eq!(string_to_usize_vec(vec!["1".to_string(), "-2".to_string(), "3".to_string()]), None);
}

#[test]
fn discovery_gives_its_fields() {
    let d = Discovery {
        id: "001788fffe100491".to_string(),
        internalipaddress: "192.168.2.23".to_string(),
    };
    assert_eq!(d.ip(), "192.168.2.23");
    assert_eq!(d.id(), "001788fffe100491");
    assert_eq!(d.into_ip(), "192.168.2.23");
}

#[test]
fn app_data_that_is_missing_or_default_counts_as_none() {
    assert_eq!(non_default(None), None);
    assert_eq!(non_default(Some(AppData::default())), None);
    assert_eq!(non_default(Some(AppData { version: 0, data: String::new() })), None);
    assert_eq!(AppData::default(), AppData { version: 0, data: String::new() });
}

#[test]
fn app_data_that_differs_from_default_is_kept() {
    assert_eq!(
        non_default(Some(AppData { version: 1, data: String::new() })),
        Some(AppData { version: 1, data: String::new() })
    );
    assert_eq!(
        non_default(Some(AppData { version: 0, data: "x".to_string() })),
        Some(AppData { version: 0, data: "x".to_string() })
    );
    assert_eq!(
        non_default(Some(AppData { version: -1, data: "myAppData".to_string() })),
        Some(AppData { version: -1, data: "myAppData".to_string() })
    );
}

#[test]
fn default_configuration_modifier_changes_nothing() {
    let m = ConfigurationModifier::default();
    assert!(m.name.is_none() && m.swupdate.is_none() && m.proxyaddress.is_none());
    assert!(m.proxyport.is_none() && m.linkbutton.is_none() && m.ipaddress.is_none());
    assert!(m.netmask.is_none() && m.gateway.is_none() && m.dhcp.is_none());
    assert!(m.utc.is_none() && m.timezone.is_none() && m.touchlink.is_none());
}

#[test]
fn plain_resources_hold_their_fields() {
    let update = SoftwareUpdate {
        checkforupdate: false,
        devicetypes: DeviceTypes { bridge: true, lights: vec![1, 2] },
        updatestate: 2,
        url: "".to_string(),
        text: "".to_string(),
        notify: false,
    };
    let mut whitelist = BTreeMap::new();
    whitelist.insert(
        "u".to_string(),
        WhitelistUser {
            name: "my_hue_app#homepc".to_string(),
            last_use_date: "2017-01-01T00:00:00".to_string(),
            create_date: "2016-01-01T00:00:00".to_string(),
        },
    );
    let config = Configuration {
        name: "Philips hue".to_string(),
        swupdate: update,
        whitelist,
        apiversion: "1.16.0".to_string(),
        swversion: "01036659".to_string(),
        proxyaddress: "none".to_string(),
        proxyport: 0,
        linkbutton: false,
        ipaddress: "192.168.2.23".to_string(),
        mac: "00:17:88:10:04:91".to_string(),
        netmask: "255.255.255.0".to_string(),
        gateway: "192.168.2.1".to_string(),
        dhcp: true,
        portalservices: true,
        utc: "2017-01-01T00:00:00".to_string(),
        localtime: "none".to_string(),
        timezone: "none".to_string(),
        zigbeechannel: 20,
        modelid: "BSB002".to_string(),
        bridgeid: "001788FFFE100491".to_string(),
        factorynew: false,
        replacesbridgeid: None,
    };
    assert_eq!(config.whitelist["u"].name, "my_hue_app#homepc");
    assert_eq!(config.swupdate.devicetypes.lights, vec![1, 2]);
    let command = GroupCommand { name: None, lights: vec![3], class: Some(RoomClass::Office) };
    assert_eq!(command.class, Some(RoomClass::Office));
    let creater = SceneCreater {
        name: "Evening".to_string(),
        lights: vec![1],
        recycle: None,
        appdata: None,
        picture: None,
        transitiontime: Some(4),
    };
    assert_eq!(creater.transitiontime, Some(4));
    let modifier = SceneModifier { name: None, lights: None, storelightstate: true };
    assert!(modifier.storelightstate);
    assert!(SoftwareUpdateModifier { checkforupdate: true }.checkforupdate);
}
