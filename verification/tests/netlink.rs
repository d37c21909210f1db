//! Netlink and D-Bus: reading messages, building requests, and the steps of each
//! primitive operation.

use rfmon::detect::{
    assemble, bus_from, collect_phys, driver_link, subsystem_link, Detect, DetectOp, DetectReply,
    DeviceLinks,
};
use rfmon::errors::LinuxError;
use rfmon::interface::{Band, BandKind, BusKind, ChannelWidth, Frequency, InterfaceMode};
use rfmon::link::{LinkOp, LinkTask};
use rfmon::nl80211::{
    bandkind_from, collect_interfaces, extract_frequencies, mode_from_ifmode, mode_from_iftype,
    mode_in, mode_to_iftype, open_failure, read_channel, read_mode, width_mhz, BandInfo, FrequencyInfo,
    InterfaceAttr, PhyCaps, RawBand, RawInterface, RawWidth, WiphyAttr,
};
use rfmon::program::Progress;
use rfmon::requests::{
    center_is_valid, channel_request, iftype_request, interface_request, link_request,
    name_request, WIDTH_20_NOHT, WIDTH_40,
};
use rfmon::services::{
    is_present, is_unknown_device_name, BusFailure, BusOp, ServiceAction, ServiceTask,
    NM_SERVICE, NM_UNKNOWN_DEVICE, WPA_SERVICE,
};
use rfmon::{Error, InterfaceInfo, MacAddr, Tuning};
use wl_nl80211::{
    Nl80211Attr, Nl80211BandType, Nl80211ChannelWidth, Nl80211IfMode, Nl80211InterfaceType,
};

fn text(s: &str) -> String {
    s.to_string()
}

// --- codes ---

#[test]
fn interface_mode_maps_station_to_managed() {
    assert_eq!(
        mode_from_iftype(u32::from(Nl80211InterfaceType::Station)),
        InterfaceMode::Managed
    );
    assert_eq!(
        mode_from_iftype(u32::from(Nl80211InterfaceType::Monitor)),
        InterfaceMode::Monitor
    );
}

#[test]
fn interface_mode_preserves_unknown_iftypes() {
    assert_eq!(
        mode_from_iftype(u32::from(Nl80211InterfaceType::Nan)),
        InterfaceMode::Other(12)
    );
}

#[test]
fn band_kind_maps_from_nl80211() {
    assert_eq!(bandkind_from(u16::from(Nl80211BandType::Band2GHz)), BandKind::TwoGhz);
    assert_eq!(bandkind_from(u16::from(Nl80211BandType::Band6GHz)), BandKind::SixGhz);
}

#[test]
fn every_code_agrees_with_the_netlink_crate() {
    let modes = [
        (Nl80211InterfaceType::Station, Nl80211IfMode::Station, InterfaceMode::Managed),
        (Nl80211InterfaceType::Monitor, Nl80211IfMode::Monitor, InterfaceMode::Monitor),
        (Nl80211InterfaceType::Ap, Nl80211IfMode::Ap, InterfaceMode::Ap),
        (Nl80211InterfaceType::Adhoc, Nl80211IfMode::Adhoc, InterfaceMode::Adhoc),
        (Nl80211InterfaceType::MeshPoint, Nl80211IfMode::MeshPoint, InterfaceMode::MeshPoint),
        (Nl80211InterfaceType::Ocb, Nl80211IfMode::Ocb, InterfaceMode::Other(11)),
    ];
    for (iftype, ifmode, mode) in modes {
        assert_eq!(mode_from_iftype(u32::from(iftype)), mode);
        assert_eq!(mode_from_ifmode(u16::from(ifmode)), mode);
        assert_eq!(Nl80211InterfaceType::from(mode_to_iftype(mode)), iftype);
    }
    assert_eq!(bandkind_from(u16::from(Nl80211BandType::Band5GHz)), BandKind::FiveGhz);
    assert_eq!(bandkind_from(u16::from(Nl80211BandType::Band60GHz)), BandKind::SixtyGhz);
    assert_eq!(bandkind_from(u16::from(Nl80211BandType::BandS1GHz)), BandKind::Other(4));
    assert_eq!(Nl80211ChannelWidth::from(WIDTH_20_NOHT), Nl80211ChannelWidth::NoHt20);
    assert_eq!(Nl80211ChannelWidth::from(WIDTH_40), Nl80211ChannelWidth::Mhz(40));
}

#[test]
fn widths_normalise_to_mhz() {
    assert_eq!(width_mhz(RawWidth::NoHt20), Some(20));
    assert_eq!(width_mhz(RawWidth::Mhz(160)), Some(160));
    assert_eq!(width_mhz(RawWidth::Mhz80Plus80), Some(80));
    assert_eq!(width_mhz(RawWidth::Other(99)), None);
}

// --- requests ---

#[test]
fn requests_hold_the_attributes_they_name() {
    assert_eq!(interface_request(7), vec![Nl80211Attr::IfIndex(7)]);
    assert_eq!(
        iftype_request(7, mode_to_iftype(InterfaceMode::Monitor)),
        vec![
            Nl80211Attr::IfIndex(7),
            Nl80211Attr::IfType(Nl80211InterfaceType::Monitor),
        ]
    );
    assert_eq!(
        channel_request(7, 2412, ChannelWidth::Mhz20),
        vec![
            Nl80211Attr::IfIndex(7),
            Nl80211Attr::WiphyFreq(2412),
            Nl80211Attr::ChannelWidth(Nl80211ChannelWidth::NoHt20),
        ]
    );
    assert_eq!(
        channel_request(7, 5180, ChannelWidth::Mhz40Above),
        vec![
            Nl80211Attr::IfIndex(7),
            Nl80211Attr::WiphyFreq(5180),
            Nl80211Attr::ChannelWidth(Nl80211ChannelWidth::Mhz(40)),
            Nl80211Attr::CenterFreq1(5190),
        ]
    );
    assert_eq!(
        channel_request(7, 5180, ChannelWidth::Mhz40Below),
        vec![
            Nl80211Attr::IfIndex(7),
            Nl80211Attr::WiphyFreq(5180),
            Nl80211Attr::ChannelWidth(Nl80211ChannelWidth::Mhz(40)),
            Nl80211Attr::CenterFreq1(5170),
        ]
    );
}

#[test]
fn a_segment_centre_must_be_a_frequency() {
    assert!(center_is_valid(0, ChannelWidth::Mhz20));
    assert!(!center_is_valid(9, ChannelWidth::Mhz40Below));
    assert!(center_is_valid(10, ChannelWidth::Mhz40Below));
    assert!(center_is_valid(u32::MAX - 10, ChannelWidth::Mhz40Above));
    assert!(!center_is_valid(u32::MAX - 9, ChannelWidth::Mhz40Above));
}

#[test]
fn link_messages_say_what_the_link_is_to_be() {
    assert_eq!(link_request(7, true), rtnetlink::LinkUnspec::new_with_index(7).up().build());
    assert_eq!(link_request(7, false), rtnetlink::LinkUnspec::new_with_index(7).down().build());
    assert_ne!(link_request(7, true), link_request(7, false));
    assert_ne!(link_request(7, true), link_request(8, true));
    let renaming = name_request(7, "mon0");
    assert_eq!(
        renaming,
        rtnetlink::LinkUnspec::new_with_index(7).name(text("mon0")).build()
    );
    assert_eq!(renaming.header.index, 7);
}

// --- reading messages ---

fn message(name: &str, index: u32, phy: u32) -> Vec<InterfaceAttr> {
    vec![
        InterfaceAttr::IfName(text(name)),
        InterfaceAttr::IfIndex(index),
        InterfaceAttr::Wiphy(phy),
    ]
}

#[test]
fn only_real_devices_are_interfaces() {
    let mut full = message("wlan0", 3, 0);
    full.push(InterfaceAttr::Mac(MacAddr([1, 2, 3, 4, 5, 6])));
    full.push(InterfaceAttr::IfType(6));
    full.push(InterfaceAttr::Ssid(text("Flamingo")));
    full.push(InterfaceAttr::Other);
    // A P2P device has no index.
    let headless = vec![InterfaceAttr::IfName(text("p2p")), InterfaceAttr::Wiphy(0)];
    let bare = message("wlan1", 4, 1);

    let raw = collect_interfaces(vec![full, headless, bare]);
    assert_eq!(raw.len(), 2);
    assert_eq!(raw[0].name, "wlan0");
    assert_eq!(raw[0].index, 3);
    assert_eq!(raw[0].phy_index, 0);
    assert_eq!(raw[0].mac, MacAddr([1, 2, 3, 4, 5, 6]));
    assert_eq!(raw[0].mode, InterfaceMode::Monitor);
    assert_eq!(raw[0].ssid.as_deref(), Some("Flamingo"));
    assert_eq!(raw[1].name, "wlan1");
    assert_eq!(raw[1].mac, MacAddr::zero());
    assert_eq!(raw[1].mode, InterfaceMode::Other(0));
    assert_eq!(raw[1].ssid, None);
}

#[test]
fn frequencies_come_out_of_their_attributes() {
    let band = RawBand {
        kind: 0,
        info: vec![
            BandInfo::Other,
            BandInfo::Freqs(vec![
                vec![FrequencyInfo::Freq(2412)],
                vec![FrequencyInfo::Disabled],
                vec![FrequencyInfo::Radar, FrequencyInfo::Freq(5260), FrequencyInfo::Disabled],
            ]),
            BandInfo::Freqs(vec![vec![FrequencyInfo::Other, FrequencyInfo::Freq(2413)]]),
        ],
    };
    assert_eq!(
        extract_frequencies(&band),
        vec![
            Frequency { mhz: 2412, channel: Some(1), disabled: false, radar: false },
            Frequency { mhz: 5260, channel: Some(52), disabled: true, radar: true },
            Frequency { mhz: 2413, channel: None, disabled: false, radar: false },
        ]
    );
}

fn fragment(kind: u16, mhz: u32) -> RawBand {
    RawBand { kind, info: vec![BandInfo::Freqs(vec![vec![FrequencyInfo::Freq(mhz)]])] }
}

#[test]
fn a_split_dump_is_merged_by_wiphy_and_band() {
    let phys = collect_phys(vec![
        vec![
            WiphyAttr::Wiphy(1),
            WiphyAttr::WiphyBands(vec![fragment(1, 5180), fragment(0, 2412)]),
        ],
        vec![WiphyAttr::Wiphy(0), WiphyAttr::SupportedIftypes(vec![2])],
        vec![WiphyAttr::SupportedIftypes(vec![3])],
        vec![
            WiphyAttr::Wiphy(1),
            WiphyAttr::SupportedIftypes(vec![2, 6]),
            WiphyAttr::WiphyBands(vec![fragment(1, 5200), fragment(3, 5955)]),
        ],
    ]);
    assert_eq!(phys.len(), 2);
    for (index, phy) in phys {
        let caps = phy.into_caps();
        if index == 0 {
            assert_eq!(caps.supported_modes, vec![InterfaceMode::Managed]);
            assert!(caps.bands.is_empty());
        } else {
            assert_eq!(index, 1);
            assert_eq!(
                caps.supported_modes,
                vec![InterfaceMode::Managed, InterfaceMode::Monitor]
            );
            let bands: Vec<(BandKind, Vec<u32>)> = caps
                .bands
                .iter()
                .map(|b| (b.kind(), b.frequencies().iter().map(|f| f.mhz()).collect()))
                .collect();
            assert_eq!(
                bands,
                vec![
                    (BandKind::TwoGhz, vec![2412]),
                    (BandKind::FiveGhz, vec![5180, 5200]),
                    (BandKind::SixGhz, vec![5955]),
                ]
            );
        }
    }
}

#[test]
fn a_mode_readback_takes_the_first_mode() {
    let typed = |value: u32| vec![InterfaceAttr::Other, InterfaceAttr::IfType(value)];
    assert_eq!(mode_in(&typed(6)), Some(InterfaceMode::Monitor));
    assert_eq!(mode_in(&vec![InterfaceAttr::Other]), None);
    assert_eq!(
        read_mode(1, vec![vec![], typed(6), typed(2)], Err(text("late"))).unwrap(),
        InterfaceMode::Monitor
    );
    assert!(matches!(
        read_mode(1, vec![vec![]], Err(text("boom"))),
        Err(Error::Linux(LinuxError::Dump { command: "get_interface", source })) if source == "boom"
    ));
    assert!(matches!(
        read_mode(42, vec![], Ok(())),
        Err(Error::NotFound { name, available }) if name == "if_index 42" && available.is_empty()
    ));
}

#[test]
fn a_socket_that_does_not_open_is_named() {
    assert_eq!(
        open_failure(text("boom")).to_string(),
        "failed to open nl80211 netlink socket during connect: boom"
    );
}

#[test]
fn a_tuning_readback_fills_in_what_is_reported() {
    let reply = vec![
        vec![
            InterfaceAttr::WiphyFreq(2412),
            InterfaceAttr::ChannelWidth(RawWidth::Mhz(40)),
        ],
        vec![
            InterfaceAttr::WiphyFreq(5180),
            InterfaceAttr::CenterFreq1(5190),
            InterfaceAttr::ChannelWidth(RawWidth::Other(9)),
        ],
    ];
    assert_eq!(
        read_channel(1, Ok(reply)).unwrap(),
        Tuning { freq_mhz: Some(5180), width_mhz: None, center_mhz: Some(5190) }
    );
    assert_eq!(read_channel(1, Ok(vec![vec![]])).unwrap(), Tuning::untuned());
    assert!(matches!(
        read_channel(42, Ok(vec![])),
        Err(Error::NotFound { name, .. }) if name == "if_index 42"
    ));
    assert!(matches!(
        read_channel(1, Err(text("boom"))),
        Err(Error::Linux(LinuxError::Dump { command: "get_interface", .. }))
    ));
}

// --- detection ---

fn no_links() -> DeviceLinks {
    DeviceLinks { driver: None, subsystem: None }
}

#[test]
fn assemble_shares_phy_caps_across_interfaces() {
    let caps = vec![(
        0u32,
        PhyCaps {
            supported_modes: vec![InterfaceMode::Monitor],
            bands: vec![Band {
                kind: BandKind::TwoGhz,
                frequencies: vec![Frequency {
                    mhz: 2412,
                    channel: Some(1),
                    disabled: false,
                    radar: false,
                }],
            }],
        },
    )];

    let raw = vec![
        RawInterface {
            name: "wlan0".to_string(),
            index: 3,
            phy_index: 0,
            mac: MacAddr::zero(),
            mode: InterfaceMode::Managed,
            ssid: None,
        },
        RawInterface {
            name: "wlan0mon".to_string(),
            index: 4,
            phy_index: 0,
            mac: MacAddr::zero(),
            mode: InterfaceMode::Monitor,
            ssid: None,
        },
    ];

    let interfaces = assemble(raw, &caps, &vec![no_links(), no_links()]);
    assert_eq!(interfaces.len(), 2);
    assert!(interfaces.iter().all(|i| i.supports_monitor()));
    assert!(interfaces.iter().all(|i| i.bands().len() == 1));
    assert_eq!(interfaces[1].frequencies().len(), 1);
}

#[test]
fn sysfs_links_name_driver_and_bus() {
    assert_eq!(driver_link(0), "/sys/class/ieee80211/phy0/device/driver");
    assert_eq!(subsystem_link(12), "/sys/class/ieee80211/phy12/device/subsystem");
    assert_eq!(bus_from(&Some(text("usb"))), BusKind::Usb);
    assert_eq!(bus_from(&Some(text("pci"))), BusKind::Pci);
    assert_eq!(bus_from(&Some(text("sdio"))), BusKind::Other);
    assert_eq!(bus_from(&None), BusKind::Other);
}

fn detect(
    mut perform: impl FnMut(&DetectOp) -> DetectReply,
) -> Result<Vec<InterfaceInfo>, Error> {
    let mut progress = Progress::Pending(Detect::start());
    loop {
        match progress {
            Progress::Finished(found) => return found,
            Progress::Pending(talk) => {
                let op = talk.request();
                let reply = perform(&op);
                assert!(op.is_answered_by(&reply));
                progress = talk.resume(reply);
            }
        }
    }
}

#[test]
fn detection_joins_interfaces_wiphys_and_links() {
    let found = detect(|op| match op {
        DetectOp::Open => DetectReply::Opened(Ok(())),
        DetectOp::DumpInterfaces => {
            DetectReply::Interfaces(Some(Ok(vec![message("wlan0", 3, 0), message("wlan1", 4, 9)])))
        }
        DetectOp::DumpWiphys => DetectReply::Wiphys(Some(Ok(vec![vec![
            WiphyAttr::Wiphy(0),
            WiphyAttr::SupportedIftypes(vec![6]),
            WiphyAttr::WiphyBands(vec![fragment(0, 2412)]),
        ]]))),
        DetectOp::ReadLinks { phy_index } => DetectReply::Links(if *phy_index == 0 {
            DeviceLinks { driver: Some(text("ath9k")), subsystem: Some(text("usb")) }
        } else {
            no_links()
        }),
    })
    .unwrap();
    assert_eq!(found.len(), 2);
    assert_eq!(found[0].name(), "wlan0");
    assert!(found[0].supports_monitor());
    assert_eq!(found[0].driver(), Some("ath9k"));
    assert_eq!(found[0].bus(), BusKind::Usb);
    assert_eq!(found[0].frequencies()[0].mhz(), 2412);
    // A wiphy the dump does not speak of has no known capabilities.
    assert_eq!(found[1].name(), "wlan1");
    assert!(!found[1].supports_monitor());
    assert!(found[1].bands().is_empty());
    assert_eq!(found[1].driver(), None);
    assert_eq!(found[1].bus(), BusKind::Other);
}

#[test]
fn detection_failures_name_their_phase() {
    assert!(matches!(
        detect(|_| DetectReply::Opened(Err(text("boom")))),
        Err(Error::Linux(LinuxError::NetlinkConnect { kind: "nl80211", phase: "connect", .. }))
    ));
    assert!(matches!(
        detect(|op| match op {
            DetectOp::Open => DetectReply::Opened(Ok(())),
            _ => DetectReply::Interfaces(None),
        }),
        Err(Error::Linux(LinuxError::Timeout { command: "get_interface", timeout_ms: 5000 }))
    ));
    assert!(matches!(
        detect(|op| match op {
            DetectOp::Open => DetectReply::Opened(Ok(())),
            _ => DetectReply::Interfaces(Some(Err(text("boom")))),
        }),
        Err(Error::Linux(LinuxError::Dump { command: "get_interface", .. }))
    ));
    assert!(matches!(
        detect(|op| match op {
            DetectOp::Open => DetectReply::Opened(Ok(())),
            DetectOp::DumpInterfaces => DetectReply::Interfaces(Some(Ok(vec![]))),
            _ => DetectReply::Wiphys(None),
        }),
        Err(Error::Linux(LinuxError::Timeout { command: "get_wiphy", timeout_ms: 5000 }))
    ));
    assert!(matches!(
        detect(|op| match op {
            DetectOp::Open => DetectReply::Opened(Ok(())),
            DetectOp::DumpInterfaces => DetectReply::Interfaces(Some(Ok(vec![]))),
            _ => DetectReply::Wiphys(Some(Err(text("boom")))),
        }),
        Err(Error::Linux(LinuxError::Dump { command: "get_wiphy", .. }))
    ));
}

// --- links ---

// Hold a conversation, failing the request at position `fail_at`.
fn on_link(task: LinkTask, fail_at: Option<usize>) -> (Vec<String>, Result<(), Error>) {
    let mut calls = Vec::new();
    let mut progress = Progress::Pending(task);
    loop {
        match progress {
            Progress::Finished(result) => return (calls, result),
            Progress::Pending(talk) => {
                let reply = if fail_at == Some(calls.len()) { Err(text("boom")) } else { Ok(()) };
                calls.push(match talk.request() {
                    LinkOp::OpenRoute => text("open route"),
                    LinkOp::OpenWireless => text("open wireless"),
                    LinkOp::SetLink { up: true, .. } => text("up"),
                    LinkOp::SetLink { up: false, .. } => text("down"),
                    LinkOp::SetName { name, .. } => format!("name {name}"),
                    LinkOp::SetIftype { iftype, .. } => format!("iftype {iftype}"),
                    LinkOp::SetWiphy { freq_mhz, .. } => format!("wiphy {freq_mhz}"),
                });
                progress = talk.resume(reply);
            }
        }
    }
}

#[test]
fn a_switch_brings_the_link_up_again() {
    let switch = || LinkTask::set_mode(3, "wlan0", InterfaceMode::Monitor);
    let (calls, result) = on_link(switch(), None);
    assert_eq!(calls, ["open route", "down", "open wireless", "iftype 6", "up"]);
    assert!(result.is_ok());

    let (calls, result) = on_link(switch(), Some(0));
    assert_eq!(calls, ["open route"]);
    assert!(matches!(
        result,
        Err(Error::Linux(LinuxError::NetlinkConnect { kind: "rtnetlink", .. }))
    ));

    let (calls, result) = on_link(switch(), Some(1));
    assert_eq!(calls, ["open route", "down"]);
    assert!(matches!(result, Err(Error::Linux(LinuxError::LinkSet { op: "down", .. }))));

    let (calls, result) = on_link(switch(), Some(2));
    assert_eq!(calls, ["open route", "down", "open wireless", "up"]);
    assert!(matches!(
        result,
        Err(Error::Linux(LinuxError::NetlinkConnect { kind: "nl80211", .. }))
    ));

    let (calls, result) = on_link(switch(), Some(3));
    assert_eq!(calls, ["open route", "down", "open wireless", "iftype 6", "up"]);
    assert!(matches!(
        result,
        Err(Error::Linux(LinuxError::SetMode { iface, .. })) if iface == "wlan0"
    ));

    let (_, result) = on_link(switch(), Some(4));
    assert!(matches!(result, Err(Error::Linux(LinuxError::LinkSet { op: "up", .. }))));
}

#[test]
fn a_rename_brings_the_link_up_again() {
    let rename = || LinkTask::rename(3, "wlan0", "mon0");
    let all = ["open route", "down", "name mon0", "up"];
    let (calls, result) = on_link(rename(), None);
    assert_eq!(calls, all);
    assert!(result.is_ok());

    let (calls, result) = on_link(rename(), Some(1));
    assert_eq!(calls, ["open route", "down"]);
    assert!(matches!(
        result,
        Err(Error::Linux(LinuxError::LinkSet { op: "down", iface, .. })) if iface == "wlan0"
    ));

    let (calls, result) = on_link(rename(), Some(2));
    assert_eq!(calls, all);
    assert!(matches!(
        result,
        Err(Error::Linux(LinuxError::Rename { old, new, .. })) if old == "wlan0" && new == "mon0"
    ));

    let (calls, result) = on_link(rename(), Some(3));
    assert_eq!(calls, all);
    assert!(matches!(
        result,
        Err(Error::Linux(LinuxError::LinkSet { op: "up", iface, .. })) if iface == "mon0"
    ));
}

#[test]
fn a_channel_set_reports_its_own_failure() {
    let tune = || LinkTask::set_channel(3, "wlan0", 5180, ChannelWidth::Mhz20);
    let (calls, result) = on_link(tune(), None);
    assert_eq!(calls, ["open wireless", "wiphy 5180"]);
    assert!(result.is_ok());
    let (_, result) = on_link(tune(), Some(0));
    assert!(matches!(
        result,
        Err(Error::Linux(LinuxError::NetlinkConnect { kind: "nl80211", .. }))
    ));
    let (_, result) = on_link(tune(), Some(1));
    assert!(matches!(result, Err(Error::Linux(LinuxError::SetChannel { .. }))));
}

// --- services ---

#[test]
fn only_unknown_device_means_not_tracked() {
    assert!(is_unknown_device_name(NM_UNKNOWN_DEVICE));

    // Everything else must keep propagating.
    for name in [
        "org.freedesktop.NetworkManager.PermissionDenied",
        "org.freedesktop.NetworkManager.Device.NotAllowed",
        "org.freedesktop.DBus.Error.ServiceUnknown",
        "org.freedesktop.DBus.Error.AccessDenied",
        "",
    ] {
        assert!(
            !is_unknown_device_name(name),
            "`{name}` must not be treated as an untracked device",
        );
    }
}

#[test]
fn unknown_device_name_is_the_documented_nm_error() {
    // Guards the constant against a typo: this exact name is what
    // NetworkManager raises from GetDeviceByIpIface.
    assert_eq!(
        NM_UNKNOWN_DEVICE,
        "org.freedesktop.NetworkManager.UnknownDevice"
    );
}

#[test]
fn presence_is_a_plain_yes() {
    assert!(is_present(Some(Some(true))));
    assert!(!is_present(Some(Some(false))));
    assert!(!is_present(Some(None)));
    assert!(!is_present(None));
    assert_eq!(NM_SERVICE, "org.freedesktop.NetworkManager");
    assert_eq!(WPA_SERVICE, "fi.w1.wpa_supplicant1");
}

// Hold a conversation, failing the call at position `fail_at` with `failure`.
fn on_bus(
    action: ServiceAction,
    fail_at: Option<usize>,
    name: Option<&str>,
) -> (Vec<String>, Result<(), Error>) {
    let mut calls = Vec::new();
    let mut progress = Progress::Pending(ServiceTask::start(action, "wlan0"));
    loop {
        match progress {
            Progress::Finished(result) => return (calls, result),
            Progress::Pending(talk) => {
                let reply = if fail_at == Some(calls.len()) {
                    Err(BusFailure { name: name.map(text), text: text("boom") })
                } else {
                    Ok(())
                };
                calls.push(match talk.request() {
                    BusOp::Connect => text("connect"),
                    BusOp::Manager => text("manager"),
                    BusOp::GetDevice { iface } => format!("get_device {iface}"),
                    BusOp::DevicePath => text("path"),
                    BusOp::Device => text("device"),
                    BusOp::SetManaged { value } => format!("managed {value}"),
                    BusOp::Supplicant => text("supplicant"),
                    BusOp::GetInterface { iface } => format!("get_interface {iface}"),
                    BusOp::RemoveInterface => text("remove"),
                    BusOp::CreateInterface { iface } => format!("create {iface}"),
                });
                progress = talk.resume(reply);
            }
        }
    }
}

fn nm_op(result: Result<(), Error>) -> &'static str {
    match result {
        Err(Error::Linux(LinuxError::NetworkManager { op, iface, source })) => {
            assert_eq!(iface, "wlan0");
            assert_eq!(source, "boom");
            op
        }
        other => panic!("expected a NetworkManager failure, got {other:?}"),
    }
}

#[test]
fn network_manager_is_told_and_believed() {
    let (calls, result) = on_bus(ServiceAction::NmRelease, None, None);
    assert_eq!(
        calls,
        ["connect", "manager", "get_device wlan0", "path", "device", "managed false"]
    );
    assert!(result.is_ok());
    let (calls, _) = on_bus(ServiceAction::NmReclaim, None, None);
    assert_eq!(calls.last().unwrap(), "managed true");

    assert!(matches!(
        on_bus(ServiceAction::NmRelease, Some(0), None).1,
        Err(Error::Linux(LinuxError::DbusConnect { .. }))
    ));
    assert_eq!(nm_op(on_bus(ServiceAction::NmRelease, Some(1), None).1), "connect");
    assert_eq!(nm_op(on_bus(ServiceAction::NmRelease, Some(2), None).1), "get_device");
    assert_eq!(
        nm_op(on_bus(ServiceAction::NmRelease, Some(2), Some("x.Denied")).1),
        "get_device"
    );
    assert_eq!(nm_op(on_bus(ServiceAction::NmRelease, Some(3), None).1), "device_path");
    assert_eq!(nm_op(on_bus(ServiceAction::NmRelease, Some(4), None).1), "device_proxy");
    assert_eq!(nm_op(on_bus(ServiceAction::NmRelease, Some(5), None).1), "set_unmanaged");
    assert_eq!(nm_op(on_bus(ServiceAction::NmReclaim, Some(5), None).1), "set_managed");

    // An interface it does not track is nothing to release or take back.
    let (calls, result) = on_bus(ServiceAction::NmRelease, Some(2), Some(NM_UNKNOWN_DEVICE));
    assert_eq!(calls, ["connect", "manager", "get_device wlan0"]);
    assert!(result.is_ok());
}

#[test]
fn the_supplicant_is_idempotent() {
    let (calls, result) = on_bus(ServiceAction::WpaRelease, None, None);
    assert_eq!(calls, ["connect", "supplicant", "get_interface wlan0", "remove"]);
    assert!(result.is_ok());
    // Not managing the interface: nothing to release.
    let (calls, result) = on_bus(ServiceAction::WpaRelease, Some(2), None);
    assert_eq!(calls, ["connect", "supplicant", "get_interface wlan0"]);
    assert!(result.is_ok());

    // Managing it already: nothing to take up.
    let (calls, result) = on_bus(ServiceAction::WpaReclaim, None, None);
    assert_eq!(calls, ["connect", "supplicant", "get_interface wlan0"]);
    assert!(result.is_ok());
    let (calls, result) = on_bus(ServiceAction::WpaReclaim, Some(2), None);
    assert_eq!(calls, ["connect", "supplicant", "get_interface wlan0", "create wlan0"]);
    assert!(result.is_ok());

    assert!(matches!(
        on_bus(ServiceAction::WpaRelease, Some(1), None).1,
        Err(Error::Linux(LinuxError::Supplicant { op: "connect", iface, .. })) if iface.is_empty()
    ));
    assert!(matches!(
        on_bus(ServiceAction::WpaRelease, Some(3), None).1,
        Err(Error::Linux(LinuxError::Supplicant { op: "remove_interface", iface, .. }))
            if iface == "wlan0"
    ));
}

#[test]
fn a_supplicant_that_refuses_to_create_is_reported() {
    let mut task = ServiceTask::start(ServiceAction::WpaReclaim, "wlan0");
    for step in 0..3 {
        let reply = if step == 2 {
            Err(BusFailure { name: None, text: text("unknown") })
        } else {
            Ok(())
        };
        task = match task.resume(reply) {
            Progress::Pending(next) => next,
            Progress::Finished(result) => panic!("ended early with {result:?}"),
        };
    }
    let refused = BusFailure { name: None, text: text("boom") };
    assert!(matches!(
        task.resume(Err(refused)),
        Progress::Finished(Err(Error::Linux(LinuxError::Supplicant {
            op: "create_interface",
            ..
        })))
    ));
}
