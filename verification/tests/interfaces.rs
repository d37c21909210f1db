//! The data model: scoring, selection, channels and names.

use rfmon::channel::{resolve_frequency, BandScope};
use rfmon::interface::{
    is_known_monitor_driver, Band, BandKind, BusKind, ChannelWidth, Frequency, InterfaceMode,
    WirelessInterface, MONITOR_DRIVER_TOKENS,
};
use rfmon::names::{find_named, select_named, validate_iface_name};
use rfmon::select::{busy_names, pick_best, rank, rank_candidates};
use rfmon::text::{decimal_string, hex_string, is_white_space, join, pad_right, same_text};
use rfmon::{channel_from_mhz, Error, MacAddr, Tuning};

#[test]
fn channel_mapping_covers_anchors() {
    // 2.4 GHz
    assert_eq!(channel_from_mhz(2412), Some(1));
    assert_eq!(channel_from_mhz(2462), Some(11));
    assert_eq!(channel_from_mhz(2484), Some(14));
    // 5 GHz
    assert_eq!(channel_from_mhz(5180), Some(36));
    assert_eq!(channel_from_mhz(5745), Some(149));
    // 6 GHz
    assert_eq!(channel_from_mhz(5935), Some(2));
    assert_eq!(channel_from_mhz(5955), Some(1));
    assert_eq!(channel_from_mhz(6175), Some(45));
}

#[test]
fn channel_mapping_rejects_off_grid() {
    assert_eq!(channel_from_mhz(0), None);
    assert_eq!(channel_from_mhz(3000), None);
    assert_eq!(channel_from_mhz(5900), None);
    // Between grid points: must not truncate onto the channel below.
    assert_eq!(channel_from_mhz(2413), None); // between 2.4 GHz ch 1 and 2
    assert_eq!(channel_from_mhz(5182), None); // between 5 GHz ch 36 and 37
    assert_eq!(channel_from_mhz(5957), None); // between 6 GHz ch 1 and 5
    // Base frequencies would yield the non-existent channel 0.
    assert_eq!(channel_from_mhz(5000), None);
    assert_eq!(channel_from_mhz(5950), None);
}

#[test]
fn channel_mapping_ends_where_the_bands_end() {
    assert_eq!(channel_from_mhz(2407), None);
    assert_eq!(channel_from_mhz(2472), Some(13));
    assert_eq!(channel_from_mhz(2477), None);
    assert_eq!(channel_from_mhz(5005), Some(1));
    assert_eq!(channel_from_mhz(5895), Some(179));
    assert_eq!(channel_from_mhz(7115), Some(233));
    assert_eq!(channel_from_mhz(7120), None);
    assert_eq!(channel_from_mhz(u32::MAX), None);
}

#[test]
fn driver_tokens_are_minimal() {
    // Matching is by substring, so any token that contains another is dead
    // weight: the shorter one already matches everything the longer does.
    for (i, longer) in MONITOR_DRIVER_TOKENS.iter().enumerate() {
        for (j, shorter) in MONITOR_DRIVER_TOKENS.iter().enumerate() {
            if i != j {
                assert!(
                    !longer.contains(shorter),
                    "token `{longer}` is subsumed by `{shorter}` and can never match \
                     independently; remove it",
                );
            }
        }
    }
}

#[test]
fn interface_mode_display_is_stable() {
    assert_eq!(InterfaceMode::Managed.to_string(), "managed");
    assert_eq!(InterfaceMode::Monitor.to_string(), "monitor");
    assert_eq!(InterfaceMode::Other(9).to_string(), "iftype(9)");
}

#[test]
fn band_kind_displays() {
    assert_eq!(BandKind::TwoGhz.to_string(), "2.4 GHz");
    assert_eq!(BandKind::SixtyGhz.to_string(), "60 GHz");
}

#[test]
fn every_display_form_is_stable() {
    assert_eq!(InterfaceMode::Ap.to_string(), "AP");
    assert_eq!(InterfaceMode::Adhoc.to_string(), "adhoc");
    assert_eq!(InterfaceMode::MeshPoint.to_string(), "mesh");
    assert_eq!(BandKind::FiveGhz.to_string(), "5 GHz");
    assert_eq!(BandKind::SixGhz.to_string(), "6 GHz");
    assert_eq!(BandKind::Other(4).to_string(), "band(4)");
    assert_eq!(ChannelWidth::Mhz20.to_string(), "20 MHz");
    assert_eq!(ChannelWidth::Mhz40Above.to_string(), "40 MHz (HT40+)");
    assert_eq!(ChannelWidth::Mhz40Below.to_string(), "40 MHz (HT40-)");
    assert_eq!(BusKind::Usb.to_string(), "usb");
    assert_eq!(BusKind::Pci.to_string(), "pci");
    assert_eq!(BusKind::Other.to_string(), "other");
    assert_eq!(ChannelWidth::default(), ChannelWidth::Mhz20);
}

#[test]
fn mac_addresses_read_as_colon_hex() {
    let mac = MacAddr([0xde, 0xad, 0xbe, 0xef, 0x00, 0x01]);
    assert_eq!(mac.to_string(), "de:ad:be:ef:00:01");
    assert_eq!(mac.to_debug_string(), "MacAddr(de:ad:be:ef:00:01)");
    assert_eq!(MacAddr([1, 2, 3, 4, 5, 6]).as_bytes(), &[1, 2, 3, 4, 5, 6]);
    assert_eq!(MacAddr::zero(), MacAddr([0u8; 6]));
}

// Build a bare interface for selection/scoring tests.
fn test_iface(
    name: &str,
    index: u32,
    supported_modes: Vec<InterfaceMode>,
    driver: Option<&str>,
    bus: BusKind,
    ssid: Option<&str>,
) -> WirelessInterface {
    WirelessInterface {
        name: name.to_string(),
        index,
        phy_index: 0,
        mac: MacAddr::zero(),
        mode: InterfaceMode::Managed,
        supported_modes,
        bands: Vec::new(),
        driver: driver.map(str::to_string),
        bus,
        ssid: ssid.map(str::to_string),
    }
}

#[test]
fn driver_match_is_case_insensitive() {
    assert!(is_known_monitor_driver("rtl8812au"));
    assert!(is_known_monitor_driver("RTL88XXAU"));
    assert!(is_known_monitor_driver("ath9k_htc"));
    assert!(!is_known_monitor_driver("rtw89_8852be"));
    assert!(!is_known_monitor_driver("iwlwifi"));
}

#[test]
fn alfa_is_plausible_unadvertised() {
    // The Alfa case: driver supports monitor in practice, advertises none.
    let alfa = test_iface(
        "wlan0",
        2,
        vec![InterfaceMode::Managed, InterfaceMode::Ap],
        Some("rtl8812au"),
        BusKind::Usb,
        None,
    );
    assert!(!alfa.supports_monitor());
    assert!(alfa.is_monitor_plausible());
}

#[test]
fn select_prefers_idle_alfa() {
    // Internal card advertises monitor but is carrying the host connection;
    // the Alfa is idle and monitor-capable.
    let alfa = test_iface(
        "wlan0",
        2,
        vec![InterfaceMode::Managed, InterfaceMode::Ap],
        Some("rtl8812au"),
        BusKind::Usb,
        None,
    );
    let internal = test_iface(
        "wlan1",
        3,
        vec![InterfaceMode::Managed, InterfaceMode::Monitor],
        Some("rtw89_8852be"),
        BusKind::Pci,
        Some("Flamingo"),
    );

    // Sanity: the heavy association penalty flips the ranking.
    assert!(alfa.monitor_score() > internal.monitor_score());

    let chosen = pick_best(vec![internal, alfa]).unwrap();
    assert_eq!(chosen.name(), "wlan0");
}

#[test]
fn select_uses_internal_when_alfa_absent() {
    let internal = test_iface(
        "wlan0",
        2,
        vec![InterfaceMode::Managed, InterfaceMode::Monitor],
        Some("rtw89_8852be"),
        BusKind::Pci,
        None,
    );
    let chosen = pick_best(vec![internal]).unwrap();
    assert_eq!(chosen.name(), "wlan0");
}

#[test]
fn pick_best_rejects_implausible() {
    let managed_only = test_iface(
        "wlan0",
        2,
        vec![InterfaceMode::Managed],
        Some("some_unknown_driver"),
        BusKind::Usb,
        None,
    );
    let err = pick_best(vec![managed_only]).unwrap_err();
    assert!(matches!(err, Error::NoMonitorCapable { checked: 1 }));
}

#[test]
fn pick_best_avoids_a_radio_already_in_monitor_mode() {
    // Both radios score identically here, so the choice comes down to whether
    // selection considers the current mode at all. `busy` holds the lower index,
    // which wins the tie-break, so a pass means the mode was actually taken into
    // account rather than won by luck.
    let mut busy = test_iface(
        "wlan0",
        2,
        vec![InterfaceMode::Monitor],
        Some("ath9k"),
        BusKind::Usb,
        None,
    );
    busy.mode = InterfaceMode::Monitor;
    let idle = test_iface(
        "wlan1",
        3,
        vec![InterfaceMode::Monitor],
        Some("ath9k"),
        BusKind::Usb,
        None,
    );
    assert_eq!(
        busy.monitor_score(),
        idle.monitor_score(),
        "the fixture is only meaningful while the scores tie",
    );

    let chosen = pick_best(vec![busy, idle]).unwrap();
    assert_eq!(
        chosen.name(),
        "wlan1",
        "selection must not steal a radio that is already capturing",
    );
}

#[test]
fn pick_best_rejects_a_lone_radio_already_in_monitor_mode() {
    // The ban is absolute, not a preference: with no alternative, selection
    // fails rather than taking the radio.
    let mut busy = test_iface(
        "wlan0",
        2,
        vec![InterfaceMode::Monitor],
        Some("ath9k"),
        BusKind::Usb,
        None,
    );
    busy.mode = InterfaceMode::Monitor;

    let err = pick_best(vec![busy]).unwrap_err();
    assert!(
        matches!(&err, Error::AlreadyMonitor { iface } if iface == "wlan0"),
        "expected AlreadyMonitor naming wlan0, got {err:?}",
    );
}

#[test]
fn pick_best_reports_the_radio_it_would_have_chosen() {
    // When every candidate is busy, the error names the best-scoring one.
    let mut weak = test_iface("wlan0", 2, vec![], Some("ath9k"), BusKind::Pci, None);
    weak.mode = InterfaceMode::Monitor;
    let mut strong = test_iface("wlan1", 3, vec![], Some("ath9k"), BusKind::Usb, None);
    strong.mode = InterfaceMode::Monitor;
    assert!(strong.monitor_score() > weak.monitor_score());

    let err = pick_best(vec![weak, strong]).unwrap_err();
    assert!(
        matches!(&err, Error::AlreadyMonitor { iface } if iface == "wlan1"),
        "expected AlreadyMonitor naming the best candidate, got {err:?}",
    );
}

#[test]
fn pick_best_reports_no_monitor_capable_before_already_monitor() {
    // A radio in monitor mode that is not a plausible candidate at all is
    // filtered by capability first, so the caller is told the real problem.
    let mut implausible =
        test_iface("wlan0", 2, vec![], Some("some_unknown"), BusKind::Pci, None);
    implausible.mode = InterfaceMode::Monitor;
    assert!(matches!(
        pick_best(vec![implausible]).unwrap_err(),
        Error::NoMonitorCapable { checked: 1 }
    ));
}

#[test]
fn pick_best_rejects_empty() {
    let err = pick_best(Vec::new()).unwrap_err();
    assert!(matches!(err, Error::NoInterfaces));
}

#[test]
fn scores_add_up() {
    // 40 for the driver, 30 for USB, 20 for advertising, and 2 for two bands.
    let mut radio = test_iface(
        "wlan0",
        2,
        vec![InterfaceMode::Monitor],
        Some("ath9k_htc"),
        BusKind::Usb,
        None,
    );
    assert_eq!(radio.monitor_score(), 90);
    radio.bands = vec![
        Band { kind: BandKind::TwoGhz, frequencies: vec![freq(2412, 1, false)] },
        Band { kind: BandKind::FiveGhz, frequencies: vec![freq(5180, 36, false)] },
    ];
    assert_eq!(radio.monitor_score(), 92);
    radio.ssid = Some("Flamingo".to_string());
    assert_eq!(radio.monitor_score(), -8);
    radio.bus = BusKind::Other;
    assert_eq!(radio.monitor_score(), -33);
}

#[test]
fn ranking_is_best_first_and_stable() {
    let named = |name: &str, index: u32, bus: BusKind| {
        test_iface(name, index, vec![InterfaceMode::Monitor], None, bus, None)
    };
    let ranked = rank_candidates(vec![
        named("other", 1, BusKind::Other),
        named("usb-late", 5, BusKind::Usb),
        named("usb-tie-a", 3, BusKind::Usb),
        named("usb-tie-b", 3, BusKind::Usb),
    ])
    .unwrap();
    let names: Vec<&str> = ranked.iter().map(|i| i.name()).collect();
    assert_eq!(names, vec!["usb-tie-a", "usb-tie-b", "usb-late", "other"]);

    let a = named("a", 1, BusKind::Usb);
    let b = named("b", 2, BusKind::Usb);
    assert_eq!(rank(&a, &b), std::cmp::Ordering::Greater);
    assert_eq!(rank(&b, &a), std::cmp::Ordering::Less);
    assert_eq!(rank(&a, &a), std::cmp::Ordering::Equal);
}

#[test]
fn busy_radios_are_named_in_order() {
    let mut first = test_iface("wlan0", 1, vec![], None, BusKind::Usb, None);
    first.mode = InterfaceMode::Monitor;
    let second = test_iface("wlan1", 2, vec![], None, BusKind::Usb, None);
    let mut third = test_iface("wlan2", 3, vec![], None, BusKind::Usb, None);
    third.mode = InterfaceMode::Monitor;
    assert_eq!(busy_names(&vec![first, second, third]), vec!["wlan0", "wlan2"]);
}

// Build an interface carrying explicit bands for channel-resolution tests.
fn iface_with_bands(bands: Vec<Band>) -> WirelessInterface {
    WirelessInterface {
        name: "wlan0".to_string(),
        index: 2,
        phy_index: 0,
        mac: MacAddr::zero(),
        mode: InterfaceMode::Monitor,
        supported_modes: vec![InterfaceMode::Monitor],
        bands,
        driver: None,
        bus: BusKind::Usb,
        ssid: None,
    }
}

fn freq(mhz: u32, channel: u32, disabled: bool) -> Frequency {
    Frequency {
        mhz,
        channel: Some(channel),
        disabled,
        radar: false,
    }
}

#[test]
fn resolve_frequency_maps_channel() {
    let iface = iface_with_bands(vec![
        Band {
            kind: BandKind::TwoGhz,
            frequencies: vec![freq(2412, 1, false), freq(2437, 6, false)],
        },
        Band {
            kind: BandKind::FiveGhz,
            frequencies: vec![freq(5180, 36, false)],
        },
    ]);
    let scope = BandScope::ExceptSixGhz;
    assert_eq!(resolve_frequency(&iface, 6, scope).unwrap(), 2437);
    assert_eq!(resolve_frequency(&iface, 36, scope).unwrap(), 5180);
}

#[test]
fn resolve_frequency_rejects_an_absent_channel() {
    let iface = iface_with_bands(vec![Band {
        kind: BandKind::TwoGhz,
        frequencies: vec![freq(2412, 1, false), freq(2484, 14, true)],
    }]);
    // The device does not reach this frequency at all.
    assert!(matches!(
        resolve_frequency(&iface, 44, BandScope::ExceptSixGhz).unwrap_err(),
        Error::ChannelUnavailable { channel: 44, .. }
    ));
}

#[test]
fn resolve_frequency_separates_disabled_from_absent() {
    let iface = iface_with_bands(vec![Band {
        kind: BandKind::TwoGhz,
        frequencies: vec![freq(2412, 1, false), freq(2484, 14, true)],
    }]);
    // The device has channel 14; the regulatory domain is what rules it out.
    assert!(matches!(
        resolve_frequency(&iface, 14, BandScope::ExceptSixGhz).unwrap_err(),
        Error::ChannelDisabled { channel: 14, .. }
    ));
}

#[test]
fn a_usable_channel_in_the_other_band_outranks_a_disabled_one() {
    // Channel 13 is disabled at 2.4 GHz but live at 6 GHz.
    let iface = iface_with_bands(vec![
        Band {
            kind: BandKind::TwoGhz,
            frequencies: vec![freq(2472, 13, true)],
        },
        Band {
            kind: BandKind::SixGhz,
            frequencies: vec![freq(6015, 13, false)],
        },
    ]);
    assert!(matches!(
        resolve_frequency(&iface, 13, BandScope::ExceptSixGhz).unwrap_err(),
        Error::WrongBand {
            channel: 13,
            alternative: "set_channel_6g",
            ..
        }
    ));
}

#[test]
fn a_disabled_channel_in_the_other_band_is_not_worth_redirecting_to() {
    // Disabled on both sides: the regulatory domain is the honest answer.
    let iface = iface_with_bands(vec![
        Band {
            kind: BandKind::TwoGhz,
            frequencies: vec![freq(2472, 13, true)],
        },
        Band {
            kind: BandKind::SixGhz,
            frequencies: vec![freq(6015, 13, true)],
        },
    ]);
    assert!(matches!(
        resolve_frequency(&iface, 13, BandScope::ExceptSixGhz).unwrap_err(),
        Error::ChannelDisabled { channel: 13, .. }
    ));
}

// A 6E adapter: every one of these channel numbers exists in two bands at
// once. The scope carried by the entry point is what makes each unambiguous.
fn sixe_iface() -> WirelessInterface {
    iface_with_bands(vec![
        Band {
            kind: BandKind::TwoGhz,
            frequencies: vec![freq(2412, 1, false), freq(2437, 6, false)],
        },
        Band {
            kind: BandKind::FiveGhz,
            frequencies: vec![freq(5180, 36, false), freq(5745, 149, false)],
        },
        Band {
            kind: BandKind::SixGhz,
            frequencies: vec![
                freq(5955, 1, false),
                freq(6695, 149, false),
                freq(6135, 37, false),
            ],
        },
    ])
}

#[test]
fn band_scope_separates_6e_collisions() {
    let iface = sixe_iface();

    // Channel 1 is 2.4 GHz here and 6 GHz there; 149 is 5 GHz UNII-3 and
    // 6 GHz.
    assert_eq!(
        resolve_frequency(&iface, 1, BandScope::ExceptSixGhz).unwrap(),
        2412
    );
    assert_eq!(
        resolve_frequency(&iface, 1, BandScope::SixGhzOnly).unwrap(),
        5955
    );
    assert_eq!(
        resolve_frequency(&iface, 149, BandScope::ExceptSixGhz).unwrap(),
        5745
    );
    assert_eq!(
        resolve_frequency(&iface, 149, BandScope::SixGhzOnly).unwrap(),
        6695
    );
}

#[test]
fn wrong_band_names_alternative() {
    let iface = sixe_iface();

    // 37 is a 6 GHz-only channel: don't claim the device cannot reach it.
    assert!(matches!(
        resolve_frequency(&iface, 37, BandScope::ExceptSixGhz).unwrap_err(),
        Error::WrongBand {
            channel: 37,
            alternative: "set_channel_6g",
            ..
        }
    ));
    // And the reverse: 36 is 5 GHz-only.
    assert!(matches!(
        resolve_frequency(&iface, 36, BandScope::SixGhzOnly).unwrap_err(),
        Error::WrongBand {
            channel: 36,
            alternative: "set_channel",
            ..
        }
    ));
}

#[test]
fn a_redirection_leads_to_the_channel() {
    let iface = sixe_iface();
    assert!(matches!(
        resolve_frequency(&iface, 37, BandScope::ExceptSixGhz),
        Err(Error::WrongBand { .. })
    ));
    assert_eq!(resolve_frequency(&iface, 37, BandScope::SixGhzOnly).unwrap(), 6135);
}

#[test]
fn absent_channel_is_unavailable() {
    let iface = sixe_iface();
    assert!(matches!(
        resolve_frequency(&iface, 100, BandScope::ExceptSixGhz).unwrap_err(),
        Error::ChannelUnavailable { channel: 100, .. }
    ));
}

#[test]
fn duplicate_frequencies_are_ambiguous() {
    // The residual case: one band reporting a channel number twice.
    let iface = iface_with_bands(vec![Band {
        kind: BandKind::FiveGhz,
        frequencies: vec![freq(5180, 36, false), freq(5200, 36, false)],
    }]);
    assert!(matches!(
        resolve_frequency(&iface, 36, BandScope::ExceptSixGhz).unwrap_err(),
        Error::AmbiguousChannel { channel: 36, .. }
    ));
}

#[test]
fn a_frequency_reported_twice_is_not_ambiguous() {
    let iface = iface_with_bands(vec![
        Band { kind: BandKind::FiveGhz, frequencies: vec![freq(5180, 36, false)] },
        Band { kind: BandKind::FiveGhz, frequencies: vec![freq(5180, 36, false)] },
    ]);
    assert_eq!(resolve_frequency(&iface, 36, BandScope::ExceptSixGhz).unwrap(), 5180);
}

#[test]
fn iface_name_enforces_kernel_limits() {
    assert!(validate_iface_name("mon0").is_ok());
    assert!(validate_iface_name("capture-5g").is_ok());
    assert!(matches!(
        validate_iface_name("").unwrap_err(),
        Error::InvalidInterfaceName { .. }
    ));
    assert!(matches!(
        validate_iface_name("this_name_is_way_too_long").unwrap_err(),
        Error::InvalidInterfaceName { .. }
    ));
    assert!(matches!(
        validate_iface_name("bad name").unwrap_err(),
        Error::InvalidInterfaceName { .. }
    ));
    // `:` separates alias interfaces (`eth0:1`).
    assert!(matches!(
        validate_iface_name("mon:0").unwrap_err(),
        Error::InvalidInterfaceName { .. }
    ));
    // 15 characters is the limit (IFNAMSIZ is 16 including the NUL).
    assert!(validate_iface_name("123456789012345").is_ok());
    assert!(matches!(
        validate_iface_name("1234567890123456").unwrap_err(),
        Error::InvalidInterfaceName { .. }
    ));
    // `.` and `..` alias sysfs directory entries; the kernel rejects them.
    assert!(matches!(
        validate_iface_name(".").unwrap_err(),
        Error::InvalidInterfaceName { .. }
    ));
    assert!(matches!(
        validate_iface_name("..").unwrap_err(),
        Error::InvalidInterfaceName { .. }
    ));
}

#[test]
fn iface_name_faults_have_their_reasons() {
    let reason = |name: &str| match validate_iface_name(name) {
        Err(Error::InvalidInterfaceName { name: given, reason }) => {
            assert_eq!(given, name);
            reason
        }
        other => panic!("expected InvalidInterfaceName, got {other:?}"),
    };
    assert_eq!(reason(""), "must not be empty");
    assert_eq!(reason("1234567890123456"), "must be at most 15 characters");
    assert_eq!(reason(".."), "must not be '.' or '..'");
    assert_eq!(reason("a/b"), "must not contain whitespace, '/', or ':'");
    assert_eq!(reason("a\u{2003}b"), "must not contain whitespace, '/', or ':'");
    // The limit counts bytes: fifteen characters of two bytes each are too long.
    assert_eq!(reason("ééééééééééééééé"), "must be at most 15 characters");
    assert!(validate_iface_name("ééééééé").is_ok());
    assert!(validate_iface_name("...").is_ok());
}

#[test]
fn white_space_is_what_unicode_says() {
    for code in 0..=0x10FFFFu32 {
        if let Some(c) = char::from_u32(code) {
            assert_eq!(is_white_space(c), c.is_whitespace(), "U+{code:04X}");
        }
    }
}

#[test]
fn text_helpers_produce_exact_characters() {
    assert_eq!(decimal_string(0), "0");
    assert_eq!(decimal_string(10), "10");
    assert_eq!(decimal_string(u64::MAX), "18446744073709551615");
    assert_eq!(hex_string(0x0f), "0f");
    assert_eq!(hex_string(0xa0), "a0");
    assert_eq!(join(&vec!["a".to_string(), "b".to_string()], ", "), "a, b");
    assert_eq!(join(&Vec::new(), ", "), "");
    assert_eq!(pad_right("ab".to_string(), 4), "ab  ");
    assert_eq!(pad_right("abcde".to_string(), 4), "abcde");
    assert!(same_text("é", "é"));
    assert!(!same_text("é", "e"));
}

#[test]
fn getters_read_the_fields() {
    let mut iface = sixe_iface();
    iface.driver = Some("ath9k".to_string());
    iface.ssid = Some("Flamingo".to_string());
    iface.phy_index = 7;
    assert_eq!(iface.name(), "wlan0");
    assert_eq!(iface.index(), 2);
    assert_eq!(iface.phy_index(), 7);
    assert_eq!(iface.mac(), MacAddr::zero());
    assert_eq!(iface.mode(), InterfaceMode::Monitor);
    assert_eq!(iface.supported_modes(), &[InterfaceMode::Monitor]);
    assert_eq!(iface.bands().len(), 3);
    assert_eq!(iface.bands()[1].kind(), BandKind::FiveGhz);
    assert_eq!(iface.bands()[1].frequencies()[0].mhz(), 5180);
    assert_eq!(iface.bands()[1].frequencies()[0].channel(), Some(36));
    assert!(!iface.bands()[1].frequencies()[0].is_disabled());
    assert!(!iface.bands()[1].frequencies()[0].is_radar());
    assert_eq!(iface.frequencies().len(), 7);
    assert_eq!(iface.frequencies()[6].mhz(), 6135);
    assert_eq!(iface.driver(), Some("ath9k"));
    assert_eq!(iface.bus(), BusKind::Usb);
    assert_eq!(iface.ssid(), Some("Flamingo"));
    assert!(iface.is_monitor());
    assert!(iface.is_associated());
    assert!(iface.supports_monitor());
}

#[test]
fn lookups_tell_a_miss_from_an_empty_system() {
    assert!(matches!(find_named(Vec::new(), "wlan0"), Err(Error::NoInterfaces)));
    assert!(matches!(
        select_named(Vec::new(), "wlan0"),
        Err(Error::NotFound { name, available }) if name == "wlan0" && available.is_empty()
    ));
    let found = find_named(vec![sixe_iface()], "wlan0").unwrap();
    assert_eq!(found.name(), "wlan0");
}

#[test]
fn tunings_answer_for_themselves() {
    let untuned = Tuning::untuned();
    assert!(!untuned.is_tuned());
    assert_eq!(untuned.channel(), None);
    assert_eq!(untuned.width(), None);

    let wide = Tuning { freq_mhz: Some(5180), width_mhz: Some(40), center_mhz: Some(5170) };
    assert!(wide.is_tuned());
    assert_eq!(wide.channel(), Some(36));
    assert_eq!(wide.frequency_mhz(), Some(5180));
    assert_eq!(wide.width_mhz(), Some(40));
    assert_eq!(wide.center_mhz(), Some(5170));
    assert_eq!(wide.width(), Some(ChannelWidth::Mhz40Below));

    let eighty = Tuning { freq_mhz: Some(5180), width_mhz: Some(80), center_mhz: Some(5210) };
    assert_eq!(eighty.width(), None);
}
