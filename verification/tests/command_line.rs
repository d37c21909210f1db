//! The command line.

use rfmon::cli::{
    default_filter, exit_code, extract_flag, list_report, monitor_support, parse_command,
    probe_args, restart_args, signed_string, systemctl, usage_message, CliError, Command,
    SERVICES, USAGE,
};
use rfmon::interface::{
    Band, BandKind, BusKind, Frequency, InterfaceMode, WirelessInterface,
};
use rfmon::{Error, MacAddr};

fn args(list: &[&str]) -> Vec<String> {
    list.iter().map(|s| s.to_string()).collect()
}

#[test]
fn extract_flag_removes_short_form() {
    let mut argv = args(&["-v", "start_monitor"]);
    assert!(extract_flag(&mut argv, "-v", "--verbose"));
    assert_eq!(argv, ["start_monitor"]);
}

#[test]
fn extract_flag_removes_long_form() {
    let mut argv = args(&["stop_monitor", "--verbose", "wlan0"]);
    assert!(extract_flag(&mut argv, "-v", "--verbose"));
    // Only the flag is removed; the positional order is preserved, so the
    // command still parses as `stop_monitor wlan0`.
    assert_eq!(argv, ["stop_monitor", "wlan0"]);
}

#[test]
fn extract_flag_absent_leaves_args_untouched() {
    let mut argv = args(&["start_monitor", "wlan0"]);
    assert!(!extract_flag(&mut argv, "-v", "--verbose"));
    assert_eq!(argv, ["start_monitor", "wlan0"]);
}

#[test]
fn extract_flag_removes_first_only() {
    // A second `-v` is left in place and will be rejected as an unknown argument.
    let mut argv = args(&["-v", "-v", "reset"]);
    assert!(extract_flag(&mut argv, "-v", "--verbose"));
    assert_eq!(argv, ["-v", "reset"]);
}

#[test]
fn no_command_is_a_usage_error() {
    let err = parse_command(&args(&[])).unwrap_err();
    assert!(matches!(err, CliError::Usage(_)));
}

#[test]
fn unknown_command_is_a_usage_error() {
    let err = parse_command(&args(&["frobnicate"])).unwrap_err();
    match err {
        CliError::Usage(message) => assert!(message.contains("frobnicate")),
        other => panic!("expected a usage error, got {other:?}"),
    }
}

#[test]
fn too_many_arguments_is_a_usage_error() {
    for argv in [
        args(&["start_monitor", "wlan0", "extra"]),
        args(&["start_monitor_as", "wlan0"]),
        args(&["stop_monitor", "wlan0", "extra"]),
        args(&["reset", "extra"]),
        args(&["list", "extra"]),
    ] {
        let err = parse_command(&argv).unwrap_err();
        assert!(
            matches!(err, CliError::Usage(_)),
            "expected a usage error for {argv:?}",
        );
    }
}

#[test]
fn help_is_not_an_error() {
    for flag in ["-h", "--help", "help"] {
        assert!(parse_command(&args(&[flag])).is_ok(), "{flag} should succeed");
    }
}

#[test]
fn every_command_parses() {
    let parse = |list: &[&str]| parse_command(&args(list)).unwrap();
    assert_eq!(parse(&["start_monitor"]), Command::Start);
    assert_eq!(parse(&["start"]), Command::Start);
    assert_eq!(parse(&["start", "wlan0"]), Command::StartOn { iface: "wlan0".to_string() });
    assert_eq!(
        parse(&["start_monitor_as", "wlan0", "mon0"]),
        Command::StartAs { iface: "wlan0".to_string(), new_name: "mon0".to_string() }
    );
    assert_eq!(parse(&["stop_monitor", "wlan0"]), Command::Stop { iface: "wlan0".to_string() });
    assert_eq!(parse(&["stop", "all"]), Command::StopAll);
    assert_eq!(parse(&["stop", "*"]), Command::StopAll);
    assert_eq!(parse(&["reset"]), Command::Reset);
    assert_eq!(parse(&["list"]), Command::List);
    assert_eq!(parse(&["ls"]), Command::List);
    assert_eq!(parse(&["help", "ignored"]), Command::Help);
}

#[test]
fn usage_errors_say_what_is_wrong() {
    let message = |list: &[&str]| match parse_command(&args(list)) {
        Err(CliError::Usage(message)) => message,
        other => panic!("expected a usage error, got {other:?}"),
    };
    assert_eq!(message(&[]), "no command given");
    assert_eq!(message(&["start", "a", "b"]), "start_monitor takes at most one interface");
    assert_eq!(
        message(&["start_monitor_as"]),
        "usage: rfmon start_monitor_as <iface> <new_name>"
    );
    assert_eq!(message(&["stop"]), "usage: rfmon stop_monitor <iface|all>");
    assert_eq!(message(&["reset", "x"]), "reset takes no arguments");
    assert_eq!(message(&["ls", "x"]), "list takes no arguments");
    assert_eq!(message(&["frobnicate"]), "unknown command 'frobnicate'");
}

#[test]
fn exit_codes_tell_usage_from_failure() {
    assert_eq!(exit_code(&Ok(())), 0);
    assert_eq!(exit_code(&Err(CliError::Usage("x".to_string()))), 2);
    assert_eq!(exit_code(&Err(CliError::from(Error::NoInterfaces))), 1);
    let printed = usage_message("no command given");
    assert!(printed.starts_with("rfmon: no command given\n\nusage:\n"));
    assert!(printed.ends_with(USAGE));
}

#[test]
fn services_are_driven_by_absolute_path() {
    assert_eq!(systemctl(true), "/usr/bin/systemctl");
    assert_eq!(systemctl(false), "/bin/systemctl");
    assert_eq!(SERVICES, ["wpa_supplicant", "NetworkManager"]);
    assert_eq!(
        probe_args("wpa_supplicant"),
        ["cat", "--no-pager", "wpa_supplicant.service"]
    );
    assert_eq!(restart_args("NetworkManager"), ["restart", "NetworkManager"]);
    assert_eq!(default_filter(true), "debug,rfmon=debug");
    assert_eq!(default_filter(false), "info,rfmon=info");
}

fn radio(name: &str) -> WirelessInterface {
    let freq = |mhz: u32, channel: Option<u32>, disabled: bool| Frequency {
        mhz,
        channel,
        disabled,
        radar: false,
    };
    WirelessInterface {
        name: name.to_string(),
        index: 2,
        phy_index: 0,
        mac: MacAddr([0xde, 0xad, 0xbe, 0xef, 0, 1]),
        mode: InterfaceMode::Managed,
        supported_modes: vec![],
        bands: vec![Band {
            kind: BandKind::TwoGhz,
            frequencies: vec![
                freq(2412, Some(1), false),
                freq(2484, Some(14), true),
                freq(2413, None, false),
            ],
        }],
        driver: Some("ath9k".to_string()),
        bus: BusKind::Pci,
        ssid: Some("Flamingo".to_string()),
    }
}

#[test]
fn the_report_covers_every_interface() {
    assert_eq!(list_report(&vec![]), ["no wireless interfaces found"]);

    let mut second = radio("wlan1");
    second.mode = InterfaceMode::Monitor;
    second.driver = None;
    second.ssid = None;
    second.bands = vec![];
    second.bus = BusKind::Usb;
    let lines = list_report(&vec![radio("wlan0"), second]);
    assert_eq!(
        lines,
        [
            "wlan0  (score -60)",
            "  mode     managed",
            "  device   ath9k on pci",
            "  mac      de:ad:be:ef:00:01",
            "  monitor  not advertised, but this driver family supports it in practice",
            "  ssid     Flamingo",
            "  2.4 GHz  2 usable: 1,2413MHz",
            "",
            "wlan1  (score 30)",
            "  mode     monitor  (in use; rfmon will not take this interface)",
            "  device   unknown driver on usb",
            "  mac      de:ad:be:ef:00:01",
            "  monitor  not supported",
            "  ssid     -",
        ]
    );
}

#[test]
fn monitor_support_has_three_tiers() {
    let mut iface = radio("wlan0");
    iface.supported_modes = vec![InterfaceMode::Monitor];
    assert_eq!(monitor_support(&iface), "advertised over nl80211");
    iface.supported_modes = vec![];
    assert_eq!(
        monitor_support(&iface),
        "not advertised, but this driver family supports it in practice"
    );
    iface.driver = None;
    assert_eq!(monitor_support(&iface), "not supported");
}

#[test]
fn scores_print_with_their_sign() {
    assert_eq!(signed_string(0), "0");
    assert_eq!(signed_string(-100), "-100");
    assert_eq!(signed_string(i32::MIN), "-2147483648");
    assert_eq!(signed_string(i32::MAX), "2147483647");
}
