//! What each error says.

use rfmon::errors::{FrequencyReadback, LinuxError, WidthReadback, WindowsError};
use rfmon::interface::{ChannelWidth, InterfaceMode};
use rfmon::Error;

fn text(s: &str) -> String {
    s.to_string()
}

#[test]
fn selection_errors_read_as_documented() {
    assert_eq!(
        Error::NoInterfaces.to_string(),
        "no wireless interfaces found on this system"
    );
    assert_eq!(
        Error::NoMonitorCapable { checked: 3 }.to_string(),
        "no monitor-capable wireless interface found (checked 3 interface(s))"
    );
    assert_eq!(
        Error::AlreadyMonitor { iface: text("wlan0") }.to_string(),
        "interface 'wlan0' is already in monitor mode and may be in use by another tool; \
         release it with stop_monitor(\"wlan0\") first if that state is stale"
    );
    assert_eq!(
        Error::NotFound { name: text("wlan9"), available: text("wlan0, wlan1") }.to_string(),
        "wireless interface 'wlan9' not found (available: [wlan0, wlan1])"
    );
    assert_eq!(
        Error::InvalidInterfaceName { name: text(""), reason: "must not be empty" }.to_string(),
        "invalid interface name '': must not be empty"
    );
}

#[test]
fn channel_errors_read_as_documented() {
    let iface = || text("wlan0");
    assert_eq!(
        Error::ChannelUnavailable { channel: 44, iface: iface() }.to_string(),
        "channel 44 is not available on interface 'wlan0'"
    );
    assert_eq!(
        Error::ChannelDisabled { channel: 14, iface: iface() }.to_string(),
        "channel 14 exists on interface 'wlan0' but is disabled by the current regulatory \
         domain (check it with `iw reg get`)"
    );
    assert_eq!(
        Error::WrongBand { channel: 37, iface: iface(), alternative: "set_channel_6g" }
            .to_string(),
        "channel 37 on 'wlan0' is in another band; use set_channel_6g() to tune it"
    );
    assert_eq!(
        Error::AmbiguousChannel { channel: 36, iface: iface() }.to_string(),
        "channel 36 is ambiguous on 'wlan0': it matches more than one frequency"
    );
}

#[test]
fn linux_errors_read_as_documented() {
    let iface = || text("wlan0");
    let source = || text("boom");
    let cases = vec![
        (
            LinuxError::NetlinkConnect { kind: "nl80211", phase: "connect", source: source() },
            "failed to open nl80211 netlink socket during connect: boom",
        ),
        (
            LinuxError::Dump { command: "get_wiphy", source: source() },
            "nl80211 get_wiphy dump failed: boom",
        ),
        (
            LinuxError::Timeout { command: "get_wiphy", timeout_ms: 5000 },
            "nl80211 get_wiphy dump timed out after 5000 ms",
        ),
        (
            LinuxError::OperationTimeout { op: "rename interface", timeout_ms: 5000 },
            "rename interface timed out after 5000 ms",
        ),
        (
            LinuxError::LinkSet { op: "down", iface: iface(), source: source() },
            "failed to bring interface 'wlan0' link down: boom",
        ),
        (
            LinuxError::SetMode { iface: iface(), source: source() },
            "failed to set interface 'wlan0' mode via nl80211: boom",
        ),
        (
            LinuxError::SetChannel { iface: iface(), source: source() },
            "failed to set interface 'wlan0' channel via nl80211: boom",
        ),
        (
            LinuxError::ChannelVerifyFailed {
                iface: iface(),
                requested_mhz: 5180,
                actual: FrequencyReadback::Mhz(2412),
            },
            "interface 'wlan0' did not tune to 5180 MHz after the set (reads as 2412 MHz)",
        ),
        (
            LinuxError::WidthVerifyFailed {
                iface: iface(),
                primary_mhz: 5180,
                requested: ChannelWidth::Mhz40Above,
                actual: WidthReadback::Known(ChannelWidth::Mhz20),
            },
            "interface 'wlan0' tuned to 5180 MHz but at 20 MHz rather than the requested \
             40 MHz (HT40+)",
        ),
        (
            LinuxError::MonitorVerifyFailed { iface: iface() },
            "interface 'wlan0' did not enter monitor mode after the switch",
        ),
        (
            LinuxError::ManagedVerifyFailed { iface: iface(), actual: InterfaceMode::Monitor },
            "interface 'wlan0' did not return to managed mode after the switch (reads as monitor)",
        ),
        (
            LinuxError::Rename { old: iface(), new: text("mon0"), source: source() },
            "failed to rename interface 'wlan0' to 'mon0': boom",
        ),
        (
            LinuxError::DbusConnect { source: source() },
            "failed to connect to the system D-Bus: boom",
        ),
        (
            LinuxError::NetworkManager { op: "get_device", iface: iface(), source: source() },
            "NetworkManager get_device failed for interface 'wlan0': boom",
        ),
        (
            LinuxError::Supplicant { op: "remove_interface", iface: iface(), source: source() },
            "wpa_supplicant remove_interface failed for interface 'wlan0': boom",
        ),
    ];
    for (error, expected) in cases {
        assert_eq!(error.to_string(), expected);
        // A platform error reads the same inside the general one.
        assert_eq!(Error::from(error).to_string(), expected);
    }
}

#[test]
fn windows_errors_read_as_documented() {
    assert_eq!(
        Error::from(WindowsError::Unsupported).to_string(),
        "Windows monitor-mode support is not yet implemented (requires Npcap)"
    );
}

#[test]
fn readbacks_read_as_documented() {
    assert_eq!(FrequencyReadback::from(Some(2412)).to_string(), "2412 MHz");
    assert_eq!(FrequencyReadback::from(None).to_string(), "none");
    assert_eq!(
        WidthReadback::Misaligned { center_mhz: Some(5210) }.to_string(),
        "40 MHz with segment centre 5210 MHz"
    );
    assert_eq!(
        WidthReadback::Misaligned { center_mhz: None }.to_string(),
        "40 MHz with no segment centre reported"
    );
    assert_eq!(WidthReadback::Other { mhz: 80 }.to_string(), "80 MHz");
    assert_eq!(WidthReadback::Unreported.to_string(), "none");
}
