//! The Linux orchestration, held against a programmable stand-in for the kernel
//! and the services, which records what it is asked.

use rfmon::backend::{windows_reply, BackendOp, BackendReply, LinuxTask};
use rfmon::deadline::{deadline_of, with_timeout, NETLINK_TIMEOUT_MS};
use rfmon::enter::Enter;
use rfmon::errors::{FrequencyReadback, LinuxError, WidthReadback, WindowsError};
use rfmon::handover::{Holders, ReclaimStack, ReleaseStack};
use rfmon::interface::{BusKind, ChannelWidth, InterfaceMode, WirelessInterface};
use rfmon::leave::Leave;
use rfmon::ops::{LinuxOp, LinuxReply};
use rfmon::program::Progress;
use rfmon::start::{StartAs, StartAuto, StartOn};
use rfmon::tune::Tune;
use rfmon::{Error, MacAddr, Tuning};

// A conversation over primitive operations.
trait Talk: Sized {
    type Out;
    fn ask(&self) -> LinuxOp;
    fn tell(self, reply: LinuxReply) -> Progress<Self, Self::Out>;
}

impl Talk for ReleaseStack {
    type Out = Result<Holders, Error>;
    fn ask(&self) -> LinuxOp {
        self.request()
    }
    fn tell(self, reply: LinuxReply) -> Progress<Self, Self::Out> {
        self.resume(reply)
    }
}

impl Talk for ReclaimStack {
    type Out = Result<(), Error>;
    fn ask(&self) -> LinuxOp {
        self.request()
    }
    fn tell(self, reply: LinuxReply) -> Progress<Self, Self::Out> {
        self.resume(reply)
    }
}

impl Talk for Enter {
    type Out = Result<Holders, Error>;
    fn ask(&self) -> LinuxOp {
        self.request()
    }
    fn tell(self, reply: LinuxReply) -> Progress<Self, Self::Out> {
        self.resume(reply)
    }
}

impl Talk for Leave {
    type Out = Result<(), Error>;
    fn ask(&self) -> LinuxOp {
        self.request()
    }
    fn tell(self, reply: LinuxReply) -> Progress<Self, Self::Out> {
        self.resume(reply)
    }
}

impl Talk for StartOn {
    type Out = Result<WirelessInterface, Error>;
    fn ask(&self) -> LinuxOp {
        self.request()
    }
    fn tell(self, reply: LinuxReply) -> Progress<Self, Self::Out> {
        self.resume(reply)
    }
}

impl Talk for StartAs {
    type Out = Result<WirelessInterface, Error>;
    fn ask(&self) -> LinuxOp {
        self.request()
    }
    fn tell(self, reply: LinuxReply) -> Progress<Self, Self::Out> {
        self.resume(reply)
    }
}

impl Talk for StartAuto {
    type Out = Result<WirelessInterface, Error>;
    fn ask(&self) -> LinuxOp {
        self.request()
    }
    fn tell(self, reply: LinuxReply) -> Progress<Self, Self::Out> {
        self.resume(reply)
    }
}

impl Talk for Tune {
    type Out = Result<(), Error>;
    fn ask(&self) -> LinuxOp {
        self.request()
    }
    fn tell(self, reply: LinuxReply) -> Progress<Self, Self::Out> {
        self.resume(reply)
    }
}

impl Talk for LinuxTask {
    type Out = BackendReply;
    fn ask(&self) -> LinuxOp {
        self.request()
    }
    fn tell(self, reply: LinuxReply) -> Progress<Self, Self::Out> {
        self.resume(reply)
    }
}

// Programmable state standing in for the kernel and D-Bus. Any op named in
// `fail` errors; every call but a presence probe appends to `calls`.
struct Ops {
    interfaces: Vec<WirelessInterface>,
    read_mode: InterfaceMode,
    read_channel: Tuning,
    nm_present: bool,
    wpa_present: bool,
    fail: Vec<&'static str>,
    fail_set_mode_on: Vec<String>,
    rename_takes_then_fails: bool,
    calls: Vec<String>,
}

impl Ops {
    fn new() -> Self {
        Self {
            interfaces: Vec::new(),
            read_mode: InterfaceMode::Monitor,
            read_channel: Tuning::untuned(),
            nm_present: false,
            wpa_present: false,
            fail: Vec::new(),
            fail_set_mode_on: Vec::new(),
            rename_takes_then_fails: false,
            calls: Vec::new(),
        }
    }

    fn gate(&self, op: &'static str) -> Result<(), Error> {
        if self.fail.contains(&op) {
            Err(Error::Linux(LinuxError::OperationTimeout { op, timeout_ms: 0 }))
        } else {
            Ok(())
        }
    }

    fn perform(&mut self, op: &LinuxOp) -> LinuxReply {
        match op {
            LinuxOp::Detect => {
                self.calls.push("detect".to_string());
                LinuxReply::Interfaces(Ok(self.interfaces.iter().cloned().collect()))
            }
            LinuxOp::SetMode { name, mode, .. } => {
                self.calls.push(format!("set_mode {name} {}", mode.to_string()));
                if self.fail_set_mode_on.iter().any(|n| n == name) {
                    return LinuxReply::Done(Err(Error::Linux(LinuxError::OperationTimeout {
                        op: "set_mode",
                        timeout_ms: 0,
                    })));
                }
                LinuxReply::Done(self.gate("set_mode"))
            }
            LinuxOp::ReadMode { .. } => {
                self.calls.push("read_mode".to_string());
                LinuxReply::Mode(self.gate("read_mode").map(|()| self.read_mode))
            }
            LinuxOp::SetFreq { name, freq_mhz, .. } => {
                self.calls.push(format!("set_freq {name} {freq_mhz}"));
                LinuxReply::Done(self.gate("set_freq"))
            }
            LinuxOp::ReadChannel { .. } => {
                self.calls.push("read_channel".to_string());
                LinuxReply::Channel(self.gate("read_channel").map(|()| self.read_channel))
            }
            LinuxOp::Rename { old, new, .. } => {
                self.calls.push(format!("rename {old}->{new}"));
                if self.rename_takes_then_fails {
                    for iface in &mut self.interfaces {
                        if iface.name == *old {
                            iface.name = new.to_string();
                        }
                    }
                    return LinuxReply::Done(Err(Error::Linux(LinuxError::OperationTimeout {
                        op: "rename link up",
                        timeout_ms: 0,
                    })));
                }
                LinuxReply::Done(self.gate("rename"))
            }
            LinuxOp::NmPresent => LinuxReply::Present(self.nm_present),
            LinuxOp::NmRelease { iface } => {
                self.calls.push(format!("nm_release {iface}"));
                LinuxReply::Done(self.gate("nm_release"))
            }
            LinuxOp::NmReclaim { iface } => {
                self.calls.push(format!("nm_reclaim {iface}"));
                LinuxReply::Done(self.gate("nm_reclaim"))
            }
            LinuxOp::WpaPresent => LinuxReply::Present(self.wpa_present),
            LinuxOp::WpaRelease { iface } => {
                self.calls.push(format!("wpa_release {iface}"));
                LinuxReply::Done(self.gate("wpa_release"))
            }
            LinuxOp::WpaReclaim { iface } => {
                self.calls.push(format!("wpa_reclaim {iface}"));
                LinuxReply::Done(self.gate("wpa_reclaim"))
            }
        }
    }

    fn run<T: Talk>(&mut self, talk: T) -> T::Out {
        self.finish(Progress::Pending(talk))
    }

    fn finish<T: Talk>(&mut self, progress: Progress<T, T::Out>) -> T::Out {
        let mut progress = progress;
        loop {
            match progress {
                Progress::Finished(out) => return out,
                Progress::Pending(talk) => {
                    let op = talk.ask();
                    let reply = self.perform(&op);
                    assert!(op.is_answered_by(&reply));
                    progress = talk.tell(reply);
                }
            }
        }
    }

    fn release(&mut self, name: &str) -> Result<Holders, Error> {
        self.run(ReleaseStack::start(name))
    }

    fn reclaim(&mut self, name: &str, held: Holders) -> Result<(), Error> {
        self.finish(ReclaimStack::start(name, held))
    }

    fn enter(&mut self, iface: &WirelessInterface) -> Result<Holders, Error> {
        self.finish(Enter::start(iface))
    }

    fn leave(&mut self, name: &str) -> Result<(), Error> {
        self.run(Leave::start(name))
    }

    fn tune(&mut self, name: &str, freq_mhz: u32, width: ChannelWidth) -> Result<(), Error> {
        self.run(Tune::start(1, name.to_string(), freq_mhz, width))
    }
}

fn iface(name: &str) -> WirelessInterface {
    WirelessInterface {
        name: name.to_string(),
        index: 1,
        phy_index: 0,
        mac: MacAddr::zero(),
        mode: InterfaceMode::Managed,
        supported_modes: vec![InterfaceMode::Monitor],
        bands: Vec::new(),
        driver: None,
        bus: BusKind::Other,
        ssid: None,
    }
}

// The same interface already in monitor mode.
fn monitor_iface(name: &str) -> WirelessInterface {
    WirelessInterface {
        mode: InterfaceMode::Monitor,
        ..iface(name)
    }
}

// --- release / reclaim symmetry ---

#[test]
fn release_stack_drops_from_both() {
    let mut o = Ops::new();
    o.nm_present = true;
    o.wpa_present = true;
    o.release("wlan0").unwrap();
    assert_eq!(o.calls, vec!["nm_release wlan0", "wpa_release wlan0"]);
}

#[test]
fn reclaim_stack_mirrors_release() {
    let mut o = Ops::new();
    o.nm_present = true;
    o.wpa_present = true;
    // Mirrors a release that took the interface from both.
    let held = o.release("wlan0").unwrap();
    o.reclaim("wlan0", held).unwrap();
    assert_eq!(
        o.calls,
        vec![
            "nm_release wlan0",
            "wpa_release wlan0",
            "nm_reclaim wlan0",
            "wpa_reclaim wlan0",
        ]
    );
}

#[test]
fn reclaim_stack_succeeds_with_no_services() {
    let mut o = Ops::new();
    o.reclaim("wlan0", Holders::default()).unwrap();
    assert!(o.calls.is_empty());
}

#[test]
fn reclaim_stack_hands_back_only_to_services_that_held_it() {
    let mut o = Ops::new();
    // Both services are running, but only NetworkManager was holding the
    // interface; wpa_supplicant never had it.
    o.nm_present = true;
    o.wpa_present = true;
    let held = Holders {
        network_manager: true,
        supplicant: false,
    };
    o.reclaim("wlan0", held).unwrap();
    assert_eq!(o.calls, vec!["nm_reclaim wlan0"]);
}

#[test]
fn release_stack_records_only_the_services_that_were_present() {
    let mut o = Ops::new();
    o.wpa_present = true;

    let held = o.release("wlan0").unwrap();
    assert_eq!(
        held,
        Holders {
            network_manager: false,
            supplicant: true,
        }
    );
    assert!(held.any());
    assert_eq!(o.calls, vec!["wpa_release wlan0"]);
}

#[test]
fn a_refused_release_stops_there() {
    let mut o = Ops::new();
    o.nm_present = true;
    o.wpa_present = true;
    o.fail = vec!["nm_release"];
    assert!(o.release("wlan0").is_err());
    assert_eq!(o.calls, vec!["nm_release wlan0"]);
}

#[test]
fn a_refusal_of_the_second_service_gives_back_to_the_first() {
    let mut o = Ops::new();
    o.nm_present = true;
    o.wpa_present = true;
    o.fail = vec!["wpa_release"];
    let err = o.release("wlan0").unwrap_err();
    assert!(matches!(
        err,
        Error::Linux(LinuxError::OperationTimeout { op: "wpa_release", timeout_ms: 0 })
    ));
    assert_eq!(
        o.calls,
        vec!["nm_release wlan0", "wpa_release wlan0", "nm_reclaim wlan0"]
    );
}

#[test]
fn a_refusal_of_the_only_service_gives_nothing_back() {
    let mut o = Ops::new();
    o.wpa_present = true;
    o.fail = vec!["wpa_release"];
    let err = o.release("wlan0").unwrap_err();
    assert!(matches!(
        err,
        Error::Linux(LinuxError::OperationTimeout { op: "wpa_release", .. })
    ));
    assert_eq!(o.calls, vec!["wpa_release wlan0"]);
}

// --- enter rollback (verify + set_mode failure) ---

#[test]
fn enter_verifies_then_reports_success() {
    let mut o = Ops::new();
    o.nm_present = true;
    o.enter(&iface("wlan0")).unwrap();
    assert_eq!(
        o.calls,
        vec!["nm_release wlan0", "set_mode wlan0 monitor", "read_mode",]
    );
}

#[test]
fn enter_rolls_back_when_unhonored() {
    let mut o = Ops::new();
    o.nm_present = true;
    // The switch is accepted but the driver stays managed.
    o.read_mode = InterfaceMode::Managed;
    let err = o.enter(&iface("wlan0")).unwrap_err();
    assert!(matches!(
        err,
        Error::Linux(LinuxError::MonitorVerifyFailed { .. })
    ));
    // Release, switch, read back not-monitor, then roll back: managed + reclaim.
    assert_eq!(
        o.calls,
        vec![
            "nm_release wlan0",
            "set_mode wlan0 monitor",
            "read_mode",
            "set_mode wlan0 managed",
            "nm_reclaim wlan0",
        ]
    );
}

#[test]
fn enter_reclaims_on_switch_failure() {
    let mut o = Ops::new();
    o.nm_present = true;
    o.fail = vec!["set_mode"];
    let err = o.enter(&iface("wlan0")).unwrap_err();
    assert!(matches!(
        err,
        Error::Linux(LinuxError::OperationTimeout { .. })
    ));
    // No read_mode (switch failed), straight to reclaim; no second set_mode.
    assert_eq!(
        o.calls,
        vec![
            "nm_release wlan0",
            "set_mode wlan0 monitor",
            "nm_reclaim wlan0"
        ]
    );
}

#[test]
fn enter_hands_back_a_half_made_release() {
    let mut o = Ops::new();
    o.nm_present = true;
    o.wpa_present = true;
    o.fail = vec!["wpa_release"];
    let err = o.enter(&iface("wlan0")).unwrap_err();
    assert!(matches!(
        err,
        Error::Linux(LinuxError::OperationTimeout { op: "wpa_release", .. })
    ));
    // NetworkManager had let go and gets the interface back; no set_mode.
    assert_eq!(
        o.calls,
        vec!["nm_release wlan0", "wpa_release wlan0", "nm_reclaim wlan0"]
    );
}

#[test]
fn enter_reports_the_refusal_though_the_hand_back_fails_too() {
    let mut o = Ops::new();
    o.nm_present = true;
    o.wpa_present = true;
    o.fail = vec!["wpa_release", "nm_reclaim"];
    let err = o.enter(&iface("wlan0")).unwrap_err();
    assert!(matches!(
        err,
        Error::Linux(LinuxError::OperationTimeout { op: "wpa_release", .. })
    ));
    assert_eq!(
        o.calls,
        vec!["nm_release wlan0", "wpa_release wlan0", "nm_reclaim wlan0"]
    );
}

#[test]
fn start_auto_rolls_back_a_half_made_release_before_the_next_radio() {
    let mut o = Ops::new();
    o.interfaces = vec![iface("wlan0"), iface("wlan1")];
    o.nm_present = true;
    o.wpa_present = true;
    o.fail = vec!["wpa_release"];
    let err = o.run(StartAuto::start()).unwrap_err();
    assert!(matches!(
        err,
        Error::Linux(LinuxError::OperationTimeout { op: "wpa_release", .. })
    ));
    assert_eq!(
        o.calls,
        vec![
            "detect",
            "nm_release wlan0",
            "wpa_release wlan0",
            "nm_reclaim wlan0",
            "nm_release wlan1",
            "wpa_release wlan1",
            "nm_reclaim wlan1",
        ]
    );
}

#[test]
fn named_starts_roll_back_a_half_made_release() {
    let mut on = Ops::new();
    on.interfaces = vec![iface("wlan0")];
    on.nm_present = true;
    on.wpa_present = true;
    on.fail = vec!["wpa_release"];
    assert!(on.run(StartOn::start("wlan0")).is_err());
    let calls = vec![
        "detect",
        "nm_release wlan0",
        "wpa_release wlan0",
        "nm_reclaim wlan0",
    ];
    assert_eq!(on.calls, calls);

    let mut renamed = Ops::new();
    renamed.interfaces = vec![iface("wlan0")];
    renamed.nm_present = true;
    renamed.wpa_present = true;
    renamed.fail = vec!["wpa_release"];
    assert!(renamed.run(StartAs::start("wlan0", "mon0")).is_err());
    assert_eq!(renamed.calls, calls);
}

#[test]
fn start_auto_uses_the_idle_radio_when_another_is_already_capturing() {
    let mut o = Ops::new();
    // One radio is already in monitor mode; the other is free.
    o.interfaces = vec![monitor_iface("wlan0"), iface("wlan1")];
    o.nm_present = true;

    // The busy radio is excluded, not fatal.
    let chosen = o.run(StartAuto::start()).unwrap();
    assert_eq!(chosen.name(), "wlan1");

    // And the busy one was never touched on the way past.
    assert!(
        !o.calls.iter().any(|call| call.contains("wlan0")),
        "the radio already capturing must not be touched; calls were {:?}",
        o.calls,
    );
}

#[test]
fn start_auto_refuses_when_every_radio_is_already_capturing() {
    let mut o = Ops::new();
    o.interfaces = vec![monitor_iface("wlan0"), monitor_iface("wlan1")];
    o.nm_present = true;
    let err = o.run(StartAuto::start()).unwrap_err();
    assert!(matches!(err, Error::AlreadyMonitor { .. }));
    // Enumeration only; nothing was touched.
    assert_eq!(o.calls, vec!["detect"]);
}

#[test]
fn enter_refuses_an_interface_already_in_monitor_mode() {
    let mut o = Ops::new();
    o.nm_present = true;

    let err = o.enter(&monitor_iface("wlan0")).unwrap_err();
    assert!(matches!(err, Error::AlreadyMonitor { .. }));
    // Refused before the release, so nothing was touched.
    assert!(o.calls.is_empty(), "calls were {:?}", o.calls);
}

#[test]
fn start_on_refuses_a_busy_interface_by_name() {
    let mut o = Ops::new();
    // The by-name path skips scoring, so the ban has to catch it too.
    o.interfaces = vec![monitor_iface("wlan0")];
    o.nm_present = true;
    let err = o.run(StartOn::start("wlan0")).unwrap_err();
    assert!(matches!(err, Error::AlreadyMonitor { .. }));
    assert_eq!(o.calls, vec!["detect"]);
}

#[test]
fn start_as_refuses_a_busy_interface_by_name() {
    let mut o = Ops::new();
    o.interfaces = vec![monitor_iface("wlan0")];
    o.nm_present = true;
    let err = o.run(StartAs::start("wlan0", "mon0")).unwrap_err();
    assert!(matches!(err, Error::AlreadyMonitor { .. }));
    // No rename either: the refusal happens before anything is applied.
    assert_eq!(o.calls, vec!["detect"]);
}

#[test]
fn enter_rolls_back_on_readback_error() {
    let mut o = Ops::new();
    o.nm_present = true;
    // The switch is accepted, but confirming it fails outright.
    o.fail = vec!["read_mode"];
    let err = o.enter(&iface("wlan0")).unwrap_err();
    // The readback's own error surfaces, not a verify failure.
    assert!(matches!(
        err,
        Error::Linux(LinuxError::OperationTimeout { .. })
    ));
    assert_eq!(
        o.calls,
        vec![
            "nm_release wlan0",
            "set_mode wlan0 monitor",
            "read_mode",
            "set_mode wlan0 managed",
            "nm_reclaim wlan0",
        ]
    );
}

#[test]
fn leave_errors_when_managed_mode_is_not_honoured() {
    let mut o = Ops::new();
    o.interfaces = vec![monitor_iface("wlan0")];
    o.nm_present = true;
    // The switch back is accepted but the driver stays in monitor mode.
    o.read_mode = InterfaceMode::Monitor;
    let err = o.leave("wlan0").unwrap_err();
    assert!(matches!(
        err,
        Error::Linux(LinuxError::ManagedVerifyFailed {
            actual: InterfaceMode::Monitor,
            ..
        })
    ));
    // No handback: the mode never changed.
    assert_eq!(
        o.calls,
        vec!["detect", "set_mode wlan0 managed", "read_mode"]
    );
}

#[test]
fn start_as_renames_back_when_the_rename_took_but_failed() {
    let mut o = Ops::new();
    o.interfaces = vec![iface("wlan0")];
    o.nm_present = true;
    o.rename_takes_then_fails = true;
    let result = o.run(StartAs::start("wlan0", "mon0"));
    assert!(
        result.is_err(),
        "the rename reported failure, so should this"
    );

    // The name really did change, so rollback has to put it back.
    assert!(
        o.calls.contains(&"rename mon0->wlan0".to_string()),
        "rollback must rename back after a rename that took; calls were {:?}",
        o.calls,
    );
}

#[test]
fn start_auto_falls_back_to_the_next_candidate() {
    let mut o = Ops::new();
    // Two plausible radios. The better-scoring one is a Realtek that advertises
    // monitor mode and then refuses the switch.
    let mut best = iface("wlan0");
    best.driver = Some("rtl8812au".to_string());
    best.bus = BusKind::Usb;
    let second = iface("wlan1");
    o.interfaces = vec![best, second];
    o.fail_set_mode_on = vec!["wlan0".to_string()];

    match o.run(StartAuto::start()) {
        Ok(iface) => assert_eq!(
            iface.name(),
            "wlan1",
            "should have fallen back to the working radio",
        ),
        Err(error) => panic!(
            "gave up after the first candidate instead of trying the next: {error:?}; \
             calls were {:?}",
            o.calls,
        ),
    }
}

#[test]
fn start_auto_reports_the_last_failure_when_every_candidate_refuses() {
    let mut o = Ops::new();
    o.interfaces = vec![iface("wlan0"), iface("wlan1")];
    o.fail_set_mode_on = vec!["wlan0".to_string(), "wlan1".to_string()];
    let err = o.run(StartAuto::start()).unwrap_err();
    assert!(matches!(
        err,
        Error::Linux(LinuxError::OperationTimeout { op: "set_mode", .. })
    ));
    // Both were tried before giving up, in ranked order.
    assert!(
        o.calls.contains(&"set_mode wlan0 monitor".to_string())
            && o.calls.contains(&"set_mode wlan1 monitor".to_string()),
        "both candidates should have been attempted; calls were {:?}",
        o.calls,
    );
}

// --- deadlines ---

#[test]
fn with_timeout_passes_result_through() {
    let value = with_timeout("quick op", NETLINK_TIMEOUT_MS, Some(Ok(7u32))).unwrap();
    assert_eq!(value, 7);
}

#[test]
fn with_timeout_errors_on_deadline() {
    // The deadline passed first: the typed timeout, carrying its length.
    let err = with_timeout::<()>("stuck op", NETLINK_TIMEOUT_MS, None).unwrap_err();
    assert!(matches!(
        err,
        Error::Linux(LinuxError::OperationTimeout {
            op: "stuck op",
            timeout_ms: 5_000,
            ..
        })
    ));
}

#[test]
fn operations_run_under_their_own_deadlines() {
    let text = |s: &str| s.to_string();
    assert_eq!(deadline_of(&LinuxOp::Detect), None);
    assert_eq!(deadline_of(&LinuxOp::NmPresent), None);
    assert_eq!(
        deadline_of(&LinuxOp::SetMode { index: 1, name: text("w"), mode: InterfaceMode::Ap }),
        Some(("set interface mode", 5000))
    );
    assert_eq!(
        deadline_of(&LinuxOp::ReadChannel { index: 1 }),
        Some(("read interface channel", 5000))
    );
    assert_eq!(
        deadline_of(&LinuxOp::WpaReclaim { iface: text("w") }),
        Some(("wpa_supplicant reclaim", 5000))
    );
}

// --- tuning verification ---

// A readback for a driver that honoured the request exactly.
fn honoured(freq_mhz: u32, width: ChannelWidth) -> Tuning {
    match width {
        ChannelWidth::Mhz20 => Tuning {
            freq_mhz: Some(freq_mhz),
            width_mhz: Some(20),
            center_mhz: Some(freq_mhz),
        },
        ChannelWidth::Mhz40Above => Tuning {
            freq_mhz: Some(freq_mhz),
            width_mhz: Some(40),
            center_mhz: Some(freq_mhz + 10),
        },
        ChannelWidth::Mhz40Below => Tuning {
            freq_mhz: Some(freq_mhz),
            width_mhz: Some(40),
            center_mhz: Some(freq_mhz - 10),
        },
    }
}

#[test]
fn set_channel_confirms_the_frequency_took() {
    let mut o = Ops::new();
    o.read_channel = honoured(5180, ChannelWidth::Mhz20);
    o.tune("wlan0", 5180, ChannelWidth::Mhz20).unwrap();
    assert_eq!(o.calls, vec!["set_freq wlan0 5180", "read_channel"]);
}

#[test]
fn set_channel_confirms_both_ht40_variants() {
    for width in [ChannelWidth::Mhz40Above, ChannelWidth::Mhz40Below] {
        let mut o = Ops::new();
        o.read_channel = honoured(5180, width);
        o.tune("wlan0", 5180, width)
            .unwrap_or_else(|e| panic!("{} should verify: {}", width.to_string(), e.to_string()));
    }
}

#[test]
fn set_channel_errors_when_the_driver_narrows_the_width() {
    let mut o = Ops::new();
    // The quiet failure: right frequency, but 40 MHz silently became 20.
    o.read_channel = honoured(5180, ChannelWidth::Mhz20);
    let err = o.tune("wlan0", 5180, ChannelWidth::Mhz40Above).unwrap_err();
    assert!(matches!(
        err,
        Error::Linux(LinuxError::WidthVerifyFailed {
            primary_mhz: 5180,
            requested: ChannelWidth::Mhz40Above,
            actual: WidthReadback::Known(ChannelWidth::Mhz20),
            ..
        })
    ));
}

#[test]
fn set_channel_errors_when_ht40_lands_on_the_wrong_side() {
    let mut o = Ops::new();
    // 40 MHz was honoured, but the secondary sits below where we asked above.
    o.read_channel = honoured(5180, ChannelWidth::Mhz40Below);
    let err = o.tune("wlan0", 5180, ChannelWidth::Mhz40Above).unwrap_err();
    assert!(matches!(
        err,
        Error::Linux(LinuxError::WidthVerifyFailed {
            actual: WidthReadback::Known(ChannelWidth::Mhz40Below),
            ..
        })
    ));
}

#[test]
fn set_channel_errors_when_the_segment_centre_is_misaligned() {
    let mut o = Ops::new();
    // 40 MHz at a centre that is neither primary +10 nor -10.
    o.read_channel = Tuning {
        freq_mhz: Some(5180),
        width_mhz: Some(40),
        center_mhz: Some(5210),
    };
    let err = o.tune("wlan0", 5180, ChannelWidth::Mhz40Above).unwrap_err();
    assert!(matches!(
        err,
        Error::Linux(LinuxError::WidthVerifyFailed {
            actual: WidthReadback::Misaligned {
                center_mhz: Some(5210)
            },
            ..
        })
    ));
}

#[test]
fn set_channel_errors_when_the_width_is_wider_than_requested() {
    let mut o = Ops::new();
    // Something else left the device at 80 MHz and the set did not narrow it.
    o.read_channel = Tuning {
        freq_mhz: Some(5180),
        width_mhz: Some(80),
        center_mhz: Some(5210),
    };
    let err = o.tune("wlan0", 5180, ChannelWidth::Mhz20).unwrap_err();
    assert!(matches!(
        err,
        Error::Linux(LinuxError::WidthVerifyFailed {
            actual: WidthReadback::Other { mhz: 80 },
            ..
        })
    ));
}

#[test]
fn set_channel_accepts_ht20_reported_as_plain_20() {
    let mut o = Ops::new();
    // nl80211 distinguishes 20_NOHT from 20; both are 20 MHz for our purposes.
    o.read_channel = Tuning {
        freq_mhz: Some(2412),
        width_mhz: Some(20),
        center_mhz: None,
    };
    o.tune("wlan0", 2412, ChannelWidth::Mhz20).unwrap();
}

#[test]
fn set_channel_errors_on_mismatch() {
    let mut o = Ops::new();
    // Accepted the set but stayed elsewhere.
    o.read_channel = honoured(2412, ChannelWidth::Mhz20);
    let err = o.tune("wlan0", 5180, ChannelWidth::Mhz20).unwrap_err();
    assert!(matches!(
        err,
        Error::Linux(LinuxError::ChannelVerifyFailed {
            requested_mhz: 5180,
            actual: FrequencyReadback::Mhz(2412),
            ..
        })
    ));
}

#[test]
fn set_channel_errors_when_untuned() {
    let mut o = Ops::new();
    o.read_channel = Tuning::untuned(); // reports untuned after the set
    let err = o.tune("wlan0", 5180, ChannelWidth::Mhz20).unwrap_err();
    assert!(matches!(
        err,
        Error::Linux(LinuxError::ChannelVerifyFailed {
            actual: FrequencyReadback::Unreported,
            ..
        })
    ));
}

#[test]
fn a_width_that_is_not_reported_is_not_confirmed() {
    let mut o = Ops::new();
    o.read_channel = Tuning { freq_mhz: Some(5180), width_mhz: None, center_mhz: None };
    assert!(matches!(
        o.tune("wlan0", 5180, ChannelWidth::Mhz20),
        Err(Error::Linux(LinuxError::WidthVerifyFailed {
            actual: WidthReadback::Unreported,
            ..
        }))
    ));
}

// --- leave tolerance ---

#[test]
fn leave_succeeds_even_when_handback_fails() {
    let mut o = Ops::new();
    o.interfaces = vec![monitor_iface("wlan0")];
    o.nm_present = true;
    o.fail = vec!["nm_reclaim"];
    // The driver honoured the switch back.
    o.read_mode = InterfaceMode::Managed;
    // The mode switch to managed succeeds and verifies; only the courtesy
    // handback fails.
    o.leave("wlan0").unwrap();
    assert_eq!(
        o.calls,
        vec![
            "detect",
            "set_mode wlan0 managed",
            "read_mode",
            "nm_reclaim wlan0",
        ]
    );
}

#[test]
fn leave_skips_switch_when_managed() {
    let mut o = Ops::new();
    // Managed, not monitor: the blind `stop_monitor wlan0` case.
    o.interfaces = vec![iface("wlan0")];
    o.nm_present = true;
    o.leave("wlan0").unwrap();
    // No set_mode: bouncing the link would drop a live association.
    assert_eq!(o.calls, vec!["detect", "nm_reclaim wlan0"]);
}

#[test]
fn leave_fails_on_switch_failure() {
    let mut o = Ops::new();
    o.interfaces = vec![monitor_iface("wlan0")];
    o.nm_present = true;
    o.fail = vec!["set_mode"];
    let err = o.leave("wlan0").unwrap_err();
    assert!(matches!(
        err,
        Error::Linux(LinuxError::OperationTimeout { .. })
    ));
    // Reclaim is never reached: the interface is not back in managed mode.
    assert_eq!(o.calls, vec!["detect", "set_mode wlan0 managed"]);
}

// --- start_as rollback ---

#[test]
fn start_as_rolls_back_when_rename_fails() {
    let mut o = Ops::new();
    o.interfaces = vec![iface("wlan0")];
    o.nm_present = true;
    o.fail = vec!["rename"];
    let result = o.run(StartAs::start("wlan0", "mon0"));
    assert!(matches!(
        result,
        Err(Error::Linux(LinuxError::OperationTimeout { .. }))
    ));
    // find, enter (release/set monitor/read), failed rename, then roll back.
    assert_eq!(
        o.calls,
        vec![
            "detect",
            "nm_release wlan0",
            "set_mode wlan0 monitor",
            "read_mode",
            "rename wlan0->mon0",
            "rename mon0->wlan0",
            "set_mode wlan0 managed",
            "nm_reclaim wlan0",
        ]
    );
}

#[test]
fn start_as_rolls_back_on_redetect_failure() {
    let mut o = Ops::new();
    // `wlan0` exists for the initial find, but the post-rename find for `mon0`
    // will miss.
    o.interfaces = vec![iface("wlan0")];
    o.nm_present = true;
    let result = o.run(StartAs::start("wlan0", "mon0"));
    assert!(matches!(result, Err(Error::NotFound { .. })));
    // The rename took, so rollback must rename mon0 back to wlan0, restore
    // managed mode, and hand the interface back.
    assert_eq!(
        o.calls,
        vec![
            "detect",
            "nm_release wlan0",
            "set_mode wlan0 monitor",
            "read_mode",
            "rename wlan0->mon0",
            "detect",
            "rename mon0->wlan0",
            "set_mode wlan0 managed",
            "nm_reclaim wlan0",
        ]
    );
}

// --- backend operations ---

#[test]
fn linux_performs_every_backend_operation() {
    let name = || "wlan0".to_string();

    let mut o = Ops::new();
    o.interfaces = vec![iface("wlan0")];
    assert!(matches!(
        o.run(LinuxTask::start(BackendOp::Detect)),
        BackendReply::Interfaces(Ok(found)) if found.len() == 1
    ));
    assert!(matches!(
        o.run(LinuxTask::start(BackendOp::StartAuto)),
        BackendReply::Interface(Ok(chosen)) if chosen.name() == "wlan0"
    ));
    assert!(matches!(
        o.run(LinuxTask::start(BackendOp::StartOn { name: name() })),
        BackendReply::Interface(Ok(chosen)) if chosen.name() == "wlan0"
    ));
    let starting_as = BackendOp::StartAs { name: name(), new_name: "mon0".to_string() };
    assert!(matches!(
        o.run(LinuxTask::start(starting_as)),
        BackendReply::Interface(Err(Error::NotFound { .. }))
    ));

    o.calls.clear();
    let renaming = BackendOp::Rename { current: name(), new: "mon0".to_string() };
    assert!(matches!(o.run(LinuxTask::start(renaming)), BackendReply::Done(Ok(()))));
    assert_eq!(o.calls, vec!["detect", "rename wlan0->mon0"]);
    let missing = BackendOp::Rename { current: "wlan9".to_string(), new: name() };
    assert!(matches!(
        o.run(LinuxTask::start(missing)),
        BackendReply::Done(Err(Error::NotFound { .. }))
    ));

    o.calls.clear();
    o.read_channel = honoured(5180, ChannelWidth::Mhz20);
    let tuning = BackendOp::SetChannel {
        index: 1,
        name: name(),
        freq_mhz: 5180,
        width: ChannelWidth::Mhz20,
    };
    assert!(matches!(o.run(LinuxTask::start(tuning)), BackendReply::Done(Ok(()))));
    let reading = BackendOp::ReadTuning { index: 1, name: name() };
    assert!(matches!(
        o.run(LinuxTask::start(reading)),
        BackendReply::Tuning(Ok(t)) if t.channel() == Some(36)
    ));
    let stopping = BackendOp::Stop { name: name() };
    assert!(matches!(o.run(LinuxTask::start(stopping)), BackendReply::Done(Ok(()))));
    assert_eq!(
        o.calls,
        vec!["set_freq wlan0 5180", "read_channel", "read_channel", "detect"]
    );
}

#[test]
fn windows_refuses_every_backend_operation() {
    let name = || "wlan0".to_string();
    let ops = vec![
        BackendOp::Detect,
        BackendOp::StartAuto,
        BackendOp::StartOn { name: name() },
        BackendOp::StartAs { name: name(), new_name: name() },
        BackendOp::Rename { current: name(), new: name() },
        BackendOp::SetChannel {
            index: 1,
            name: name(),
            freq_mhz: 2412,
            width: ChannelWidth::Mhz20,
        },
        BackendOp::ReadTuning { index: 1, name: name() },
        BackendOp::Stop { name: name() },
    ];
    for op in ops {
        let reply = windows_reply(&op);
        assert!(op.is_answered_by(&reply));
        let error = match reply {
            BackendReply::Interfaces(r) => r.err(),
            BackendReply::Interface(r) => r.err(),
            BackendReply::Done(r) => r.err(),
            BackendReply::Tuning(r) => r.err(),
        };
        assert!(matches!(error, Some(Error::Windows(WindowsError::Unsupported))));
    }
}
