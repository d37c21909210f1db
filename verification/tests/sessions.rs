//! Sessions, held against a programmable backend that records what it is asked.

use rfmon::backend::{BackendOp, BackendReply};
use rfmon::channel::BandScope;
use rfmon::interface::{Band, BandKind, BusKind, ChannelWidth, Frequency, InterfaceMode};
use rfmon::monitor::{ChannelSet, Restore, Start, StopAll};
use rfmon::program::Progress;
use rfmon::{
    set_channel, set_channel_6g, start_monitor, start_monitor_as, start_monitor_on,
    stop_all_monitors, stop_monitor, Error, InterfaceInfo, MacAddr, MonitorBuilder, MonitorGuard,
    SetChannel, Tuning,
};

// A conversation with a backend.
trait Talk: Sized {
    type Out;
    fn ask(&self) -> BackendOp;
    fn tell(self, reply: BackendReply) -> Progress<Self, Self::Out>;
}

impl Talk for Start {
    type Out = Result<MonitorGuard, Error>;
    fn ask(&self) -> BackendOp {
        self.request()
    }
    fn tell(self, reply: BackendReply) -> Progress<Self, Self::Out> {
        self.resume(reply)
    }
}

impl Talk for ChannelSet {
    type Out = Result<String, Error>;
    fn ask(&self) -> BackendOp {
        self.request()
    }
    fn tell(self, reply: BackendReply) -> Progress<Self, Self::Out> {
        self.resume(reply)
    }
}

impl Talk for Restore {
    type Out = Result<String, Error>;
    fn ask(&self) -> BackendOp {
        self.request()
    }
    fn tell(self, reply: BackendReply) -> Progress<Self, Self::Out> {
        self.resume(reply)
    }
}

impl Talk for StopAll {
    type Out = Result<Vec<String>, Error>;
    fn ask(&self) -> BackendOp {
        self.request()
    }
    fn tell(self, reply: BackendReply) -> Progress<Self, Self::Out> {
        self.resume(reply)
    }
}

// `detect` returns `interfaces`, `stop` errors for any name in `fail_stop`, and
// every call appends to `calls`.
struct Mock {
    interfaces: Vec<InterfaceInfo>,
    fail_stop: Vec<String>,
    width: Option<ChannelWidth>,
    tuning: Tuning,
    calls: Vec<String>,
}

impl Mock {
    fn new(interfaces: Vec<InterfaceInfo>) -> Self {
        Self {
            interfaces,
            fail_stop: Vec::new(),
            width: None,
            tuning: Tuning::untuned(),
            calls: Vec::new(),
        }
    }

    fn perform(&mut self, op: &BackendOp) -> BackendReply {
        match op {
            BackendOp::Detect => {
                self.calls.push("detect".to_string());
                BackendReply::Interfaces(Ok(self.interfaces.iter().cloned().collect()))
            }
            BackendOp::StartAuto => {
                self.calls.push("start_auto".to_string());
                BackendReply::Interface(
                    self.interfaces.first().cloned().ok_or(Error::NoInterfaces),
                )
            }
            BackendOp::StartOn { name } => {
                self.calls.push(format!("start_on {name}"));
                BackendReply::Interface(
                    self.interfaces
                        .iter()
                        .find(|i| i.name() == name)
                        .cloned()
                        .ok_or_else(|| Error::NotFound {
                            name: name.to_string(),
                            available: String::new(),
                        }),
                )
            }
            BackendOp::StartAs { name, new_name } => {
                self.calls.push(format!("start_as {name}->{new_name}"));
                BackendReply::Interface(Ok(iface(new_name, InterfaceMode::Monitor)))
            }
            BackendOp::Rename { current, new } => {
                self.calls.push(format!("rename {current}->{new}"));
                BackendReply::Done(Ok(()))
            }
            BackendOp::SetChannel { name, freq_mhz, width, .. } => {
                self.calls.push(format!("set_channel {name} {freq_mhz}"));
                self.width = Some(*width);
                BackendReply::Done(Ok(()))
            }
            BackendOp::ReadTuning { name, .. } => {
                self.calls.push(format!("read_tuning {name}"));
                BackendReply::Tuning(Ok(self.tuning))
            }
            BackendOp::Stop { name } => {
                self.calls.push(format!("stop {name}"));
                if self.fail_stop.iter().any(|n| n == name) {
                    return BackendReply::Done(Err(Error::NotFound {
                        name: name.to_string(),
                        available: String::new(),
                    }));
                }
                BackendReply::Done(Ok(()))
            }
        }
    }

    fn run<T: Talk>(&mut self, talk: T) -> T::Out {
        self.finish(Progress::Pending(talk))
    }

    fn finish<T: Talk>(&mut self, progress: Progress<T, T::Out>) -> T::Out {
        let mut progress = progress;
        loop {
            match progress {
                Progress::Finished(out) => return out,
                Progress::Pending(talk) => {
                    let op = talk.ask();
                    let reply = self.perform(&op);
                    assert!(op.is_answered_by(&reply));
                    progress = talk.tell(reply);
                }
            }
        }
    }

    fn start(&mut self, builder: MonitorBuilder) -> Result<MonitorGuard, Error> {
        self.finish(builder.run())
    }

    fn tune(&mut self, request: SetChannel) -> Result<String, Error> {
        self.finish(request.run())
    }

    fn restore(&mut self, current: &str, original: &str) -> Result<String, Error> {
        self.run(Restore::start(current, original))
    }

    fn read(&mut self, guard: &MonitorGuard) -> Result<Tuning, Error> {
        match self.perform(&guard.tuning()) {
            BackendReply::Tuning(reading) => reading,
            other => panic!("expected a tuning, got {other:?}"),
        }
    }

    fn lookup(&mut self, name: &str) -> Result<InterfaceInfo, Error> {
        match self.perform(&InterfaceInfo::detect()) {
            BackendReply::Interfaces(detected) => InterfaceInfo::lookup(detected, name),
            other => panic!("expected interfaces, got {other:?}"),
        }
    }
}

// A minimal interface carrying 2.4 GHz channel 1 (2412 MHz) so channel
// resolution has something to resolve against.
fn iface(name: &str, mode: InterfaceMode) -> InterfaceInfo {
    InterfaceInfo {
        name: name.to_string(),
        index: 1,
        phy_index: 0,
        mac: MacAddr::zero(),
        mode,
        supported_modes: vec![InterfaceMode::Monitor],
        bands: vec![Band {
            kind: BandKind::TwoGhz,
            frequencies: vec![Frequency {
                mhz: 2412,
                channel: Some(1),
                disabled: false,
                radar: false,
            }],
        }],
        driver: None,
        bus: BusKind::Other,
        ssid: None,
    }
}

fn wlan0() -> Vec<InterfaceInfo> {
    vec![iface("wlan0", InterfaceMode::Monitor)]
}

#[test]
fn restore_named_renames_then_stops() {
    let mut m = Mock::new(vec![]);
    let out = m.restore("mon0", "wlan0").unwrap();
    assert_eq!(out, "wlan0");
    // Rename must precede stop: the interface has to carry its original name
    // before it is handed back to a network manager.
    assert_eq!(m.calls, vec!["rename mon0->wlan0", "stop wlan0"]);
}

#[test]
fn restore_named_skips_matching_rename() {
    let mut m = Mock::new(vec![]);
    m.restore("wlan0", "wlan0").unwrap();
    assert_eq!(m.calls, vec!["stop wlan0"]);
}

#[test]
fn stop_all_tolerates_failures() {
    let mut m = Mock::new(vec![
        iface("wlan0", InterfaceMode::Monitor),
        iface("wlan1", InterfaceMode::Managed),
        iface("wlan2", InterfaceMode::Monitor),
    ]);
    m.fail_stop.push("wlan0".to_string());

    let restored = m.run(stop_all_monitors()).unwrap();

    // wlan0's stop failed, wlan1 is managed (never touched), wlan2 restored.
    assert_eq!(restored, vec!["wlan2"]);
    assert!(m.calls.contains(&"stop wlan0".to_string()));
    assert!(m.calls.contains(&"stop wlan2".to_string()));
    assert!(!m.calls.contains(&"stop wlan1".to_string()));
}

#[test]
fn stop_monitor_names_what_it_stopped() {
    let mut m = Mock::new(vec![]);
    let stop = stop_monitor("wlan0");
    let reply = m.perform(&stop.request());
    assert_eq!(stop.resume(reply).unwrap(), "wlan0");

    m.fail_stop.push("wlan1".to_string());
    let stop = stop_monitor("wlan1");
    let reply = m.perform(&stop.request());
    assert!(stop.resume(reply).is_err());
    assert_eq!(m.calls, vec!["stop wlan0", "stop wlan1"]);
}

#[test]
fn set_channel_resolves_frequency() {
    let mut m = Mock::new(wlan0());
    let name = m.tune(SetChannel::new("wlan0", 1, BandScope::ExceptSixGhz)).unwrap();
    assert_eq!(name, "wlan0");
    assert_eq!(m.calls, vec!["detect", "set_channel wlan0 2412"]);
}

#[test]
fn set_channel_entry_points_fix_the_band() {
    let mut m = Mock::new(wlan0());
    assert_eq!(m.tune(set_channel("wlan0", 1)).unwrap(), "wlan0");
    assert!(matches!(
        m.tune(set_channel_6g("wlan0", 1)),
        Err(Error::WrongBand { alternative: "set_channel", .. })
    ));
}

#[test]
fn resolved_target_skips_detect() {
    // No interfaces are programmed: if the resolved path called detect(),
    // resolution would fail.
    let mut m = Mock::new(vec![]);
    let request = SetChannel::from_iface(
        iface("wlan0", InterfaceMode::Monitor),
        1,
        BandScope::ExceptSixGhz,
    );

    let name = m.tune(request).unwrap();

    assert_eq!(name, "wlan0");
    // Straight to set_channel, with no "detect" in the call log.
    assert_eq!(m.calls, vec!["set_channel wlan0 2412"]);
}

#[test]
fn set_channel_rejects_unknown_iface() {
    let mut m = Mock::new(wlan0());
    let err = m.tune(SetChannel::new("wlan9", 1, BandScope::ExceptSixGhz)).unwrap_err();
    assert!(matches!(err, Error::NotFound { .. }));
}

#[test]
fn start_monitor_returns_guard() {
    let mut m = Mock::new(wlan0());
    let guard = m.start(start_monitor()).ok().unwrap();
    assert_eq!(guard.name(), "wlan0");
    assert_eq!(guard.original_name(), "wlan0");
    guard.persist();
}

#[test]
fn start_as_rejects_invalid_name() {
    let mut m = Mock::new(vec![]);
    let err = m.start(start_monitor_as("wlan0", "bad name")).err().unwrap();
    assert!(matches!(err, Error::InvalidInterfaceName { .. }));
    // Validation happens first, so the backend is never called.
    assert!(m.calls.is_empty());
}

// --- lookup ---

#[test]
fn lookup_finds_an_interface_by_name() {
    let mut m = Mock::new(vec![
        iface("wlan0", InterfaceMode::Managed),
        iface("wlan1", InterfaceMode::Monitor),
    ]);

    let found = m.lookup("wlan1").unwrap();
    assert_eq!(found.name(), "wlan1");
    assert!(found.is_monitor());
    // One enumeration, not one per field.
    assert_eq!(m.calls, vec!["detect"]);
}

#[test]
fn lookup_names_what_does_exist_when_it_misses() {
    let mut m = Mock::new(vec![
        iface("wlan0", InterfaceMode::Managed),
        iface("wlan1", InterfaceMode::Managed),
    ]);

    let err = m.lookup("wlan9").unwrap_err();
    match err {
        Error::NotFound { name, available } => {
            assert_eq!(name, "wlan9");
            assert_eq!(available, "wlan0, wlan1");
        }
        other => panic!("expected NotFound, got {other:?}"),
    }
}

#[test]
fn lookup_distinguishes_an_empty_system_from_a_miss() {
    let mut m = Mock::new(vec![]);
    let err = m.lookup("wlan0").unwrap_err();
    assert!(matches!(err, Error::NoInterfaces));
}

// --- guard accessors ---

#[test]
fn guard_exposes_its_interface_info() {
    let mut m = Mock::new(wlan0());
    let guard = m.start(start_monitor()).ok().unwrap();
    // Static facts come off the snapshot the session already holds, so no
    // further backend traffic.
    assert_eq!(guard.info().name(), "wlan0");
    assert_eq!(guard.info().mac(), MacAddr::zero());
    assert_eq!(m.calls, vec!["start_auto"]);
    guard.persist();
}

#[test]
fn guard_reads_tuning_live() {
    let mut m = Mock::new(wlan0());
    m.tuning = Tuning {
        freq_mhz: Some(2412),
        width_mhz: Some(20),
        center_mhz: Some(2412),
    };

    let guard = m.start(start_monitor()).ok().unwrap();
    let reading = m.read(&guard);
    assert_eq!(guard.channel(reading).unwrap(), Some(1));
    let reading = m.read(&guard);
    assert_eq!(guard.frequency(reading).unwrap(), Some(2412));
    let reading = m.read(&guard);
    assert_eq!(guard.width(reading).unwrap(), Some(ChannelWidth::Mhz20));

    // Live means live: each accessor reaches the backend.
    assert_eq!(
        m.calls,
        vec![
            "start_auto",
            "read_tuning wlan0",
            "read_tuning wlan0",
            "read_tuning wlan0",
        ]
    );
    guard.persist();
}

#[test]
fn guard_reports_a_frequency_off_the_channel_grid() {
    let mut m = Mock::new(wlan0());
    // Between 2.4 GHz channels 1 and 2: a real frequency that maps to no channel
    // number.
    m.tuning = Tuning {
        freq_mhz: Some(2413),
        width_mhz: Some(20),
        center_mhz: Some(2413),
    };

    let guard = m.start(start_monitor()).ok().unwrap();
    let reading = m.read(&guard);
    assert_eq!(guard.channel(reading).unwrap(), None);
    let reading = m.read(&guard);
    assert_eq!(guard.frequency(reading).unwrap(), Some(2413));
    guard.persist();
}

#[test]
fn guard_tuning_answers_everything_in_one_read() {
    let mut m = Mock::new(wlan0());
    m.tuning = Tuning {
        freq_mhz: Some(5180),
        width_mhz: Some(40),
        center_mhz: Some(5190),
    };

    let guard = m.start(start_monitor()).ok().unwrap();
    let tuning = m.read(&guard).unwrap();
    assert_eq!(tuning.channel(), Some(36));
    assert_eq!(tuning.width(), Some(ChannelWidth::Mhz40Above));
    // Both answers from a single readback.
    assert_eq!(m.calls, vec!["start_auto", "read_tuning wlan0"]);
    guard.persist();
}

#[test]
fn guard_reports_an_untuned_interface_without_erroring() {
    let mut m = Mock::new(wlan0());
    let guard = m.start(start_monitor()).ok().unwrap();
    // Not being on a channel is a state, not a failure.
    let reading = m.read(&guard);
    assert_eq!(guard.channel(reading).unwrap(), None);
    assert!(!m.read(&guard).unwrap().is_tuned());
    guard.persist();
}

#[test]
fn guard_passes_a_failed_readback_on() {
    let guard = MonitorGuard::new(iface("wlan0", InterfaceMode::Monitor));
    assert!(matches!(guard.channel(Err(Error::NoInterfaces)), Err(Error::NoInterfaces)));
    assert!(matches!(guard.frequency(Err(Error::NoInterfaces)), Err(Error::NoInterfaces)));
    assert!(matches!(guard.width(Err(Error::NoInterfaces)), Err(Error::NoInterfaces)));
}

// --- builder chaining ---

#[test]
fn builder_does_nothing_until_awaited() {
    let m = Mock::new(wlan0());
    // Built and configured, never run: the hardware must be untouched.
    let _unawaited = start_monitor()
        .on_channel(1)
        .with_width(ChannelWidth::Mhz40Above);
    assert!(m.calls.is_empty(), "calls were {:?}", m.calls);
}

#[test]
fn builder_enters_monitor_then_tunes() {
    let mut m = Mock::new(wlan0());
    let guard = m.start(start_monitor().on_channel(1)).ok().unwrap();
    assert_eq!(guard.name(), "wlan0");

    // The channel is set only after monitor mode is confirmed, and no `detect`
    // comes between the two.
    assert_eq!(m.calls, vec!["start_auto", "set_channel wlan0 2412"]);
    guard.persist();
}

#[test]
fn builder_without_a_channel_does_not_tune() {
    let mut m = Mock::new(wlan0());
    let guard = m.start(start_monitor()).ok().unwrap();
    assert_eq!(m.calls, vec!["start_auto"]);
    guard.persist();
}

#[test]
fn builder_tunes_a_named_interface() {
    let mut m = Mock::new(wlan0());
    let guard = m.start(start_monitor_on("wlan0").on_channel(1)).ok().unwrap();
    assert_eq!(m.calls, vec!["start_on wlan0", "set_channel wlan0 2412"]);
    guard.persist();
}

#[test]
fn builder_rolls_back_when_the_channel_cannot_be_resolved() {
    // The mock interface carries 2.4 GHz channel 1 only, so channel 44 is not
    // resolvable on it.
    let mut m = Mock::new(wlan0());
    let err = m.start(start_monitor().on_channel(44)).err().unwrap();
    assert!(matches!(err, Error::ChannelUnavailable { channel: 44, .. }));

    // The session was entered and then torn back down.
    assert_eq!(m.calls, vec!["start_auto", "stop wlan0"]);
}

#[test]
fn builder_rollback_undoes_a_rename_too() {
    let mut m = Mock::new(wlan0());
    let err = m.start(start_monitor_as("wlan0", "mon0").on_channel(44)).err().unwrap();
    assert!(matches!(err, Error::ChannelUnavailable { .. }));

    // The rename is undone before the interface is handed back, and the handback
    // is addressed to the name the interface actually carries again.
    assert_eq!(
        m.calls,
        vec!["start_as wlan0->mon0", "rename mon0->wlan0", "stop wlan0"]
    );
}

#[test]
fn builder_rollback_reports_the_channel_and_not_the_teardown() {
    let mut m = Mock::new(wlan0());
    m.fail_stop.push("wlan0".to_string());
    let err = m.start(start_monitor().on_channel(44)).err().unwrap();
    assert!(matches!(err, Error::ChannelUnavailable { channel: 44, .. }));
}

#[test]
fn builder_carries_the_requested_width() {
    let mut m = Mock::new(wlan0());
    let guard = m
        .start(
            start_monitor()
                .on_channel(1)
                .with_width(ChannelWidth::Mhz40Below),
        )
        .ok()
        .unwrap();
    assert_eq!(m.width, Some(ChannelWidth::Mhz40Below));
    guard.persist();
}

#[test]
fn builder_keeps_the_last_band_choice() {
    let mut m = Mock::new(wlan0());
    // `on_channel_6g` then `on_channel` leaves a 2.4/5 GHz request.
    let guard = m.start(start_monitor().on_channel_6g(1).on_channel(1)).ok().unwrap();
    assert_eq!(m.calls, vec!["start_auto", "set_channel wlan0 2412"]);
    guard.persist();
}

#[test]
fn builder_resolves_six_ghz_in_the_six_ghz_band() {
    // 6 GHz channel 1 is 5955 MHz; 2.4 GHz channel 1 is 2412 MHz. Both are
    // present, so the frequency proves that the scope was carried through.
    let mut sixe = iface("wlan0", InterfaceMode::Monitor);
    sixe.bands.push(Band {
        kind: BandKind::SixGhz,
        frequencies: vec![Frequency {
            mhz: 5955,
            channel: Some(1),
            disabled: false,
            radar: false,
        }],
    });
    let mut m = Mock::new(vec![sixe]);

    let guard = m.start(start_monitor().on_channel_6g(1)).ok().unwrap();
    assert_eq!(m.calls, vec!["start_auto", "set_channel wlan0 5955"]);
    guard.persist();
}

// --- teardown ---

#[test]
fn guard_restore_renames_back_then_stops() {
    let mut m = Mock::new(vec![]);
    // A renamed session: current `mon0`, original `wlan0`.
    let guard =
        MonitorGuard::from_rename("wlan0".to_string(), iface("mon0", InterfaceMode::Monitor));
    let restored = m.run(guard.restore()).unwrap();
    assert_eq!(restored, "wlan0");
    assert_eq!(m.calls, vec!["rename mon0->wlan0", "stop wlan0"]);
}

#[test]
fn persisted_guard_drop_touches_nothing() {
    let m = Mock::new(vec![]);
    let guard =
        MonitorGuard::from_rename("wlan0".to_string(), iface("mon0", InterfaceMode::Monitor));
    assert_eq!(guard.persist(), "mon0");
    assert!(m.calls.is_empty());
}

#[test]
fn armed_guard_drop_restores_via_backend() {
    let mut m = Mock::new(vec![]);
    // Armed guard for a renamed session; what it owes when it goes out of scope
    // is the same rename-then-stop as restore().
    let mut guard =
        MonitorGuard::from_rename("wlan0".to_string(), iface("mon0", InterfaceMode::Monitor));
    assert!(guard.is_armed());
    let owed = guard.teardown().unwrap();
    m.run(owed).unwrap();
    assert_eq!(m.calls, vec!["rename mon0->wlan0", "stop wlan0"]);
    // And it owes that once.
    assert!(!guard.is_armed());
    assert!(guard.teardown().is_none());
}

#[test]
fn guard_tunes_the_interface_it_holds() {
    let mut m = Mock::new(vec![]);
    let guard = MonitorGuard::new(iface("wlan0", InterfaceMode::Monitor));
    assert_eq!(m.tune(guard.set_channel(1)).unwrap(), "wlan0");
    assert!(matches!(
        m.tune(guard.set_channel_6g(1)),
        Err(Error::WrongBand { alternative: "set_channel", .. })
    ));
    assert_eq!(m.calls, vec!["set_channel wlan0 2412"]);
}
