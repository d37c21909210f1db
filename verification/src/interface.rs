//! The platform-neutral view of a wireless interface: its identity, operating
//! mode and device capabilities, and the score that ranks it for capture.
//!
//! Nothing here talks to the kernel. The records are filled in by
//! [`detect`](crate::detect) from what the kernel reported.

use vstd::prelude::*;
use vstd::string::StringExecFns;

use crate::mac::MacAddr;
use crate::text::{contains_lowered, decimal_string};

verus! {

/// Score of a driver family known to support monitor mode.
pub const SCORE_KNOWN_MONITOR_DRIVER: i32 = 40;

/// Score of a USB adapter.
pub const SCORE_USB_BUS: i32 = 30;

/// Score of a device that advertises monitor mode.
pub const SCORE_ADVERTISES_MONITOR: i32 = 20;

/// Score of a device on neither USB nor PCI.
pub const SCORE_OTHER_BUS: i32 = 5;

/// Score of a device with a 5 GHz band.
pub const SCORE_DUAL_BAND: i32 = 2;

/// Score of an interface that carries a live association. It outweighs all the
/// others together.
pub const SCORE_ASSOCIATED_PENALTY: i32 = -100;

/// Fragments of the names of driver families known to support monitor mode,
/// whatever they advertise. Matching is by substring, so no fragment contains
/// another.
pub const MONITOR_DRIVER_TOKENS: [&'static str; 14] = [
    "ath9k",
    "carl9170",
    "rtl8187",
    "rtl8821",
    "8812au",
    "88xxau",
    "8814au",
    "8821au",
    "rt2800usb",
    "rt2800pci",
    "rt73usb",
    "rt2500usb",
    "mt7921u",
    "mt76",
];

/// 802.11 interface operating mode.
#[derive(Debug, Clone, Copy, PartialEq, Eq, Hash, Structural)]
pub enum InterfaceMode {
    /// Managed / station mode (a normal client).
    Managed,
    /// Monitor mode, which receives raw 802.11 frames.
    Monitor,
    /// Access-point mode.
    Ap,
    /// Ad-hoc / IBSS mode.
    Adhoc,
    /// Mesh point.
    MeshPoint,
    /// Any other nl80211 iftype, by raw value.
    Other(u32),
}

/// A frequency band a physical device supports.
#[derive(Debug, Clone, Copy, PartialEq, Eq, Hash, Structural)]
pub enum BandKind {
    /// 2.4 GHz (802.11b/g/n/ax).
    TwoGhz,
    /// 5 GHz (802.11a/n/ac/ax).
    FiveGhz,
    /// 6 GHz (802.11ax/be).
    SixGhz,
    /// 60 GHz (802.11ad/ay).
    SixtyGhz,
    /// Any other nl80211 band, by raw value.
    Other(u16),
}

/// The physical bus a wireless device sits on.
#[derive(Debug, Clone, Copy, PartialEq, Eq, Hash, Structural)]
pub enum BusKind {
    /// USB, typically a removable adapter attached for the purpose.
    Usb,
    /// PCI/PCIe, typically the built-in card.
    Pci,
    /// Anything else, or undetermined.
    Other,
}

/// Channel bandwidth.
#[derive(Debug, Clone, Copy, PartialEq, Eq, Structural)]
pub enum ChannelWidth {
    /// 20 MHz (no-HT). The default; enough for management and EAPOL traffic.
    Mhz20,
    /// 40 MHz with the secondary channel above the primary (HT40+).
    Mhz40Above,
    /// 40 MHz with the secondary channel below the primary (HT40-).
    Mhz40Below,
}

/// A single frequency the device can operate on.
#[derive(Debug, Clone, Copy, PartialEq, Eq, Structural)]
pub struct Frequency {
    /// Center frequency in MHz.
    pub mhz: u32,
    /// The IEEE channel number, if the frequency is on a known grid.
    pub channel: Option<u32>,
    /// Whether the regulatory domain disables the channel.
    pub disabled: bool,
    /// Whether the channel is radar/DFS.
    pub radar: bool,
}

/// A supported band together with its frequencies.
#[derive(Debug, PartialEq, Eq)]
pub struct Band {
    /// Which band this is.
    pub kind: BandKind,
    /// The frequencies the device supports in it.
    pub frequencies: Vec<Frequency>,
}

/// A wireless interface joined with the capabilities of its physical device: a
/// snapshot of what was true when it was enumerated.
#[derive(Debug)]
pub struct WirelessInterface {
    /// Kernel interface name, e.g. `wlan0`.
    pub name: String,
    /// nl80211 interface index; a rename does not change it.
    pub index: u32,
    /// Index of the physical device (wiphy) behind the interface.
    pub phy_index: u32,
    /// Hardware address.
    pub mac: MacAddr,
    /// Current operating mode.
    pub mode: InterfaceMode,
    /// Operating modes the device advertises.
    pub supported_modes: Vec<InterfaceMode>,
    /// Supported bands and their frequencies.
    pub bands: Vec<Band>,
    /// Kernel driver bound to the device, if it could be determined.
    pub driver: Option<String>,
    /// Bus the device sits on.
    pub bus: BusKind,
    /// SSID the interface is associated to, if any.
    pub ssid: Option<String>,
}

/// The name under which the rest of the library speaks of an interface snapshot.
pub type InterfaceInfo = WirelessInterface;

/// The contents of a [`Band`].
#[verifier::ext_equal]
pub struct BandView {
    /// Which band.
    pub kind: BandKind,
    /// Its frequencies.
    pub frequencies: Seq<Frequency>,
}

/// The contents of a [`WirelessInterface`].
#[verifier::ext_equal]
pub struct InterfaceView {
    /// Kernel interface name.
    pub name: Seq<char>,
    /// Interface index.
    pub index: u32,
    /// Wiphy index.
    pub phy_index: u32,
    /// Hardware address, byte by byte.
    pub mac: Seq<u8>,
    /// Current mode.
    pub mode: InterfaceMode,
    /// Advertised modes.
    pub supported_modes: Seq<InterfaceMode>,
    /// Bands.
    pub bands: Seq<BandView>,
    /// Driver name.
    pub driver: Option<Seq<char>>,
    /// Bus.
    pub bus: BusKind,
    /// SSID.
    pub ssid: Option<Seq<char>>,
}

/// The characters of an optional string.
pub open spec fn opt_text(s: Option<String>) -> Option<Seq<char>> {
    match s {
        Some(t) => Some(t@),
        None => None,
    }
}

/// The contents of a sequence of bands.
pub open spec fn band_views(bands: Seq<Band>) -> Seq<BandView> {
    bands.map_values(|b: Band| b@)
}

/// The contents of a sequence of interfaces.
pub open spec fn interface_views(interfaces: Seq<WirelessInterface>) -> Seq<InterfaceView> {
    interfaces.map_values(|i: WirelessInterface| i@)
}

impl View for Band {
    type V = BandView;

    open spec fn view(&self) -> BandView {
        BandView { kind: self.kind, frequencies: self.frequencies@ }
    }
}

impl View for WirelessInterface {
    type V = InterfaceView;

    open spec fn view(&self) -> InterfaceView {
        InterfaceView {
            name: self.name@,
            index: self.index,
            phy_index: self.phy_index,
            mac: self.mac@,
            mode: self.mode,
            supported_modes: self.supported_modes@,
            bands: band_views(self.bands@),
            driver: opt_text(self.driver),
            bus: self.bus,
            ssid: opt_text(self.ssid),
        }
    }
}

/// Whether a driver name, whatever its capitals, holds one of the fragments of
/// [`MONITOR_DRIVER_TOKENS`].
pub open spec fn known_driver(driver: Seq<char>) -> bool {
    exists|t: int|
        0 <= t < 14 && crate::text::occurs_in(
            #[trigger] MONITOR_DRIVER_TOKENS@[t]@,
            crate::text::lowered(driver),
        )
}

impl InterfaceView {
    /// Whether the bound driver is of a known monitor-capable family.
    pub open spec fn has_known_driver(self) -> bool {
        self.driver matches Some(d) && known_driver(d)
    }

    /// Whether the device advertises monitor mode.
    pub open spec fn advertises_monitor(self) -> bool {
        self.supported_modes.contains(InterfaceMode::Monitor)
    }

    /// Whether the interface is in monitor mode.
    pub open spec fn in_monitor(self) -> bool {
        self.mode == InterfaceMode::Monitor
    }

    /// Whether the interface carries a live association.
    pub open spec fn associated(self) -> bool {
        self.ssid is Some
    }

    /// Whether monitor mode is worth trying on the interface.
    pub open spec fn plausible(self) -> bool {
        self.advertises_monitor() || self.has_known_driver()
    }

    /// Whether the device has a 5 GHz band.
    pub open spec fn dual_band(self) -> bool {
        exists|b: int| 0 <= b < self.bands.len() && (#[trigger] self.bands[b]).kind == BandKind::FiveGhz
    }

    /// The score of the interface as a capture candidate: the sum of what each
    /// of its traits counts for.
    pub open spec fn score(self) -> int {
        (if self.has_known_driver() { SCORE_KNOWN_MONITOR_DRIVER as int } else { 0 })
            + (match self.bus {
                BusKind::Usb => SCORE_USB_BUS as int,
                BusKind::Other => SCORE_OTHER_BUS as int,
                BusKind::Pci => 0,
            })
            + (if self.advertises_monitor() { SCORE_ADVERTISES_MONITOR as int } else { 0 })
            + (if self.associated() { SCORE_ASSOCIATED_PENALTY as int } else { 0 })
            + (if self.dual_band() { SCORE_DUAL_BAND as int } else { 0 })
    }

    /// The frequencies of the first `n` bands, one after the other.
    pub open spec fn frequencies_up_to(self, n: nat) -> Seq<Frequency>
        decreases n,
    {
        if n == 0 {
            Seq::empty()
        } else {
            self.frequencies_up_to((n - 1) as nat) + self.bands[n - 1].frequencies
        }
    }
}

impl Default for ChannelWidth {
    fn default() -> (w: ChannelWidth)
        ensures
            w == ChannelWidth::Mhz20,
    {
        ChannelWidth::Mhz20
    }
}

impl InterfaceMode {
    /// The name of the mode.
    pub open spec fn text(self) -> Seq<char> {
        match self {
            InterfaceMode::Managed => "managed"@,
            InterfaceMode::Monitor => "monitor"@,
            InterfaceMode::Ap => "AP"@,
            InterfaceMode::Adhoc => "adhoc"@,
            InterfaceMode::MeshPoint => "mesh"@,
            InterfaceMode::Other(v) => "iftype("@ + crate::text::decimal(v as nat) + ")"@,
        }
    }

    /// The name of the mode, as shown to the operator.
    pub fn to_string(&self) -> (s: String)
        ensures
            s@ == self.text(),
    {
        match self {
            InterfaceMode::Managed => "managed".to_owned(),
            InterfaceMode::Monitor => "monitor".to_owned(),
            InterfaceMode::Ap => "AP".to_owned(),
            InterfaceMode::Adhoc => "adhoc".to_owned(),
            InterfaceMode::MeshPoint => "mesh".to_owned(),
            InterfaceMode::Other(v) => {
                let mut s = "iftype(".to_owned();
                s.append(&decimal_string(*v as u64));
                s.append(")");
                s
            },
        }
    }
}

impl BandKind {
    /// The name of the band.
    pub open spec fn text(self) -> Seq<char> {
        match self {
            BandKind::TwoGhz => "2.4 GHz"@,
            BandKind::FiveGhz => "5 GHz"@,
            BandKind::SixGhz => "6 GHz"@,
            BandKind::SixtyGhz => "60 GHz"@,
            BandKind::Other(v) => "band("@ + crate::text::decimal(v as nat) + ")"@,
        }
    }

    /// The name of the band, as shown to the operator.
    pub fn to_string(&self) -> (s: String)
        ensures
            s@ == self.text(),
    {
        match self {
            BandKind::TwoGhz => "2.4 GHz".to_owned(),
            BandKind::FiveGhz => "5 GHz".to_owned(),
            BandKind::SixGhz => "6 GHz".to_owned(),
            BandKind::SixtyGhz => "60 GHz".to_owned(),
            BandKind::Other(v) => {
                let mut s = "band(".to_owned();
                s.append(&decimal_string(*v as u64));
                s.append(")");
                s
            },
        }
    }
}

impl ChannelWidth {
    /// The name of the width.
    pub open spec fn text(self) -> Seq<char> {
        match self {
            ChannelWidth::Mhz20 => "20 MHz"@,
            ChannelWidth::Mhz40Above => "40 MHz (HT40+)"@,
            ChannelWidth::Mhz40Below => "40 MHz (HT40-)"@,
        }
    }

    /// The name of the width, as shown to the operator.
    pub fn to_string(&self) -> (s: String)
        ensures
            s@ == self.text(),
    {
        match self {
            ChannelWidth::Mhz20 => "20 MHz".to_owned(),
            ChannelWidth::Mhz40Above => "40 MHz (HT40+)".to_owned(),
            ChannelWidth::Mhz40Below => "40 MHz (HT40-)".to_owned(),
        }
    }
}

impl BusKind {
    /// The name of the bus.
    pub open spec fn text(self) -> Seq<char> {
        match self {
            BusKind::Usb => "usb"@,
            BusKind::Pci => "pci"@,
            BusKind::Other => "other"@,
        }
    }

    /// The name of the bus, as shown to the operator.
    pub fn to_string(&self) -> (s: String)
        ensures
            s@ == self.text(),
    {
        match self {
            BusKind::Usb => "usb".to_owned(),
            BusKind::Pci => "pci".to_owned(),
            BusKind::Other => "other".to_owned(),
        }
    }
}

impl Frequency {
    /// The center frequency in MHz.
    #[must_use]
    pub fn mhz(&self) -> (r: u32)
        ensures
            r == self.mhz,
    {
        self.mhz
    }

    /// The IEEE channel number, if the frequency maps to a known one.
    #[must_use]
    pub fn channel(&self) -> (r: Option<u32>)
        ensures
            r == self.channel,
    {
        self.channel
    }

    /// Whether the regulatory domain disables the channel. A disabled channel
    /// cannot be tuned.
    #[must_use]
    pub fn is_disabled(&self) -> (r: bool)
        ensures
            r == self.disabled,
    {
        self.disabled
    }

    /// Whether the channel is radar/DFS. Monitor mode only receives, so this is
    /// informational.
    #[must_use]
    pub fn is_radar(&self) -> (r: bool)
        ensures
            r == self.radar,
    {
        self.radar
    }
}

/// A copy of a list of frequencies.
fn copy_frequencies(from: &Vec<Frequency>) -> (to: Vec<Frequency>)
    ensures
        to@ == from@,
{
    let mut to: Vec<Frequency> = Vec::new();
    let mut i: usize = 0;
    while i < from.len()
        invariant
            i <= from.len(),
            to@ == from@.take(i as int),
        decreases from.len() - i,
    {
        to.push(from[i]);
        assert(to@ =~= from@.take(i + 1));
        i += 1;
    }
    assert(to@ =~= from@);
    to
}

/// A copy of a list of modes.
pub(crate) fn copy_modes(from: &Vec<InterfaceMode>) -> (to: Vec<InterfaceMode>)
    ensures
        to@ == from@,
{
    let mut to: Vec<InterfaceMode> = Vec::new();
    let mut i: usize = 0;
    while i < from.len()
        invariant
            i <= from.len(),
            to@ == from@.take(i as int),
        decreases from.len() - i,
    {
        to.push(from[i]);
        assert(to@ =~= from@.take(i + 1));
        i += 1;
    }
    assert(to@ =~= from@);
    to
}

/// A copy of a list of bands.
pub(crate) fn copy_bands(from: &Vec<Band>) -> (to: Vec<Band>)
    ensures
        band_views(to@) == band_views(from@),
{
    let mut to: Vec<Band> = Vec::new();
    let mut i: usize = 0;
    while i < from.len()
        invariant
            i <= from.len(),
            band_views(to@) == band_views(from@).take(i as int),
        decreases from.len() - i,
    {
        let ghost before = to@;
        to.push(from[i].clone());
        assert(band_views(to@) =~= band_views(before).push(from@[i as int]@));
        assert(band_views(to@) =~= band_views(from@).take(i + 1));
        i += 1;
    }
    assert(band_views(to@) =~= band_views(from@));
    to
}

/// A copy of an optional string.
pub(crate) fn copy_opt(from: &Option<String>) -> (to: Option<String>)
    ensures
        opt_text(to) == opt_text(*from),
{
    match from {
        Some(s) => Some(s.clone()),
        None => None,
    }
}

impl Clone for Band {
    fn clone(&self) -> (b: Band)
        ensures
            b@ == self@,
    {
        Band { kind: self.kind, frequencies: copy_frequencies(&self.frequencies) }
    }
}

impl Clone for WirelessInterface {
    fn clone(&self) -> (i: WirelessInterface)
        ensures
            i@ == self@,
    {
        WirelessInterface {
            name: self.name.clone(),
            index: self.index,
            phy_index: self.phy_index,
            mac: self.mac,
            mode: self.mode,
            supported_modes: copy_modes(&self.supported_modes),
            bands: copy_bands(&self.bands),
            driver: copy_opt(&self.driver),
            bus: self.bus,
            ssid: copy_opt(&self.ssid),
        }
    }
}

impl Band {
    /// The band this frequency set belongs to.
    #[must_use]
    pub fn kind(&self) -> (r: BandKind)
        ensures
            r == self@.kind,
    {
        self.kind
    }

    /// The frequencies the device supports in this band.
    #[must_use]
    pub fn frequencies(&self) -> (r: &[Frequency])
        ensures
            r@ == self@.frequencies,
    {
        self.frequencies.as_slice()
    }
}

impl WirelessInterface {
    /// Kernel interface name, e.g. `wlan0`.
    #[must_use]
    pub fn name(&self) -> (r: &str)
        ensures
            r@ == self@.name,
    {
        self.name.as_str()
    }

    /// nl80211 interface index.
    #[must_use]
    pub fn index(&self) -> (r: u32)
        ensures
            r == self@.index,
    {
        self.index
    }

    /// Index of the physical device (wiphy) backing this interface.
    #[must_use]
    pub fn phy_index(&self) -> (r: u32)
        ensures
            r == self@.phy_index,
    {
        self.phy_index
    }

    /// Hardware MAC address of the interface.
    #[must_use]
    pub fn mac(&self) -> (r: MacAddr)
        ensures
            r@ == self@.mac,
    {
        self.mac
    }

    /// The interface's current operating mode.
    #[must_use]
    pub fn mode(&self) -> (r: InterfaceMode)
        ensures
            r == self@.mode,
    {
        self.mode
    }

    /// Operating modes the physical device supports.
    #[must_use]
    pub fn supported_modes(&self) -> (r: &[InterfaceMode])
        ensures
            r@ == self@.supported_modes,
    {
        self.supported_modes.as_slice()
    }

    /// Supported frequency bands and their channels.
    #[must_use]
    pub fn bands(&self) -> (r: &[Band])
        ensures
            band_views(r@) == self@.bands,
    {
        self.bands.as_slice()
    }

    /// Every supported frequency, band after band.
    #[must_use]
    pub fn frequencies(&self) -> (r: Vec<Frequency>)
        ensures
            r@ == self@.frequencies_up_to(self@.bands.len()),
    {
        let mut all: Vec<Frequency> = Vec::new();
        let mut b: usize = 0;
        while b < self.bands.len()
            invariant
                b <= self.bands.len(),
                all@ == self@.frequencies_up_to(b as nat),
            decreases self.bands.len() - b,
        {
            let band = &self.bands[b];
            let mut f: usize = 0;
            while f < band.frequencies.len()
                invariant
                    f <= band.frequencies.len(),
                    all@ == self@.frequencies_up_to(b as nat) + band.frequencies@.take(f as int),
                decreases band.frequencies.len() - f,
            {
                all.push(band.frequencies[f]);
                assert(all@ =~= self@.frequencies_up_to(b as nat) + band.frequencies@.take(f + 1));
                f += 1;
            }
            proof {
                assert(band.frequencies@.take(f as int) =~= band.frequencies@);
                assert(self@.bands[b as int].frequencies == band.frequencies@);
            }
            b += 1;
        }
        all
    }

    /// Whether the physical device advertises monitor mode. Some capable
    /// adapters do not, which is why selection also consults
    /// [`is_monitor_plausible`](Self::is_monitor_plausible).
    #[must_use]
    pub fn supports_monitor(&self) -> (r: bool)
        ensures
            r == self@.advertises_monitor(),
    {
        let mut i: usize = 0;
        while i < self.supported_modes.len()
            invariant
                i <= self.supported_modes.len(),
                forall|j: int| 0 <= j < i ==> self.supported_modes@[j] != InterfaceMode::Monitor,
            decreases self.supported_modes.len() - i,
        {
            if self.supported_modes[i] == InterfaceMode::Monitor {
                return true;
            }
            i += 1;
        }
        false
    }

    /// Whether the interface is in monitor mode.
    #[must_use]
    pub fn is_monitor(&self) -> (r: bool)
        ensures
            r == self@.in_monitor(),
    {
        self.mode == InterfaceMode::Monitor
    }

    /// Kernel driver bound to the physical device, if known.
    #[must_use]
    pub fn driver(&self) -> (r: Option<&str>)
        ensures
            match (r, self@.driver) {
                (Some(d), Some(v)) => d@ == v,
                (None, None) => true,
                _ => false,
            },
    {
        match &self.driver {
            Some(d) => Some(d.as_str()),
            None => None,
        }
    }

    /// The physical bus this device sits on.
    #[must_use]
    pub fn bus(&self) -> (r: BusKind)
        ensures
            r == self@.bus,
    {
        self.bus
    }

    /// The SSID this interface is associated to, if any.
    #[must_use]
    pub fn ssid(&self) -> (r: Option<&str>)
        ensures
            match (r, self@.ssid) {
                (Some(s), Some(v)) => s@ == v,
                (None, None) => true,
                _ => false,
            },
    {
        match &self.ssid {
            Some(s) => Some(s.as_str()),
            None => None,
        }
    }

    /// Whether the interface carries a live association. Taking such an
    /// interface for capture drops that connection.
    #[must_use]
    pub fn is_associated(&self) -> (r: bool)
        ensures
            r == self@.associated(),
    {
        self.ssid.is_some()
    }

    /// Whether the bound driver is of a known monitor-capable family.
    fn has_known_driver(&self) -> (r: bool)
        ensures
            r == self@.has_known_driver(),
    {
        match &self.driver {
            Some(d) => is_known_monitor_driver(d.as_str()),
            None => false,
        }
    }

    /// Whether monitor mode is plausible: the device advertises it, or its
    /// driver family is known to support it without saying so.
    #[must_use]
    pub fn is_monitor_plausible(&self) -> (r: bool)
        ensures
            r == self@.plausible(),
    {
        self.supports_monitor() || self.has_known_driver()
    }

    /// Whether the device has a 5 GHz band.
    fn is_dual_band(&self) -> (r: bool)
        ensures
            r == self@.dual_band(),
    {
        let mut i: usize = 0;
        while i < self.bands.len()
            invariant
                i <= self.bands.len(),
                forall|j: int| 0 <= j < i ==> self@.bands[j].kind != BandKind::FiveGhz,
            decreases self.bands.len() - i,
        {
            assert(self@.bands[i as int].kind == self.bands@[i as int].kind);
            if self.bands[i].kind == BandKind::FiveGhz {
                return true;
            }
            i += 1;
        }
        false
    }

    /// A heuristic score ranking this interface as a capture candidate; higher
    /// is better.
    #[must_use]
    pub fn monitor_score(&self) -> (r: i32)
        ensures
            r == self@.score(),
    {
        let mut score: i32 = 0;
        if self.has_known_driver() {
            score += SCORE_KNOWN_MONITOR_DRIVER;
        }
        score += match self.bus {
            BusKind::Usb => SCORE_USB_BUS,
            BusKind::Other => SCORE_OTHER_BUS,
            BusKind::Pci => 0,
        };
        if self.supports_monitor() {
            score += SCORE_ADVERTISES_MONITOR;
        }
        if self.is_associated() {
            score += SCORE_ASSOCIATED_PENALTY;
        }
        if self.is_dual_band() {
            score += SCORE_DUAL_BAND;
        }
        score
    }
}

/// Whether a driver name belongs to a family known to support monitor mode.
pub fn is_known_monitor_driver(driver: &str) -> (r: bool)
    ensures
        r == known_driver(driver@),
{
    let mut i: usize = 0;
    while i < 14
        invariant
            i <= 14,
            forall|t: int|
                0 <= t < i ==> !crate::text::occurs_in(
                    #[trigger] MONITOR_DRIVER_TOKENS@[t]@,
                    crate::text::lowered(driver@),
                ),
        decreases 14 - i,
    {
        if contains_lowered(driver, MONITOR_DRIVER_TOKENS[i]) {
            return true;
        }
        i += 1;
    }
    false
}

/// An interface that carries no association outscores every interface that does.
pub proof fn idle_outscores_associated(idle: InterfaceView, busy: InterfaceView)
    requires
        !idle.associated(),
        busy.associated(),
    ensures
        idle.score() > busy.score(),
{
}

/// The score depends on the driver, the bus, the advertised modes, the bands and
/// the association alone: two interfaces that agree on those score the same.
pub proof fn score_ignores_identity(a: InterfaceView, b: InterfaceView)
    requires
        a.driver == b.driver,
        a.bus == b.bus,
        a.supported_modes == b.supported_modes,
        a.bands == b.bands,
        a.associated() == b.associated(),
    ensures
        a.score() == b.score(),
        a.plausible() == b.plausible(),
{
}

} // verus!
