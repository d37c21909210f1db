//! Reading nl80211 messages.
//!
//! A message is a list of attributes, of which only a few matter here; the types
//! of this module hold those as plain values. Capabilities (supported modes and
//! frequency bands) belong to the physical device, the wiphy, and arrive in a
//! split dump: several messages per wiphy, and several fragments per band, which
//! are merged.

use vstd::prelude::*;
use vstd::string::StringExecFns;

use crate::channel::{channel_from_mhz, Tuning};
use crate::errors::{Error, ErrorView, LinuxError, LinuxErrorView};
use crate::interface::{Band, BandKind, BandView, Frequency, InterfaceMode};
use crate::mac::MacAddr;
use crate::text::decimal_string;

verus! {

/// nl80211 interface type: independent BSS member.
pub const IFTYPE_ADHOC: u32 = 1;

/// nl80211 interface type: managed BSS member.
pub const IFTYPE_STATION: u32 = 2;

/// nl80211 interface type: access point.
pub const IFTYPE_AP: u32 = 3;

/// nl80211 interface type: monitor.
pub const IFTYPE_MONITOR: u32 = 6;

/// nl80211 interface type: mesh point.
pub const IFTYPE_MESH_POINT: u32 = 7;

/// nl80211 band: 2.4 GHz.
pub const BAND_2GHZ: u16 = 0;

/// nl80211 band: 5 GHz.
pub const BAND_5GHZ: u16 = 1;

/// nl80211 band: 60 GHz.
pub const BAND_60GHZ: u16 = 2;

/// nl80211 band: 6 GHz.
pub const BAND_6GHZ: u16 = 3;

/// A channel width as nl80211 reports it.
#[derive(Debug, Clone, Copy, PartialEq, Eq, Structural)]
pub enum RawWidth {
    /// 20 MHz without HT.
    NoHt20,
    /// Two segments of 80 MHz.
    Mhz80Plus80,
    /// That many MHz.
    Mhz(u32),
    /// A width that has no name here.
    Other(u32),
}

/// An attribute of an interface message.
#[derive(Debug)]
pub enum InterfaceAttr {
    /// The interface name.
    IfName(String),
    /// The interface index.
    IfIndex(u32),
    /// The wiphy index.
    Wiphy(u32),
    /// The hardware address.
    Mac(MacAddr),
    /// The interface type.
    IfType(u32),
    /// The SSID; present only while associated.
    Ssid(String),
    /// The primary center frequency, in MHz.
    WiphyFreq(u32),
    /// The channel width.
    ChannelWidth(RawWidth),
    /// The center of the first segment, in MHz.
    CenterFreq1(u32),
    /// Anything else.
    Other,
}

/// One fact about a frequency.
#[derive(Debug, Clone, Copy, PartialEq, Eq, Structural)]
pub enum FrequencyInfo {
    /// The frequency, in MHz.
    Freq(u32),
    /// The regulatory domain disables it.
    Disabled,
    /// Radar detection is mandatory on it.
    Radar,
    /// Anything else.
    Other,
}

/// One fact about a band.
#[derive(Debug)]
pub enum BandInfo {
    /// Frequencies in it.
    Freqs(Vec<Vec<FrequencyInfo>>),
    /// Anything else.
    Other,
}

/// A fragment of a band.
#[derive(Debug)]
pub struct RawBand {
    /// Which band.
    pub kind: u16,
    /// What is said of it.
    pub info: Vec<BandInfo>,
}

/// An attribute of a wiphy message.
#[derive(Debug)]
pub enum WiphyAttr {
    /// The wiphy index.
    Wiphy(u32),
    /// The interface types the device supports.
    SupportedIftypes(Vec<u16>),
    /// Fragments of its bands.
    WiphyBands(Vec<RawBand>),
    /// Anything else.
    Other,
}

/// One interface as read from a message, before it is joined with the
/// capabilities of its wiphy.
#[derive(Debug)]
pub struct RawInterface {
    /// Interface name.
    pub name: String,
    /// Interface index.
    pub index: u32,
    /// Wiphy index.
    pub phy_index: u32,
    /// Hardware address.
    pub mac: MacAddr,
    /// Current mode.
    pub mode: InterfaceMode,
    /// SSID, while associated.
    pub ssid: Option<String>,
}

/// The contents of an [`InterfaceAttr`].
pub enum InterfaceAttrView {
    /// The interface name.
    IfName(Seq<char>),
    /// The interface index.
    IfIndex(u32),
    /// The wiphy index.
    Wiphy(u32),
    /// The hardware address.
    Mac(Seq<u8>),
    /// The interface type.
    IfType(u32),
    /// The SSID.
    Ssid(Seq<char>),
    /// The primary center frequency.
    WiphyFreq(u32),
    /// The channel width.
    ChannelWidth(RawWidth),
    /// The center of the first segment.
    CenterFreq1(u32),
    /// Anything else.
    Other,
}

/// The contents of a [`BandInfo`].
pub enum BandInfoView {
    /// Frequencies.
    Freqs(Seq<Seq<FrequencyInfo>>),
    /// Anything else.
    Other,
}

/// The contents of a [`RawBand`].
pub struct RawBandView {
    /// Which band.
    pub kind: u16,
    /// What is said of it.
    pub info: Seq<BandInfoView>,
}

/// The contents of a [`WiphyAttr`].
pub enum WiphyAttrView {
    /// The wiphy index.
    Wiphy(u32),
    /// The interface types.
    SupportedIftypes(Seq<u16>),
    /// Fragments of the bands.
    WiphyBands(Seq<RawBandView>),
    /// Anything else.
    Other,
}

/// The contents of a [`RawInterface`].
pub struct RawInterfaceView {
    /// Interface name.
    pub name: Seq<char>,
    /// Interface index.
    pub index: u32,
    /// Wiphy index.
    pub phy_index: u32,
    /// Hardware address.
    pub mac: Seq<u8>,
    /// Current mode.
    pub mode: InterfaceMode,
    /// SSID.
    pub ssid: Option<Seq<char>>,
}

impl View for InterfaceAttr {
    type V = InterfaceAttrView;

    open spec fn view(&self) -> InterfaceAttrView {
        match self {
            InterfaceAttr::IfName(v) => InterfaceAttrView::IfName(v@),
            InterfaceAttr::IfIndex(v) => InterfaceAttrView::IfIndex(*v),
            InterfaceAttr::Wiphy(v) => InterfaceAttrView::Wiphy(*v),
            InterfaceAttr::Mac(v) => InterfaceAttrView::Mac(v@),
            InterfaceAttr::IfType(v) => InterfaceAttrView::IfType(*v),
            InterfaceAttr::Ssid(v) => InterfaceAttrView::Ssid(v@),
            InterfaceAttr::WiphyFreq(v) => InterfaceAttrView::WiphyFreq(*v),
            InterfaceAttr::ChannelWidth(v) => InterfaceAttrView::ChannelWidth(*v),
            InterfaceAttr::CenterFreq1(v) => InterfaceAttrView::CenterFreq1(*v),
            InterfaceAttr::Other => InterfaceAttrView::Other,
        }
    }
}

impl View for BandInfo {
    type V = BandInfoView;

    open spec fn view(&self) -> BandInfoView {
        match self {
            BandInfo::Freqs(v) => BandInfoView::Freqs(
                v@.map_values(|f: Vec<FrequencyInfo>| f@),
            ),
            BandInfo::Other => BandInfoView::Other,
        }
    }
}

impl View for RawBand {
    type V = RawBandView;

    open spec fn view(&self) -> RawBandView {
        RawBandView { kind: self.kind, info: self.info@.map_values(|i: BandInfo| i@) }
    }
}

impl View for WiphyAttr {
    type V = WiphyAttrView;

    open spec fn view(&self) -> WiphyAttrView {
        match self {
            WiphyAttr::Wiphy(v) => WiphyAttrView::Wiphy(*v),
            WiphyAttr::SupportedIftypes(v) => WiphyAttrView::SupportedIftypes(v@),
            WiphyAttr::WiphyBands(v) => WiphyAttrView::WiphyBands(
                v@.map_values(|b: RawBand| b@),
            ),
            WiphyAttr::Other => WiphyAttrView::Other,
        }
    }
}

impl View for RawInterface {
    type V = RawInterfaceView;

    open spec fn view(&self) -> RawInterfaceView {
        RawInterfaceView {
            name: self.name@,
            index: self.index,
            phy_index: self.phy_index,
            mac: self.mac@,
            mode: self.mode,
            ssid: crate::interface::opt_text(self.ssid),
        }
    }
}

/// The contents of an interface message.
pub open spec fn interface_attrs(attrs: Seq<InterfaceAttr>) -> Seq<InterfaceAttrView> {
    attrs.map_values(|a: InterfaceAttr| a@)
}

/// The contents of a sequence of interface messages.
pub open spec fn interface_messages(messages: Seq<Vec<InterfaceAttr>>) -> Seq<
    Seq<InterfaceAttrView>,
> {
    messages.map_values(|m: Vec<InterfaceAttr>| interface_attrs(m@))
}

/// The contents of a wiphy message.
pub open spec fn wiphy_attrs(attrs: Seq<WiphyAttr>) -> Seq<WiphyAttrView> {
    attrs.map_values(|a: WiphyAttr| a@)
}

/// The contents of a sequence of wiphy messages.
pub open spec fn wiphy_messages(messages: Seq<Vec<WiphyAttr>>) -> Seq<Seq<WiphyAttrView>> {
    messages.map_values(|m: Vec<WiphyAttr>| wiphy_attrs(m@))
}

/// The contents of a sequence of raw interfaces.
pub open spec fn raw_views(raw: Seq<RawInterface>) -> Seq<RawInterfaceView> {
    raw.map_values(|r: RawInterface| r@)
}

/// What the last entry that has something to say on a matter says.
pub open spec fn last_of<A, T>(s: Seq<A>, pick: spec_fn(A) -> Option<T>) -> Option<T>
    decreases s.len(),
{
    if s.len() == 0 {
        None
    } else {
        match pick(s.last()) {
            Some(t) => Some(t),
            None => last_of(s.drop_last(), pick),
        }
    }
}

/// One more entry at the end.
pub(crate) proof fn last_of_step<A, T>(s: Seq<A>, i: int, pick: spec_fn(A) -> Option<T>)
    requires
        0 <= i < s.len(),
    ensures
        last_of(s.take(i + 1), pick) == match pick(s[i]) {
            Some(t) => Some(t),
            None => last_of(s.take(i), pick),
        },
{
    assert(s.take(i + 1).drop_last() =~= s.take(i));
}

/// What the first entry that has something to say on a matter says.
pub open spec fn first_of<A, T>(s: Seq<A>, pick: spec_fn(A) -> Option<T>) -> Option<T>
    decreases s.len(),
{
    if s.len() == 0 {
        None
    } else {
        match pick(s[0]) {
            Some(t) => Some(t),
            None => first_of(s.drop_first(), pick),
        }
    }
}

/// The mode that an nl80211 interface type stands for.
pub open spec fn mode_of_iftype(value: u32) -> InterfaceMode {
    if value == IFTYPE_STATION {
        InterfaceMode::Managed
    } else if value == IFTYPE_MONITOR {
        InterfaceMode::Monitor
    } else if value == IFTYPE_AP {
        InterfaceMode::Ap
    } else if value == IFTYPE_ADHOC {
        InterfaceMode::Adhoc
    } else if value == IFTYPE_MESH_POINT {
        InterfaceMode::MeshPoint
    } else {
        InterfaceMode::Other(value)
    }
}

/// The nl80211 interface type that stands for a mode.
pub open spec fn iftype_of_mode(mode: InterfaceMode) -> u32 {
    match mode {
        InterfaceMode::Managed => IFTYPE_STATION,
        InterfaceMode::Monitor => IFTYPE_MONITOR,
        InterfaceMode::Ap => IFTYPE_AP,
        InterfaceMode::Adhoc => IFTYPE_ADHOC,
        InterfaceMode::MeshPoint => IFTYPE_MESH_POINT,
        InterfaceMode::Other(v) => v,
    }
}

/// Map an nl80211 interface type, as an interface message reports it, to a mode.
pub fn mode_from_iftype(value: u32) -> (r: InterfaceMode)
    ensures
        r == mode_of_iftype(value),
{
    match value {
        IFTYPE_STATION => InterfaceMode::Managed,
        IFTYPE_MONITOR => InterfaceMode::Monitor,
        IFTYPE_AP => InterfaceMode::Ap,
        IFTYPE_ADHOC => InterfaceMode::Adhoc,
        IFTYPE_MESH_POINT => InterfaceMode::MeshPoint,
        other => InterfaceMode::Other(other),
    }
}

/// Map an nl80211 interface type, as a wiphy message reports it, to a mode.
pub fn mode_from_ifmode(value: u16) -> (r: InterfaceMode)
    ensures
        r == mode_of_iftype(value as u32),
{
    mode_from_iftype(value as u32)
}

/// The nl80211 interface type to request for a mode.
pub fn mode_to_iftype(mode: InterfaceMode) -> (r: u32)
    ensures
        r == iftype_of_mode(mode),
{
    match mode {
        InterfaceMode::Managed => IFTYPE_STATION,
        InterfaceMode::Monitor => IFTYPE_MONITOR,
        InterfaceMode::Ap => IFTYPE_AP,
        InterfaceMode::Adhoc => IFTYPE_ADHOC,
        InterfaceMode::MeshPoint => IFTYPE_MESH_POINT,
        InterfaceMode::Other(v) => v,
    }
}

/// The type requested for a mode that was read is the type that was read; so a
/// named mode is read back as itself.
pub proof fn modes_and_iftypes_correspond(value: u32, mode: InterfaceMode)
    ensures
        iftype_of_mode(mode_of_iftype(value)) == value,
        !(mode is Other) ==> mode_of_iftype(iftype_of_mode(mode)) == mode,
{
}

/// The width in MHz that a reported width stands for, if it has a name: with or
/// without HT, 20 MHz is 20 MHz.
pub open spec fn mhz_of_width(value: RawWidth) -> Option<u32> {
    match value {
        RawWidth::NoHt20 => Some(20),
        RawWidth::Mhz(mhz) => Some(mhz),
        RawWidth::Mhz80Plus80 => Some(80),
        RawWidth::Other(v) => None,
    }
}

/// Normalise an nl80211 channel width to plain MHz.
pub fn width_mhz(value: RawWidth) -> (r: Option<u32>)
    ensures
        r == mhz_of_width(value),
{
    match value {
        RawWidth::NoHt20 => Some(20),
        RawWidth::Mhz(mhz) => Some(mhz),
        RawWidth::Mhz80Plus80 => Some(80),
        RawWidth::Other(v) => None,
    }
}

/// The band that an nl80211 band number stands for.
pub open spec fn band_of(value: u16) -> BandKind {
    if value == BAND_2GHZ {
        BandKind::TwoGhz
    } else if value == BAND_5GHZ {
        BandKind::FiveGhz
    } else if value == BAND_6GHZ {
        BandKind::SixGhz
    } else if value == BAND_60GHZ {
        BandKind::SixtyGhz
    } else {
        BandKind::Other(value)
    }
}

/// Map an nl80211 band number to a band.
pub fn bandkind_from(value: u16) -> (r: BandKind)
    ensures
        r == band_of(value),
{
    match value {
        BAND_2GHZ => BandKind::TwoGhz,
        BAND_5GHZ => BandKind::FiveGhz,
        BAND_6GHZ => BandKind::SixGhz,
        BAND_60GHZ => BandKind::SixtyGhz,
        other => BandKind::Other(other),
    }
}

impl InterfaceAttrView {
    /// The name in this attribute.
    pub open spec fn if_name(self) -> Option<Seq<char>> {
        match self {
            InterfaceAttrView::IfName(v) => Some(v),
            _ => None,
        }
    }

    /// The index in this attribute.
    pub open spec fn if_index(self) -> Option<u32> {
        match self {
            InterfaceAttrView::IfIndex(v) => Some(v),
            _ => None,
        }
    }

    /// The wiphy index in this attribute.
    pub open spec fn wiphy(self) -> Option<u32> {
        match self {
            InterfaceAttrView::Wiphy(v) => Some(v),
            _ => None,
        }
    }

    /// The hardware address in this attribute.
    pub open spec fn mac(self) -> Option<Seq<u8>> {
        match self {
            InterfaceAttrView::Mac(v) => Some(v),
            _ => None,
        }
    }

    /// The mode in this attribute.
    pub open spec fn mode(self) -> Option<InterfaceMode> {
        match self {
            InterfaceAttrView::IfType(v) => Some(mode_of_iftype(v)),
            _ => None,
        }
    }

    /// The SSID in this attribute.
    pub open spec fn ssid(self) -> Option<Seq<char>> {
        match self {
            InterfaceAttrView::Ssid(v) => Some(v),
            _ => None,
        }
    }

    /// The primary frequency in this attribute.
    pub open spec fn freq(self) -> Option<u32> {
        match self {
            InterfaceAttrView::WiphyFreq(v) => Some(v),
            _ => None,
        }
    }

    /// The channel width in this attribute.
    pub open spec fn width(self) -> Option<RawWidth> {
        match self {
            InterfaceAttrView::ChannelWidth(v) => Some(v),
            _ => None,
        }
    }

    /// The segment center in this attribute.
    pub open spec fn center(self) -> Option<u32> {
        match self {
            InterfaceAttrView::CenterFreq1(v) => Some(v),
            _ => None,
        }
    }
}

/// The interface that a message describes. A real network device always carries
/// an index, a name and a wiphy; what lacks one of these is none.
pub open spec fn raw_interface(attrs: Seq<InterfaceAttrView>) -> Option<RawInterfaceView> {
    match (
        last_of(attrs, |a: InterfaceAttrView| a.if_index()),
        last_of(attrs, |a: InterfaceAttrView| a.if_name()),
        last_of(attrs, |a: InterfaceAttrView| a.wiphy()),
    ) {
        (Some(index), Some(name), Some(phy_index)) => Some(
            RawInterfaceView {
                name,
                index,
                phy_index,
                mac: match last_of(attrs, |a: InterfaceAttrView| a.mac()) {
                    Some(mac) => mac,
                    None => crate::mac::zero_mac(),
                },
                mode: match last_of(attrs, |a: InterfaceAttrView| a.mode()) {
                    Some(mode) => mode,
                    None => InterfaceMode::Other(0),
                },
                ssid: last_of(attrs, |a: InterfaceAttrView| a.ssid()),
            },
        ),
        _ => None,
    }
}

/// The interfaces that a dump describes, in the order of the dump.
pub open spec fn raw_interfaces(messages: Seq<Seq<InterfaceAttrView>>) -> Seq<RawInterfaceView> {
    messages.filter_map(|m: Seq<InterfaceAttrView>| raw_interface(m))
}

/// The contents of an optional raw interface.
pub open spec fn opt_raw(r: Option<RawInterface>) -> Option<RawInterfaceView> {
    match r {
        Some(raw) => Some(raw@),
        None => None,
    }
}

/// The contents of an optional hardware address.
pub open spec fn opt_mac(r: Option<MacAddr>) -> Option<Seq<u8>> {
    match r {
        Some(mac) => Some(mac@),
        None => None,
    }
}

/// Read the interface that a message describes.
pub fn read_interface(attrs: Vec<InterfaceAttr>) -> (r: Option<RawInterface>)
    ensures
        opt_raw(r) == raw_interface(interface_attrs(attrs@)),
{
    let ghost all = interface_attrs(attrs@);
    let mut name: Option<String> = None;
    let mut index: Option<u32> = None;
    let mut phy_index: Option<u32> = None;
    let mut mac: Option<MacAddr> = None;
    let mut mode: Option<InterfaceMode> = None;
    let mut ssid: Option<String> = None;
    for attr in it: attrs
        invariant
            it.seq() == attrs@,
            all == interface_attrs(attrs@),
            crate::interface::opt_text(name) == last_of(
                all.take(it.index() as int),
                |a: InterfaceAttrView| a.if_name(),
            ),
            index == last_of(all.take(it.index() as int), |a: InterfaceAttrView| a.if_index()),
            phy_index == last_of(all.take(it.index() as int), |a: InterfaceAttrView| a.wiphy()),
            opt_mac(mac) == last_of(all.take(it.index() as int), |a: InterfaceAttrView| a.mac()),
            mode == last_of(all.take(it.index() as int), |a: InterfaceAttrView| a.mode()),
            crate::interface::opt_text(ssid) == last_of(
                all.take(it.index() as int),
                |a: InterfaceAttrView| a.ssid(),
            ),
    {
        proof {
            let n = it.index() as int;
            assert(all[n] == attr@);
            last_of_step(all, n, |a: InterfaceAttrView| a.if_name());
            last_of_step(all, n, |a: InterfaceAttrView| a.if_index());
            last_of_step(all, n, |a: InterfaceAttrView| a.wiphy());
            last_of_step(all, n, |a: InterfaceAttrView| a.mac());
            last_of_step(all, n, |a: InterfaceAttrView| a.mode());
            last_of_step(all, n, |a: InterfaceAttrView| a.ssid());
        }
        match attr {
            InterfaceAttr::IfName(value) => {
                name = Some(value);
            },
            InterfaceAttr::IfIndex(value) => {
                index = Some(value);
            },
            InterfaceAttr::Wiphy(value) => {
                phy_index = Some(value);
            },
            InterfaceAttr::Mac(value) => {
                mac = Some(value);
            },
            InterfaceAttr::IfType(value) => {
                mode = Some(mode_from_iftype(value));
            },
            InterfaceAttr::Ssid(value) => {
                ssid = Some(value);
            },
            _ => {},
        }
    }
    assert(all.take(all.len() as int) =~= all);
    match (index, name, phy_index) {
        (Some(index), Some(name), Some(phy_index)) => Some(
            RawInterface {
                name,
                index,
                phy_index,
                mac: match mac {
                    Some(mac) => mac,
                    None => MacAddr::zero(),
                },
                mode: match mode {
                    Some(mode) => mode,
                    None => InterfaceMode::Other(0),
                },
                ssid,
            },
        ),
        _ => None,
    }
}

/// Read the interfaces that a dump describes.
pub fn collect_interfaces(messages: Vec<Vec<InterfaceAttr>>) -> (r: Vec<RawInterface>)
    ensures
        raw_views(r@) == raw_interfaces(interface_messages(messages@)),
{
    let ghost all = interface_messages(messages@);
    let ghost f = |m: Seq<InterfaceAttrView>| raw_interface(m);
    let mut interfaces: Vec<RawInterface> = Vec::new();
    assert(raw_views(interfaces@) =~= all.take(0).filter_map(f));
    for attrs in it: messages
        invariant
            it.seq() == messages@,
            all == interface_messages(messages@),
            f == |m: Seq<InterfaceAttrView>| raw_interface(m),
            raw_views(interfaces@) == all.take(it.index() as int).filter_map(f),
    {
        let ghost n = it.index() as int;
        let ghost before = interfaces@;
        proof {
            assert(all[n] == interface_attrs(attrs@));
            all.lemma_filter_map_take_succ(f, n);
        }
        match read_interface(attrs) {
            Some(raw) => {
                interfaces.push(raw);
                assert(raw_views(interfaces@) =~= raw_views(before) + seq![raw@]);
            },
            None => {
                assert(raw_views(before) + Seq::empty() =~= raw_views(before));
            },
        }
    }
    assert(all.take(all.len() as int) =~= all);
    interfaces
}

/// The frequency that a list of facts describes, if one of them names it.
pub open spec fn frequency_of(info: Seq<FrequencyInfo>) -> Option<Frequency> {
    match last_of(
        info,
        |i: FrequencyInfo|
            match i {
                FrequencyInfo::Freq(mhz) => Some(mhz),
                _ => None,
            },
    ) {
        Some(mhz) => Some(
            Frequency {
                mhz,
                channel: crate::channel::channel_of(mhz as int),
                disabled: info.contains(FrequencyInfo::Disabled),
                radar: info.contains(FrequencyInfo::Radar),
            },
        ),
        None => None,
    }
}

/// The frequencies that one fact about a band lists.
pub open spec fn listed(info: BandInfoView) -> Seq<Frequency> {
    match info {
        BandInfoView::Freqs(freqs) => freqs.filter_map(|f: Seq<FrequencyInfo>| frequency_of(f)),
        BandInfoView::Other => Seq::empty(),
    }
}

/// The frequencies of a fragment of a band, in order.
pub open spec fn frequencies_of(info: Seq<BandInfoView>) -> Seq<Frequency>
    decreases info.len(),
{
    if info.len() == 0 {
        Seq::empty()
    } else {
        frequencies_of(info.drop_last()) + listed(info.last())
    }
}

/// Read the frequency that a list of facts describes.
fn read_frequency(info: &Vec<FrequencyInfo>) -> (r: Option<Frequency>)
    ensures
        r == frequency_of(info@),
{
    let mut mhz: Option<u32> = None;
    let mut disabled = false;
    let mut radar = false;
    let ghost pick = |i: FrequencyInfo|
        match i {
            FrequencyInfo::Freq(mhz) => Some(mhz),
            _ => None::<u32>,
        };
    let mut i: usize = 0;
    while i < info.len()
        invariant
            i <= info.len(),
            pick == |i: FrequencyInfo|
                match i {
                    FrequencyInfo::Freq(mhz) => Some(mhz),
                    _ => None::<u32>,
                },
            mhz == last_of(info@.take(i as int), pick),
            disabled == info@.take(i as int).contains(FrequencyInfo::Disabled),
            radar == info@.take(i as int).contains(FrequencyInfo::Radar),
        decreases info.len() - i,
    {
        proof {
            last_of_step(info@, i as int, pick);
            assert(info@.take(i + 1) =~= info@.take(i as int).push(info@[i as int]));
            contains_push(info@.take(i as int), info@[i as int], FrequencyInfo::Disabled);
            contains_push(info@.take(i as int), info@[i as int], FrequencyInfo::Radar);
        }
        match info[i] {
            FrequencyInfo::Freq(value) => {
                mhz = Some(value);
            },
            FrequencyInfo::Disabled => {
                disabled = true;
            },
            FrequencyInfo::Radar => {
                radar = true;
            },
            FrequencyInfo::Other => {},
        }
        i += 1;
    }
    assert(info@.take(i as int) =~= info@);
    match mhz {
        Some(mhz) => Some(Frequency { mhz, channel: channel_from_mhz(mhz), disabled, radar }),
        None => None,
    }
}

proof fn contains_push<A>(s: Seq<A>, a: A, x: A)
    ensures
        s.push(a).contains(x) <==> s.contains(x) || a == x,
{
    if s.contains(x) {
        let i = choose|i: int| 0 <= i < s.len() && s[i] == x;
        assert(s.push(a)[i] == x);
    }
    if a == x {
        assert(s.push(a)[s.len() as int] == x);
    }
}

/// Pull the frequencies out of a fragment of a band.
pub fn extract_frequencies(band: &RawBand) -> (r: Vec<Frequency>)
    ensures
        r@ == frequencies_of(band@.info),
{
    let ghost info = band@.info;
    let mut frequencies: Vec<Frequency> = Vec::new();
    let mut i: usize = 0;
    while i < band.info.len()
        invariant
            i <= band.info.len(),
            info == band@.info,
            frequencies@ == frequencies_of(info.take(i as int)),
        decreases band.info.len() - i,
    {
        let ghost before = frequencies@;
        assert(info.take(i + 1).drop_last() =~= info.take(i as int));
        assert(info[i as int] == band.info@[i as int]@);
        match &band.info[i] {
            BandInfo::Freqs(freqs) => {
                let ghost lists = freqs@.map_values(|f: Vec<FrequencyInfo>| f@);
                let ghost f = |f: Seq<FrequencyInfo>| frequency_of(f);
                assert(before + lists.take(0).filter_map(f) =~= before);
                let mut j: usize = 0;
                while j < freqs.len()
                    invariant
                        j <= freqs.len(),
                        lists == freqs@.map_values(|f: Vec<FrequencyInfo>| f@),
                        f == |f: Seq<FrequencyInfo>| frequency_of(f),
                        frequencies@ == before + lists.take(j as int).filter_map(f),
                    decreases freqs.len() - j,
                {
                    proof {
                        lists.lemma_filter_map_take_succ(f, j as int);
                        assert(lists[j as int] == freqs@[j as int]@);
                    }
                    if let Some(frequency) = read_frequency(&freqs[j]) {
                        frequencies.push(frequency);
                    }
                    assert(frequencies@ =~= before + lists.take(j + 1).filter_map(f));
                    j += 1;
                }
                assert(lists.take(j as int) =~= lists);
            },
            BandInfo::Other => {
                assert(before + Seq::<Frequency>::empty() =~= before);
            },
        }
        i += 1;
    }
    assert(info.take(i as int) =~= info);
    frequencies
}

/// The bands of a wiphy so far: band numbers in ascending order, each with the
/// frequencies collected for it.
pub type BandsView = Seq<(u16, Seq<Frequency>)>;

/// The bands with one more fragment: its frequencies go behind those that its
/// band already has.
pub open spec fn with_fragment(bands: BandsView, key: u16, more: Seq<Frequency>) -> BandsView
    decreases bands.len(),
{
    if bands.len() == 0 || bands.last().0 < key {
        bands.push((key, more))
    } else if bands.last().0 == key {
        bands.drop_last().push((key, bands.last().1 + more))
    } else {
        with_fragment(bands.drop_last(), key, more).push(bands.last())
    }
}

/// The bands with a list of fragments, in order.
pub open spec fn with_fragments(bands: BandsView, fragments: Seq<RawBandView>) -> BandsView
    decreases fragments.len(),
{
    if fragments.len() == 0 {
        bands
    } else {
        with_fragment(
            with_fragments(bands, fragments.drop_last()),
            fragments.last().kind,
            frequencies_of(fragments.last().info),
        )
    }
}

/// Whether every band stands once, in ascending order.
pub open spec fn ascending(bands: BandsView) -> bool {
    forall|i: int, j: int| 0 <= i < j < bands.len() ==> (#[trigger] bands[i]).0 < (
    #[trigger] bands[j]).0
}

/// The frequencies of one band.
pub open spec fn band_frequencies(bands: BandsView, key: u16) -> Seq<Frequency>
    decreases bands.len(),
{
    if bands.len() == 0 {
        Seq::empty()
    } else if bands.last().0 == key {
        bands.last().1
    } else {
        band_frequencies(bands.drop_last(), key)
    }
}

/// Merging keeps every band once and in order, adds the fragment's frequencies to
/// its own band, and leaves every other band as it was.
pub proof fn merging_keeps_the_bands(
    bands: BandsView,
    key: u16,
    more: Seq<Frequency>,
    other: u16,
)
    requires
        ascending(bands),
    ensures
        ascending(with_fragment(bands, key, more)),
        band_frequencies(with_fragment(bands, key, more), key) == band_frequencies(bands, key)
            + more,
        other != key ==> band_frequencies(with_fragment(bands, key, more), other)
            == band_frequencies(bands, other),
    decreases bands.len(),
{
    let merged = with_fragment(bands, key, more);
    if bands.len() == 0 || bands.last().0 < key {
        assert(merged.drop_last() =~= bands);
        absent_band(bands, key);
        assert(Seq::<Frequency>::empty() + more =~= more);
    } else if bands.last().0 == key {
        assert(merged.drop_last() =~= bands.drop_last());
    } else {
        merging_keeps_the_bands(bands.drop_last(), key, more, other);
        assert(merged.drop_last() =~= with_fragment(bands.drop_last(), key, more));
        keys_below(bands.drop_last(), key, more, bands.last().0);
    }
}

/// A band above all others is not among them.
proof fn absent_band(bands: BandsView, key: u16)
    requires
        ascending(bands),
        bands.len() == 0 || bands.last().0 < key,
    ensures
        band_frequencies(bands, key) == Seq::<Frequency>::empty(),
    decreases bands.len(),
{
    if bands.len() > 0 {
        let front = bands.drop_last();
        if front.len() > 0 {
            assert(front.last() == bands[bands.len() - 2]);
        }
        absent_band(front, key);
    }
}

/// Below a bound, merging a band below it stays below it.
proof fn keys_below(bands: BandsView, key: u16, more: Seq<Frequency>, bound: u16)
    requires
        key < bound,
        forall|i: int| 0 <= i < bands.len() ==> (#[trigger] bands[i]).0 < bound,
    ensures
        forall|i: int|
            0 <= i < with_fragment(bands, key, more).len() ==> (#[trigger] with_fragment(
                bands,
                key,
                more,
            )[i]).0 < bound,
    decreases bands.len(),
{
    let merged = with_fragment(bands, key, more);
    if bands.len() > 0 && bands.last().0 > key {
        keys_below(bands.drop_last(), key, more, bound);
        let front = with_fragment(bands.drop_last(), key, more);
        assert(merged =~= front.push(bands.last()));
        assert forall|i: int| 0 <= i < merged.len() implies (#[trigger] merged[i]).0 < bound by {
            if i < front.len() {
                assert(front[i].0 < bound);
            } else {
                assert(bands[bands.len() - 1].0 < bound);
            }
        }
    } else {
        assert forall|i: int| 0 <= i < merged.len() implies (#[trigger] merged[i]).0 < bound by {
            if i < bands.len() {
                assert(bands[i].0 < bound);
            }
        }
    }
}

/// The capabilities of a wiphy, collected across a split dump.
#[derive(Debug)]
pub struct PhyAccum {
    supported_modes: Vec<InterfaceMode>,
    // Sorted by band number, each number once.
    bands: Vec<(u16, Vec<Frequency>)>,
}

/// The contents of a [`PhyAccum`].
pub struct PhyView {
    /// Supported modes.
    pub supported_modes: Seq<InterfaceMode>,
    /// Bands, by band number.
    pub bands: BandsView,
}

/// A wiphy of which nothing is known.
pub open spec fn unknown_phy() -> PhyView {
    PhyView { supported_modes: Seq::empty(), bands: Seq::empty() }
}

/// Resolved capabilities of a wiphy.
#[derive(Debug)]
pub struct PhyCaps {
    /// Supported modes.
    pub supported_modes: Vec<InterfaceMode>,
    /// Bands with their frequencies.
    pub bands: Vec<Band>,
}

/// The contents of collected bands.
pub open spec fn collected_bands(bands: Seq<(u16, Vec<Frequency>)>) -> BandsView {
    bands.map_values(|b: (u16, Vec<Frequency>)| (b.0, b.1@))
}

/// The bands that collected bands amount to.
pub open spec fn resolved_bands(bands: BandsView) -> Seq<BandView> {
    bands.map_values(
        |b: (u16, Seq<Frequency>)| BandView { kind: band_of(b.0), frequencies: b.1 },
    )
}

impl View for PhyAccum {
    type V = PhyView;

    closed spec fn view(&self) -> PhyView {
        PhyView { supported_modes: self.supported_modes@, bands: collected_bands(self.bands@) }
    }
}

impl PhyAccum {
    /// Nothing collected yet.
    pub fn new() -> (r: PhyAccum)
        ensures
            r@ == unknown_phy(),
    {
        let r = PhyAccum { supported_modes: Vec::new(), bands: Vec::new() };
        assert(collected_bands(r.bands@) =~= Seq::empty());
        assert(r.supported_modes@ =~= Seq::empty());
        r
    }

    /// Replace the list of supported modes.
    pub(crate) fn set_modes(&mut self, modes: Vec<InterfaceMode>)
        ensures
            final(self)@ == (PhyView { supported_modes: modes@, ..old(self)@ }),
    {
        self.supported_modes = modes;
    }

    /// Add a fragment of a band.
    pub fn merge_band(&mut self, band: RawBand)
        ensures
            final(self)@ == (PhyView {
                bands: with_fragment(old(self)@.bands, band@.kind, frequencies_of(band@.info)),
                ..old(self)@
            }),
    {
        let key: u16 = band.kind;
        let mut more = extract_frequencies(&band);
        let ghost view = self@;
        let ghost seen = self.bands@;
        let ghost added = more@;
        let mut p: usize = self.bands.len();
        while p > 0 && self.bands[p - 1].0 > key
            invariant
                p <= self.bands.len(),
                self.bands@ == seen,
                self@ == view,
                forall|j: int| p <= j < seen.len() ==> (#[trigger] seen[j]).0 > key,
            ensures
                p > 0 ==> seen[p - 1].0 <= key,
            decreases p,
        {
            p -= 1;
        }
        let ghost all = collected_bands(seen);
        proof {
            assert forall|j: int| p <= j < all.len() implies (#[trigger] all[j]).0 > key by {
                assert(seen[j].0 > key);
            }
        }
        if p > 0 && self.bands[p - 1].0 == key {
            let mut entry = self.bands.remove(p - 1);
            entry.1.append(&mut more);
            self.bands.insert(p - 1, entry);
            proof {
                fragment_joins(all, key, added, p - 1);
                assert(collected_bands(self.bands@) =~= all.update(
                    p - 1,
                    (key, all[p - 1].1 + added),
                ));
            }
        } else {
            self.bands.insert(p, (key, more));
            proof {
                fragment_is_new(all, key, added, p as int);
                assert(collected_bands(self.bands@) =~= all.insert(p as int, (key, added)));
            }
        }
    }

    /// The capabilities collected.
    pub fn into_caps(self) -> (r: PhyCaps)
        ensures
            r.supported_modes@ == self@.supported_modes,
            crate::interface::band_views(r.bands@) == resolved_bands(self@.bands),
    {
        let ghost all = resolved_bands(self@.bands);
        let ghost seen = self.bands@;
        let mut bands: Vec<Band> = Vec::new();
        for entry in it: self.bands
            invariant
                it.seq() == seen,
                all == resolved_bands(collected_bands(seen)),
                crate::interface::band_views(bands@) == all.take(it.index() as int),
        {
            let ghost before = bands@;
            let ghost n = it.index() as int;
            let band = Band { kind: bandkind_from(entry.0), frequencies: entry.1 };
            bands.push(band);
            assert(crate::interface::band_views(bands@)
                =~= crate::interface::band_views(before).push(band@));
            assert(all.take(n + 1) =~= all.take(n).push(all[n]));
        }
        assert(all.take(all.len() as int) =~= all);
        PhyCaps { supported_modes: self.supported_modes, bands }
    }
}

/// A fragment of a band that is there joins it.
proof fn fragment_joins(bands: BandsView, key: u16, more: Seq<Frequency>, p: int)
    requires
        0 <= p < bands.len(),
        bands[p].0 == key,
        forall|j: int| p < j < bands.len() ==> (#[trigger] bands[j]).0 > key,
    ensures
        with_fragment(bands, key, more) == bands.update(p, (key, bands[p].1 + more)),
    decreases bands.len(),
{
    if p < bands.len() - 1 {
        fragment_joins(bands.drop_last(), key, more, p);
        assert(bands.drop_last().update(p, (key, bands[p].1 + more)).push(bands.last())
            =~= bands.update(p, (key, bands[p].1 + more)));
    } else {
        assert(bands.drop_last().push((key, bands[p].1 + more)) =~= bands.update(
            p,
            (key, bands[p].1 + more),
        ));
    }
}

/// A fragment of a band that is not there yet opens it at its place.
proof fn fragment_is_new(bands: BandsView, key: u16, more: Seq<Frequency>, p: int)
    requires
        0 <= p <= bands.len(),
        p > 0 ==> bands[p - 1].0 < key,
        forall|j: int| p <= j < bands.len() ==> (#[trigger] bands[j]).0 > key,
    ensures
        with_fragment(bands, key, more) == bands.insert(p, (key, more)),
    decreases bands.len(),
{
    if p < bands.len() {
        fragment_is_new(bands.drop_last(), key, more, p);
        assert(bands.drop_last().insert(p, (key, more)).push(bands.last()) =~= bands.insert(
            p,
            (key, more),
        ));
    } else {
        assert(bands.push((key, more)) =~= bands.insert(p, (key, more)));
    }
}

/// The error of a readback that found no interface of the index.
pub open spec fn no_such_index(index: u32) -> ErrorView {
    ErrorView::NotFound {
        name: "if_index "@ + crate::text::decimal(index as nat),
        available: ""@,
    }
}

/// The error of a failed interface dump.
pub open spec fn dump_failed(command: Seq<char>, source: Seq<char>) -> ErrorView {
    ErrorView::Linux(LinuxErrorView::Dump { command, source })
}

/// The error of an nl80211 socket that could not be opened, of the text of the
/// underlying error.
pub fn open_failure(source: String) -> (e: Error)
    ensures
        e@ == ErrorView::Linux(
            LinuxErrorView::NetlinkConnect {
                kind: "nl80211"@,
                phase: "connect"@,
                source: source@,
            },
        ),
{
    Error::Linux(LinuxError::NetlinkConnect { kind: "nl80211", phase: "connect", source })
}

fn no_such_index_error(index: u32) -> (e: Error)
    ensures
        e@ == no_such_index(index),
{
    let mut name = "if_index ".to_owned();
    name.append(decimal_string(index as u64).as_str());
    Error::NotFound { name, available: "".to_owned() }
}

/// The first mode that a message reports.
pub open spec fn mode_reported(attrs: Seq<InterfaceAttrView>) -> Option<InterfaceMode> {
    first_of(attrs, |a: InterfaceAttrView| a.mode())
}

/// The outcome of a mode readback: the first mode in the messages that came in;
/// failing that, the error that ended them; failing that, that there is no such
/// interface.
pub open spec fn mode_readback(
    index: u32,
    messages: Seq<Seq<InterfaceAttrView>>,
    end: Result<(), Seq<char>>,
) -> Result<InterfaceMode, ErrorView> {
    match first_of(messages, |m: Seq<InterfaceAttrView>| mode_reported(m)) {
        Some(mode) => Ok(mode),
        None => match end {
            Ok(u) => Err(no_such_index(index)),
            Err(source) => Err(dump_failed("get_interface"@, source)),
        },
    }
}

/// Read the first mode that a message reports. Once one is found, no later
/// message changes the readback.
pub fn mode_in(attrs: &Vec<InterfaceAttr>) -> (r: Option<InterfaceMode>)
    ensures
        r == mode_reported(interface_attrs(attrs@)),
{
    let ghost all = interface_attrs(attrs@);
    let ghost pick = |a: InterfaceAttrView| a.mode();
    assert(all.skip(0) =~= all);
    let mut i: usize = 0;
    while i < attrs.len()
        invariant
            i <= attrs.len(),
            all == interface_attrs(attrs@),
            pick == |a: InterfaceAttrView| a.mode(),
            first_of(all, pick) == first_of(all.skip(i as int), pick),
        decreases attrs.len() - i,
    {
        assert(all.skip(i as int)[0] == attrs@[i as int]@);
        assert(all.skip(i as int).drop_first() =~= all.skip(i + 1));
        if let InterfaceAttr::IfType(value) = &attrs[i] {
            return Some(mode_from_iftype(*value));
        }
        i += 1;
    }
    None
}

/// The contents of how a stream of messages ended.
pub open spec fn ended(end: Result<(), String>) -> Result<(), Seq<char>> {
    match end {
        Ok(u) => Ok(u),
        Err(source) => Err(source@),
    }
}

/// Read an interface's operating mode out of the reply to a single get.
pub fn read_mode(index: u32, messages: Vec<Vec<InterfaceAttr>>, end: Result<(), String>) -> (r:
    Result<InterfaceMode, Error>)
    ensures
        (match r {
            Ok(mode) => Ok::<InterfaceMode, ErrorView>(mode),
            Err(e) => Err(e@),
        }) == mode_readback(index, interface_messages(messages@), ended(end)),
{
    let ghost all = interface_messages(messages@);
    let ghost pick = |m: Seq<InterfaceAttrView>| mode_reported(m);
    assert(all.skip(0) =~= all);
    let mut i: usize = 0;
    while i < messages.len()
        invariant
            i <= messages.len(),
            all == interface_messages(messages@),
            pick == |m: Seq<InterfaceAttrView>| mode_reported(m),
            first_of(all, pick) == first_of(all.skip(i as int), pick),
        decreases messages.len() - i,
    {
        assert(all.skip(i as int)[0] == interface_attrs(messages@[i as int]@));
        assert(all.skip(i as int).drop_first() =~= all.skip(i + 1));
        if let Some(mode) = mode_in(&messages[i]) {
            return Ok(mode);
        }
        i += 1;
    }
    match end {
        Ok(()) => Err(no_such_index_error(index)),
        Err(source) => Err(Error::Linux(LinuxError::Dump { command: "get_interface", source })),
    }
}

/// What one message adds to a readback of the tuning.
pub open spec fn tuning_updated(t: Tuning, attrs: Seq<InterfaceAttrView>) -> Tuning {
    Tuning {
        freq_mhz: match last_of(attrs, |a: InterfaceAttrView| a.freq()) {
            Some(mhz) => Some(mhz),
            None => t.freq_mhz,
        },
        width_mhz: match last_of(attrs, |a: InterfaceAttrView| a.width()) {
            Some(width) => mhz_of_width(width),
            None => t.width_mhz,
        },
        center_mhz: match last_of(attrs, |a: InterfaceAttrView| a.center()) {
            Some(mhz) => Some(mhz),
            None => t.center_mhz,
        },
    }
}

/// What all messages together say of the tuning: whatever is reported is filled
/// in, and a later report replaces an earlier one.
pub open spec fn tuning_reported(messages: Seq<Seq<InterfaceAttrView>>) -> Tuning
    decreases messages.len(),
{
    if messages.len() == 0 {
        Tuning { freq_mhz: None, width_mhz: None, center_mhz: None }
    } else {
        tuning_updated(tuning_reported(messages.drop_last()), messages.last())
    }
}

/// The outcome of a tuning readback. An interface that exists but is not tuned is
/// no error; that there is no message at all means that it does not exist.
pub open spec fn tuning_readback(
    index: u32,
    reply: Result<Seq<Seq<InterfaceAttrView>>, Seq<char>>,
) -> Result<Tuning, ErrorView> {
    match reply {
        Ok(messages) => if messages.len() == 0 {
            Err(no_such_index(index))
        } else {
            Ok(tuning_reported(messages))
        },
        Err(source) => Err(dump_failed("get_interface"@, source)),
    }
}

/// The contents of the outcome of an interface dump.
pub open spec fn dumped_interfaces(r: Result<Vec<Vec<InterfaceAttr>>, String>) -> Result<
    Seq<Seq<InterfaceAttrView>>,
    Seq<char>,
> {
    match r {
        Ok(messages) => Ok(interface_messages(messages@)),
        Err(source) => Err(source@),
    }
}

/// The contents of the outcome of a tuning readback.
pub open spec fn tuning_result(r: Result<Tuning, Error>) -> Result<Tuning, ErrorView> {
    match r {
        Ok(tuning) => Ok(tuning),
        Err(e) => Err(e@),
    }
}

/// Add what one message says of the tuning.
fn update_tuning(tuning: Tuning, attrs: &Vec<InterfaceAttr>) -> (r: Tuning)
    ensures
        r == tuning_updated(tuning, interface_attrs(attrs@)),
{
    let ghost all = interface_attrs(attrs@);
    let mut state = tuning;
    assert(all.take(0) =~= Seq::empty());
    let mut i: usize = 0;
    while i < attrs.len()
        invariant
            i <= attrs.len(),
            all == interface_attrs(attrs@),
            state == tuning_updated(tuning, all.take(i as int)),
        decreases attrs.len() - i,
    {
        proof {
            assert(all[i as int] == attrs@[i as int]@);
            last_of_step(all, i as int, |a: InterfaceAttrView| a.freq());
            last_of_step(all, i as int, |a: InterfaceAttrView| a.width());
            last_of_step(all, i as int, |a: InterfaceAttrView| a.center());
        }
        match &attrs[i] {
            InterfaceAttr::WiphyFreq(value) => {
                state.freq_mhz = Some(*value);
            },
            InterfaceAttr::ChannelWidth(value) => {
                state.width_mhz = width_mhz(*value);
            },
            InterfaceAttr::CenterFreq1(value) => {
                state.center_mhz = Some(*value);
            },
            _ => {},
        }
        i += 1;
    }
    assert(all.take(i as int) =~= all);
    state
}

/// Read what an interface is tuned to out of the reply to a single get.
pub fn read_channel(index: u32, reply: Result<Vec<Vec<InterfaceAttr>>, String>) -> (r: Result<
    Tuning,
    Error,
>)
    ensures
        tuning_result(r) == tuning_readback(index, dumped_interfaces(reply)),
{
    let messages = match reply {
        Ok(messages) => messages,
        Err(source) => {
            return Err(Error::Linux(LinuxError::Dump { command: "get_interface", source }));
        },
    };
    if messages.len() == 0 {
        return Err(no_such_index_error(index));
    }
    let ghost all = interface_messages(messages@);
    let mut state = Tuning::untuned();
    let mut i: usize = 0;
    while i < messages.len()
        invariant
            i <= messages.len(),
            all == interface_messages(messages@),
            state == tuning_reported(all.take(i as int)),
        decreases messages.len() - i,
    {
        assert(all.take(i + 1).drop_last() =~= all.take(i as int));
        assert(all[i as int] == interface_attrs(messages@[i as int]@));
        state = update_tuning(state, &messages[i]);
        i += 1;
    }
    assert(all.take(i as int) =~= all);
    Ok(state)
}

} // verus!
