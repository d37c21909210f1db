//! Detecting the wireless interfaces of a Linux host.
//!
//! The interface dump is joined with the wiphy dump by wiphy index, and each
//! interface is enriched with the driver and the bus that sysfs links to. The
//! links are advisory: a missing one yields no driver, or an undetermined bus.

use vstd::prelude::*;
use vstd::string::StringExecFns;

use crate::errors::{Error, ErrorView, LinuxError, LinuxErrorView};
use crate::interface::{
    copy_bands, copy_modes, copy_opt, BandView, BusKind, InterfaceInfo, InterfaceMode, InterfaceView,
};
use crate::nl80211::{
    collect_interfaces, mode_from_ifmode, InterfaceAttr, InterfaceAttrView, PhyAccum, PhyCaps,
    PhyView, RawBand, RawBandView, RawInterface, RawInterfaceView, WiphyAttr, WiphyAttrView,
};
use crate::program::{Program, Progress};
use crate::text::{decimal_string, same_text};

verus! {

/// How long a netlink dump may take, in milliseconds. Dumps are local and return
/// at once; this bounds the phase.
pub const DUMP_TIMEOUT_MS: u64 = 5000;

impl WiphyAttrView {
    /// The wiphy index in this attribute.
    pub open spec fn wiphy(self) -> Option<u32> {
        match self {
            WiphyAttrView::Wiphy(v) => Some(v),
            _ => None,
        }
    }

    /// The supported interface types in this attribute.
    pub open spec fn iftypes(self) -> Option<Seq<u16>> {
        match self {
            WiphyAttrView::SupportedIftypes(v) => Some(v),
            _ => None,
        }
    }

    /// The band fragments in this attribute.
    pub open spec fn bands(self) -> Option<Seq<RawBandView>> {
        match self {
            WiphyAttrView::WiphyBands(v) => Some(v),
            _ => None,
        }
    }
}

/// The wiphy a message is about.
pub open spec fn wiphy_of(attrs: Seq<WiphyAttrView>) -> Option<u32> {
    crate::nl80211::last_of(attrs, |a: WiphyAttrView| a.wiphy())
}

/// The modes that a list of interface types stands for.
pub open spec fn modes_of(iftypes: Seq<u16>) -> Seq<InterfaceMode> {
    iftypes.map_values(|v: u16| crate::nl80211::mode_of_iftype(v as u32))
}

/// What a message adds to what is known of its wiphy: a list of modes replaces
/// the one before, band fragments are merged.
pub open spec fn phy_updated(phy: PhyView, attrs: Seq<WiphyAttrView>) -> PhyView {
    PhyView {
        supported_modes: match crate::nl80211::last_of(attrs, |a: WiphyAttrView| a.iftypes()) {
            Some(iftypes) => modes_of(iftypes),
            None => phy.supported_modes,
        },
        bands: match crate::nl80211::last_of(attrs, |a: WiphyAttrView| a.bands()) {
            Some(fragments) => crate::nl80211::with_fragments(phy.bands, fragments),
            None => phy.bands,
        },
    }
}

/// What a dump says of the wiphy `index`, if it says anything.
pub open spec fn phy_reported(messages: Seq<Seq<WiphyAttrView>>, index: u32) -> Option<PhyView>
    decreases messages.len(),
{
    if messages.len() == 0 {
        None
    } else {
        let before = phy_reported(messages.drop_last(), index);
        if wiphy_of(messages.last()) == Some(index) {
            Some(
                phy_updated(
                    match before {
                        Some(phy) => phy,
                        None => crate::nl80211::unknown_phy(),
                    },
                    messages.last(),
                ),
            )
        } else {
            before
        }
    }
}

/// What is known of the wiphy `index`, if anything.
pub open spec fn known_phy(phys: Seq<(u32, PhyAccum)>, index: u32) -> Option<PhyView>
    decreases phys.len(),
{
    if phys.len() == 0 {
        None
    } else if phys.last().0 == index {
        Some(phys.last().1@)
    } else {
        known_phy(phys.drop_last(), index)
    }
}

/// Whether every wiphy stands once.
pub open spec fn distinct(phys: Seq<(u32, PhyAccum)>) -> bool {
    forall|i: int, j: int| 0 <= i < j < phys.len() ==> (#[trigger] phys[i]).0 != (
    #[trigger] phys[j]).0
}

proof fn known_at(phys: Seq<(u32, PhyAccum)>, i: int)
    requires
        distinct(phys),
        0 <= i < phys.len(),
    ensures
        known_phy(phys, phys[i].0) == Some(phys[i].1@),
    decreases phys.len(),
{
    if i < phys.len() - 1 {
        assert(phys[i].0 != phys[phys.len() - 1].0);
        known_at(phys.drop_last(), i);
    }
}

proof fn unknown_nowhere(phys: Seq<(u32, PhyAccum)>, index: u32)
    requires
        forall|i: int| 0 <= i < phys.len() ==> (#[trigger] phys[i]).0 != index,
    ensures
        known_phy(phys, index) is None,
    decreases phys.len(),
{
    if phys.len() > 0 {
        assert(phys[phys.len() - 1].0 != index);
        assert forall|i: int| 0 <= i < phys.len() - 1 implies (#[trigger] phys.drop_last()[i]).0
            != index by {
            assert(phys[i].0 != index);
        }
        unknown_nowhere(phys.drop_last(), index);
    }
}

/// What is known once the entry at `i` is replaced by another of the same wiphy.
proof fn known_after_update(phys: Seq<(u32, PhyAccum)>, i: int, phy: PhyAccum, index: u32)
    requires
        distinct(phys),
        0 <= i < phys.len(),
    ensures
        distinct(phys.update(i, (phys[i].0, phy))),
        known_phy(phys.update(i, (phys[i].0, phy)), index) == if index == phys[i].0 {
            Some(phy@)
        } else {
            known_phy(phys, index)
        },
    decreases phys.len(),
{
    let after = phys.update(i, (phys[i].0, phy));
    assert forall|a: int, b: int| 0 <= a < b < after.len() implies (#[trigger] after[a]).0 != (
    #[trigger] after[b]).0 by {
        assert(phys[a].0 != phys[b].0);
    }
    if index == phys[i].0 {
        known_at(after, i);
        assert(after[i] == (phys[i].0, phy));
    } else if phys.last().0 != index {
        assert(distinct(phys.drop_last()));
        if i < phys.len() - 1 {
            known_after_update(phys.drop_last(), i, phy, index);
            assert(after.drop_last() =~= phys.drop_last().update(i, (phys[i].0, phy)));
        } else {
            assert(after.drop_last() =~= phys.drop_last());
        }
    }
}

/// Where a wiphy stands, if it does.
fn position_of(phys: &Vec<(u32, PhyAccum)>, index: u32) -> (r: Option<usize>)
    ensures
        match r {
            Some(i) => i < phys.len() && phys@[i as int].0 == index,
            None => forall|i: int| 0 <= i < phys.len() ==> (#[trigger] phys@[i]).0 != index,
        },
{
    let mut i: usize = 0;
    while i < phys.len()
        invariant
            i <= phys.len(),
            forall|j: int| 0 <= j < i ==> (#[trigger] phys@[j]).0 != index,
        decreases phys.len() - i,
    {
        if phys[i].0 == index {
            return Some(i);
        }
        i += 1;
    }
    None
}

/// The contents of a list of band fragments.
pub open spec fn band_fragments(bands: Seq<RawBand>) -> Seq<RawBandView> {
    bands.map_values(|b: RawBand| b@)
}

/// The modes that a list of interface types stands for.
fn read_modes(iftypes: Vec<u16>) -> (r: Vec<InterfaceMode>)
    ensures
        r@ == modes_of(iftypes@),
{
    let mut modes: Vec<InterfaceMode> = Vec::new();
    let mut i: usize = 0;
    while i < iftypes.len()
        invariant
            i <= iftypes.len(),
            modes@ == modes_of(iftypes@).take(i as int),
        decreases iftypes.len() - i,
    {
        modes.push(mode_from_ifmode(iftypes[i]));
        assert(modes@ =~= modes_of(iftypes@).take(i + 1));
        i += 1;
    }
    assert(modes@ =~= modes_of(iftypes@));
    modes
}

/// What a message says: the wiphy it is about, its interface types, and its band
/// fragments.
fn read_wiphy(attrs: Vec<WiphyAttr>) -> (r: (Option<u32>, Option<Vec<u16>>, Option<Vec<RawBand>>))
    ensures
        ({
            let all = crate::nl80211::wiphy_attrs(attrs@);
            &&& r.0 == wiphy_of(all)
            &&& (match r.1 {
                Some(v) => Some(v@),
                None => None,
            }) == crate::nl80211::last_of(all, |a: WiphyAttrView| a.iftypes())
            &&& (match r.2 {
                Some(v) => Some(band_fragments(v@)),
                None => None,
            }) == crate::nl80211::last_of(all, |a: WiphyAttrView| a.bands())
        }),
{
    let ghost all = crate::nl80211::wiphy_attrs(attrs@);
    let mut index: Option<u32> = None;
    let mut modes: Option<Vec<u16>> = None;
    let mut bands: Option<Vec<RawBand>> = None;
    for attr in it: attrs
        invariant
            it.seq() == attrs@,
            all == crate::nl80211::wiphy_attrs(attrs@),
            index == crate::nl80211::last_of(
                all.take(it.index() as int),
                |a: WiphyAttrView| a.wiphy(),
            ),
            (match modes {
                Some(v) => Some(v@),
                None => None,
            }) == crate::nl80211::last_of(
                all.take(it.index() as int),
                |a: WiphyAttrView| a.iftypes(),
            ),
            (match bands {
                Some(v) => Some(band_fragments(v@)),
                None => None,
            }) == crate::nl80211::last_of(
                all.take(it.index() as int),
                |a: WiphyAttrView| a.bands(),
            ),
    {
        proof {
            let n = it.index() as int;
            assert(all[n] == attr@);
            crate::nl80211::last_of_step(all, n, |a: WiphyAttrView| a.wiphy());
            crate::nl80211::last_of_step(all, n, |a: WiphyAttrView| a.iftypes());
            crate::nl80211::last_of_step(all, n, |a: WiphyAttrView| a.bands());
        }
        match attr {
            WiphyAttr::Wiphy(value) => {
                index = Some(value);
            },
            WiphyAttr::SupportedIftypes(value) => {
                modes = Some(value);
            },
            WiphyAttr::WiphyBands(value) => {
                bands = Some(value);
            },
            WiphyAttr::Other => {},
        }
    }
    assert(all.take(all.len() as int) =~= all);
    (index, modes, bands)
}

impl PhyAccum {
    /// Add what a message says of this wiphy.
    fn update(&mut self, modes: Option<Vec<u16>>, bands: Option<Vec<RawBand>>)
        ensures
            final(self)@ == (PhyView {
                supported_modes: match modes {
                    Some(iftypes) => modes_of(iftypes@),
                    None => old(self)@.supported_modes,
                },
                bands: match bands {
                    Some(fragments) => crate::nl80211::with_fragments(
                        old(self)@.bands,
                        band_fragments(fragments@),
                    ),
                    None => old(self)@.bands,
                },
            }),
    {
        if let Some(iftypes) = modes {
            self.set_modes(read_modes(iftypes));
        }
        let ghost start = self@;
        if let Some(fragments) = bands {
            let ghost all = band_fragments(fragments@);
            assert(all.take(0) =~= Seq::empty());
            for fragment in it: fragments
                invariant
                    it.seq() == fragments@,
                    all == band_fragments(fragments@),
                    self@ == (PhyView {
                        bands: crate::nl80211::with_fragments(
                            start.bands,
                            all.take(it.index() as int),
                        ),
                        ..start
                    }),
            {
                proof {
                    let n = it.index() as int;
                    assert(all[n] == fragment@);
                    assert(all.take(n + 1).drop_last() =~= all.take(n));
                }
                self.merge_band(fragment);
            }
            assert(all.take(all.len() as int) =~= all);
        }
    }
}

/// Collect a split wiphy dump: one entry per wiphy that it speaks of.
pub fn collect_phys(messages: Vec<Vec<WiphyAttr>>) -> (r: Vec<(u32, PhyAccum)>)
    ensures
        distinct(r@),
        forall|index: u32| #[trigger]
            known_phy(r@, index) == phy_reported(
                crate::nl80211::wiphy_messages(messages@),
                index,
            ),
{
    let ghost all = crate::nl80211::wiphy_messages(messages@);
    let mut phys: Vec<(u32, PhyAccum)> = Vec::new();
    for attrs in it: messages
        invariant
            it.seq() == messages@,
            all == crate::nl80211::wiphy_messages(messages@),
            distinct(phys@),
            forall|index: u32| #[trigger]
                known_phy(phys@, index) == phy_reported(all.take(it.index() as int), index),
    {
        let ghost n = it.index() as int;
        let ghost message = all[n];
        let ghost before = phys@;
        proof {
            assert(message == crate::nl80211::wiphy_attrs(attrs@));
            assert(all.take(n + 1).drop_last() =~= all.take(n));
        }
        let (index, modes, bands) = read_wiphy(attrs);
        if let Some(index) = index {
            match position_of(&phys, index) {
                Some(i) => {
                    let mut entry = phys.remove(i);
                    entry.1.update(modes, bands);
                    proof {
                        known_at(before, i as int);
                        assert(entry.1@ == phy_updated(before[i as int].1@, message));
                    }
                    let ghost phy = entry.1;
                    phys.insert(i, entry);
                    proof {
                        assert(phys@ =~= before.update(i as int, (before[i as int].0, phy)));
                        assert forall|k: u32| #[trigger]
                            known_phy(phys@, k) == phy_reported(all.take(n + 1), k) by {
                            known_after_update(before, i as int, phy, k);
                            assert(known_phy(before, k) == phy_reported(all.take(n), k));
                        }
                        known_after_update(before, i as int, phy, index);
                    }
                },
                None => {
                    let mut phy = PhyAccum::new();
                    phy.update(modes, bands);
                    proof {
                        unknown_nowhere(before, index);
                        assert(phy@ == phy_updated(crate::nl80211::unknown_phy(), message));
                    }
                    phys.push((index, phy));
                    proof {
                        assert(phys@.drop_last() =~= before);
                        assert forall|k: u32| #[trigger]
                            known_phy(phys@, k) == phy_reported(all.take(n + 1), k) by {
                            assert(known_phy(before, k) == phy_reported(all.take(n), k));
                        }
                    }
                },
            }
        } else {
            proof {
                assert forall|k: u32| #[trigger]
                    known_phy(phys@, k) == phy_reported(all.take(n + 1), k) by {
                    assert(known_phy(before, k) == phy_reported(all.take(n), k));
                }
            }
        }
    }
    assert(all.take(all.len() as int) =~= all);
    phys
}

/// What the sysfs links of a wiphy's device point to.
#[derive(Debug)]
pub struct DeviceLinks {
    /// Name of the driver, if the link could be read.
    pub driver: Option<String>,
    /// Name of the subsystem, if the link could be read.
    pub subsystem: Option<String>,
}

/// The contents of [`DeviceLinks`].
pub struct LinksView {
    /// Name of the driver.
    pub driver: Option<Seq<char>>,
    /// Name of the subsystem.
    pub subsystem: Option<Seq<char>>,
}

impl View for DeviceLinks {
    type V = LinksView;

    open spec fn view(&self) -> LinksView {
        LinksView {
            driver: crate::interface::opt_text(self.driver),
            subsystem: crate::interface::opt_text(self.subsystem),
        }
    }
}

/// The sysfs directory of a wiphy's device.
pub open spec fn device_directory(phy_index: u32) -> Seq<char> {
    "/sys/class/ieee80211/phy"@ + crate::text::decimal(phy_index as nat) + "/device"@
}

fn device_path(phy_index: u32) -> (r: String)
    ensures
        r@ == device_directory(phy_index),
{
    let mut path = "/sys/class/ieee80211/phy".to_owned();
    path.append(decimal_string(phy_index as u64).as_str());
    path.append("/device");
    path
}

/// The sysfs link that names the driver bound to a wiphy's device.
pub fn driver_link(phy_index: u32) -> (r: String)
    ensures
        r@ == device_directory(phy_index) + "/driver"@,
{
    let mut path = device_path(phy_index);
    path.append("/driver");
    path
}

/// The sysfs link that names the bus a wiphy's device sits on.
pub fn subsystem_link(phy_index: u32) -> (r: String)
    ensures
        r@ == device_directory(phy_index) + "/subsystem"@,
{
    let mut path = device_path(phy_index);
    path.append("/subsystem");
    path
}

/// The bus that a subsystem link stands for.
pub open spec fn bus_of(subsystem: Option<Seq<char>>) -> BusKind {
    if subsystem == Some("usb"@) {
        BusKind::Usb
    } else if subsystem == Some("pci"@) {
        BusKind::Pci
    } else {
        BusKind::Other
    }
}

/// The bus that a subsystem link stands for.
pub fn bus_from(subsystem: &Option<String>) -> (r: BusKind)
    ensures
        r == bus_of(crate::interface::opt_text(*subsystem)),
{
    proof {
        reveal_strlit("usb");
        reveal_strlit("pci");
        assert("usb"@[0] != "pci"@[0]);
    }
    match subsystem {
        Some(name) => if same_text(name.as_str(), "usb") {
            BusKind::Usb
        } else if same_text(name.as_str(), "pci") {
            BusKind::Pci
        } else {
            BusKind::Other
        },
        None => BusKind::Other,
    }
}

/// The contents of a [`PhyCaps`].
pub struct CapsView {
    /// Supported modes.
    pub supported_modes: Seq<InterfaceMode>,
    /// Bands.
    pub bands: Seq<BandView>,
}

impl View for PhyCaps {
    type V = CapsView;

    open spec fn view(&self) -> CapsView {
        CapsView {
            supported_modes: self.supported_modes@,
            bands: crate::interface::band_views(self.bands@),
        }
    }
}

/// The capabilities of the wiphy `index`; none where there is no such wiphy. Of
/// two entries for one wiphy, the later counts.
pub open spec fn caps_of(caps: Seq<(u32, PhyCaps)>, index: u32) -> CapsView
    decreases caps.len(),
{
    if caps.len() == 0 {
        CapsView { supported_modes: Seq::empty(), bands: Seq::empty() }
    } else if caps.last().0 == index {
        caps.last().1@
    } else {
        caps_of(caps.drop_last(), index)
    }
}

/// The capabilities that what is known of a wiphy amounts to.
pub open spec fn caps_known(phy: Option<PhyView>) -> CapsView {
    match phy {
        Some(phy) => CapsView {
            supported_modes: phy.supported_modes,
            bands: crate::nl80211::resolved_bands(phy.bands),
        },
        None => CapsView { supported_modes: Seq::empty(), bands: Seq::empty() },
    }
}

/// The capabilities that a dump gives the wiphy `index`.
pub open spec fn caps_reported(messages: Seq<Seq<WiphyAttrView>>, index: u32) -> CapsView {
    caps_known(phy_reported(messages, index))
}

/// An interface joined with its wiphy's capabilities and its device's links.
pub open spec fn joined_interface(
    raw: RawInterfaceView,
    caps: CapsView,
    links: LinksView,
) -> InterfaceView {
    InterfaceView {
        name: raw.name,
        index: raw.index,
        phy_index: raw.phy_index,
        mac: raw.mac,
        mode: raw.mode,
        supported_modes: caps.supported_modes,
        bands: caps.bands,
        driver: links.driver,
        bus: bus_of(links.subsystem),
        ssid: raw.ssid,
    }
}

/// The contents of a list of links.
pub open spec fn link_views(links: Seq<DeviceLinks>) -> Seq<LinksView> {
    links.map_values(|l: DeviceLinks| l@)
}

/// The links at `i`, or none where the list is shorter.
pub open spec fn links_at(links: Seq<LinksView>, i: int) -> LinksView {
    if 0 <= i < links.len() {
        links[i]
    } else {
        LinksView { driver: None, subsystem: None }
    }
}

/// Resolve what was collected of every wiphy.
fn resolve_caps(phys: Vec<(u32, PhyAccum)>) -> (r: Vec<(u32, PhyCaps)>)
    ensures
        forall|index: u32| #[trigger]
            caps_of(r@, index) == caps_known(known_phy(phys@, index)),
{
    let mut caps: Vec<(u32, PhyCaps)> = Vec::new();
    for entry in it: phys
        invariant
            it.seq() == phys@,
            forall|index: u32| #[trigger]
                caps_of(caps@, index) == caps_known(
                    known_phy(phys@.take(it.index() as int), index),
                ),
    {
        let ghost before = caps@;
        let ghost n = it.index() as int;
        let (index, phy) = entry;
        let ghost view = phy@;
        let resolved = phy.into_caps();
        caps.push((index, resolved));
        proof {
            assert(resolved@ == caps_known(Some(view)));
            assert(caps@.drop_last() =~= before);
            assert(phys@.take(n + 1).drop_last() =~= phys@.take(n));
            assert forall|k: u32| #[trigger]
                caps_of(caps@, k) == caps_known(known_phy(phys@.take(n + 1), k)) by {
                assert(caps_of(before, k) == caps_known(known_phy(phys@.take(n), k)));
            }
        }
    }
    assert(phys@.take(phys@.len() as int) =~= phys@);
    caps
}

/// The capabilities of the wiphy `index`, copied: several interfaces may share one
/// wiphy.
fn caps_for(caps: &Vec<(u32, PhyCaps)>, index: u32) -> (r: PhyCaps)
    ensures
        r@ == caps_of(caps@, index),
{
    let mut i: usize = caps.len();
    assert(caps@.take(i as int) =~= caps@);
    while i > 0
        invariant
            i <= caps.len(),
            caps_of(caps@, index) == caps_of(caps@.take(i as int), index),
        decreases i,
    {
        i -= 1;
        assert(caps@.take(i + 1).drop_last() =~= caps@.take(i as int));
        if caps[i].0 == index {
            return PhyCaps {
                supported_modes: copy_modes(&caps[i].1.supported_modes),
                bands: copy_bands(&caps[i].1.bands),
            };
        }
    }
    let r = PhyCaps { supported_modes: Vec::new(), bands: Vec::new() };
    assert(r.supported_modes@ =~= Seq::empty());
    assert(crate::interface::band_views(r.bands@) =~= Seq::empty());
    r
}

/// Join raw interfaces with their wiphys' capabilities and their devices' links,
/// of which there is one entry per interface.
pub fn assemble(
    raw: Vec<RawInterface>,
    caps: &Vec<(u32, PhyCaps)>,
    links: &Vec<DeviceLinks>,
) -> (r: Vec<InterfaceInfo>)
    ensures
        crate::interface::interface_views(r@) == Seq::new(
            raw@.len(),
            |i: int|
                joined_interface(
                    raw@[i]@,
                    caps_of(caps@, raw@[i].phy_index),
                    links_at(link_views(links@), i),
                ),
        ),
{
    let ghost all = Seq::new(
        raw@.len(),
        |i: int|
            joined_interface(
                raw@[i]@,
                caps_of(caps@, raw@[i].phy_index),
                links_at(link_views(links@), i),
            ),
    );
    let mut interfaces: Vec<InterfaceInfo> = Vec::new();
    assert(crate::interface::interface_views(interfaces@) =~= all.take(0));
    for iface in it: raw
        invariant
            it.seq() == raw@,
            all == Seq::new(
                raw@.len(),
                |i: int|
                    joined_interface(
                        raw@[i]@,
                        caps_of(caps@, raw@[i].phy_index),
                        links_at(link_views(links@), i),
                    ),
            ),
            interfaces.len() == it.index(),
            crate::interface::interface_views(interfaces@) == all.take(it.index() as int),
    {
        let ghost n = it.index() as int;
        let ghost before = interfaces@;
        let i: usize = interfaces.len();
        let PhyCaps { supported_modes, bands } = caps_for(caps, iface.phy_index);
        let (driver, bus) = if i < links.len() {
            assert(link_views(links@)[n] == links@[n]@);
            (copy_opt(&links[i].driver), bus_from(&links[i].subsystem))
        } else {
            (None, BusKind::Other)
        };
        let joined = InterfaceInfo {
            name: iface.name,
            index: iface.index,
            phy_index: iface.phy_index,
            mac: iface.mac,
            mode: iface.mode,
            supported_modes,
            bands,
            driver,
            bus,
            ssid: iface.ssid,
        };
        interfaces.push(joined);
        assert(joined@ == all[n]);
        assert(crate::interface::interface_views(interfaces@)
            =~= crate::interface::interface_views(before).push(joined@));
        assert(all.take(n + 1) =~= all.take(n).push(all[n]));
    }
    assert(all.take(all.len() as int) =~= all);
    interfaces
}

/// One step of a detection.
#[derive(Debug)]
pub enum DetectOp {
    /// Open an nl80211 socket.
    Open,
    /// Dump the interfaces.
    DumpInterfaces,
    /// Dump the wiphys.
    DumpWiphys,
    /// Read the links of a wiphy's device.
    ReadLinks {
        /// The wiphy.
        phy_index: u32,
    },
}

/// The outcome of a [`DetectOp`]. A dump that did not end in time is `None`; an
/// error from outside comes as its text.
#[derive(Debug)]
pub enum DetectReply {
    /// Whether the socket was opened.
    Opened(Result<(), String>),
    /// The interface messages.
    Interfaces(Option<Result<Vec<Vec<InterfaceAttr>>, String>>),
    /// The wiphy messages.
    Wiphys(Option<Result<Vec<Vec<WiphyAttr>>, String>>),
    /// The links.
    Links(DeviceLinks),
}

/// The contents of a [`DetectReply`].
pub enum DetectReplyView {
    /// Whether the socket was opened.
    Opened(Result<(), Seq<char>>),
    /// The interface messages.
    Interfaces(Option<Result<Seq<Seq<InterfaceAttrView>>, Seq<char>>>),
    /// The wiphy messages.
    Wiphys(Option<Result<Seq<Seq<WiphyAttrView>>, Seq<char>>>),
    /// The links.
    Links(LinksView),
}

/// A conversation in which interfaces are detected.
pub type DetectProgram<T> = Program<DetectOp, DetectReplyView, T>;

impl View for DetectReply {
    type V = DetectReplyView;

    open spec fn view(&self) -> DetectReplyView {
        match self {
            DetectReply::Opened(r) => DetectReplyView::Opened(crate::nl80211::ended(*r)),
            DetectReply::Interfaces(r) => DetectReplyView::Interfaces(
                match r {
                    Some(dump) => Some(crate::nl80211::dumped_interfaces(*dump)),
                    None => None,
                },
            ),
            DetectReply::Wiphys(r) => DetectReplyView::Wiphys(
                match r {
                    Some(Ok(messages)) => Some(
                        Ok(crate::nl80211::wiphy_messages(messages@)),
                    ),
                    Some(Err(source)) => Some(Err(source@)),
                    None => None,
                },
            ),
            DetectReply::Links(links) => DetectReplyView::Links(links@),
        }
    }
}

impl DetectOp {
    /// Whether a reply is of the kind that this step has.
    pub open spec fn answered_by(self, reply: DetectReplyView) -> bool {
        match self {
            DetectOp::Open => reply is Opened,
            DetectOp::DumpInterfaces => reply is Interfaces,
            DetectOp::DumpWiphys => reply is Wiphys,
            DetectOp::ReadLinks { phy_index } => reply is Links,
        }
    }

    /// Whether a reply is of the kind that this step has.
    pub fn is_answered_by(&self, reply: &DetectReply) -> (r: bool)
        ensures
            r == self.answered_by(reply@),
    {
        match (self, reply) {
            (DetectOp::Open, DetectReply::Opened(_)) => true,
            (DetectOp::DumpInterfaces, DetectReply::Interfaces(_)) => true,
            (DetectOp::DumpWiphys, DetectReply::Wiphys(_)) => true,
            (DetectOp::ReadLinks { .. }, DetectReply::Links(_)) => true,
            _ => false,
        }
    }
}

/// The error of a dump that did not end in time.
pub open spec fn dump_timed_out(command: Seq<char>) -> ErrorView {
    ErrorView::Linux(LinuxErrorView::Timeout { command, timeout_ms: DUMP_TIMEOUT_MS })
}

/// Detecting every wireless interface.
pub open spec fn detect_program() -> DetectProgram<Result<Seq<InterfaceView>, ErrorView>> {
    Program::Ask(
        DetectOp::Open,
        |r: DetectReplyView|
            match r->Opened_0 {
                Ok(u) => dump_interfaces(),
                Err(source) => Program::Return(
                    Err(
                        ErrorView::Linux(
                            LinuxErrorView::NetlinkConnect {
                                kind: "nl80211"@,
                                phase: "connect"@,
                                source,
                            },
                        ),
                    ),
                ),
            },
    )
}

/// The interface dump, and what follows.
pub open spec fn dump_interfaces() -> DetectProgram<Result<Seq<InterfaceView>, ErrorView>> {
    Program::Ask(
        DetectOp::DumpInterfaces,
        |r: DetectReplyView|
            match r->Interfaces_0 {
                Some(Ok(messages)) => dump_wiphys(crate::nl80211::raw_interfaces(messages)),
                Some(Err(source)) => Program::Return(
                    Err(crate::nl80211::dump_failed("get_interface"@, source)),
                ),
                None => Program::Return(Err(dump_timed_out("get_interface"@))),
            },
    )
}

/// The wiphy dump, and what follows.
pub open spec fn dump_wiphys(raw: Seq<RawInterfaceView>) -> DetectProgram<
    Result<Seq<InterfaceView>, ErrorView>,
> {
    Program::Ask(
        DetectOp::DumpWiphys,
        |r: DetectReplyView|
            match r->Wiphys_0 {
                Some(Ok(messages)) => read_links(
                    raw,
                    |index: u32| caps_reported(messages, index),
                    Seq::empty(),
                ),
                Some(Err(source)) => Program::Return(
                    Err(crate::nl80211::dump_failed("get_wiphy"@, source)),
                ),
                None => Program::Return(Err(dump_timed_out("get_wiphy"@))),
            },
    )
}

/// Read the links of every interface's device in order, then join.
pub open spec fn read_links(
    raw: Seq<RawInterfaceView>,
    caps: spec_fn(u32) -> CapsView,
    links: Seq<LinksView>,
) -> DetectProgram<Result<Seq<InterfaceView>, ErrorView>>
    decreases raw.len() - links.len(),
{
    if links.len() >= raw.len() {
        Program::Return(
            Ok(
                Seq::new(
                    raw.len(),
                    |i: int|
                        joined_interface(raw[i], caps(raw[i].phy_index), links_at(links, i)),
                ),
            ),
        )
    } else {
        Program::Ask(
            DetectOp::ReadLinks { phy_index: raw[links.len() as int].phy_index },
            |r: DetectReplyView| read_links(raw, caps, links.push(r->Links_0)),
        )
    }
}

/// How far a detection has come.
#[derive(Debug)]
enum DetectStage {
    Opening,
    DumpingInterfaces,
    DumpingWiphys(Vec<RawInterface>),
    ReadingLinks {
        phy_index: u32,
        raw: Vec<RawInterface>,
        caps: Vec<(u32, PhyCaps)>,
        links: Vec<DeviceLinks>,
    },
}

/// The conversation that detects every wireless interface.
#[derive(Debug)]
pub struct Detect {
    stage: DetectStage,
}

impl Detect {
    /// The wiphy whose links are being read is that of the next interface.
    #[verifier::type_invariant]
    spec fn reads_the_next(self) -> bool {
        match self.stage {
            DetectStage::ReadingLinks { phy_index, raw, caps, links } => links.len() < raw.len()
                && raw@[links@.len() as int].phy_index == phy_index,
            _ => true,
        }
    }

    /// What remains of the conversation.
    pub closed spec fn program(self) -> DetectProgram<Result<Seq<InterfaceView>, ErrorView>> {
        match self.stage {
            DetectStage::Opening => detect_program(),
            DetectStage::DumpingInterfaces => dump_interfaces(),
            DetectStage::DumpingWiphys(raw) => dump_wiphys(crate::nl80211::raw_views(raw@)),
            DetectStage::ReadingLinks { phy_index, raw, caps, links } => read_links(
                crate::nl80211::raw_views(raw@),
                |index: u32| caps_of(caps@, index),
                link_views(links@),
            ),
        }
    }

    /// What remains after a step.
    pub open spec fn remaining(
        p: Progress<Detect, Result<Vec<InterfaceInfo>, Error>>,
    ) -> DetectProgram<Result<Seq<InterfaceView>, ErrorView>> {
        match p {
            Progress::Pending(m) => m.program(),
            Progress::Finished(r) => Program::Return(crate::select::interfaces_result(r)),
        }
    }

    /// Start detecting.
    pub fn start() -> (m: Detect)
        ensures
            m.program() == detect_program(),
    {
        Detect { stage: DetectStage::Opening }
    }

    /// Go on with the next interface's links, or join.
    fn reading(
        raw: Vec<RawInterface>,
        caps: Vec<(u32, PhyCaps)>,
        links: Vec<DeviceLinks>,
    ) -> (p: Progress<Detect, Result<Vec<InterfaceInfo>, Error>>)
        ensures
            Self::remaining(p) == read_links(
                crate::nl80211::raw_views(raw@),
                |index: u32| caps_of(caps@, index),
                link_views(links@),
            ),
    {
        if links.len() < raw.len() {
            let phy_index: u32 = raw[links.len()].phy_index;
            Progress::Pending(
                Detect { stage: DetectStage::ReadingLinks { phy_index, raw, caps, links } },
            )
        } else {
            let ghost views = crate::nl80211::raw_views(raw@);
            let r = assemble(raw, &caps, &links);
            proof {
                let f = |index: u32| caps_of(caps@, index);
                assert(crate::interface::interface_views(r@) =~= Seq::new(
                    views.len(),
                    |i: int|
                        joined_interface(
                            views[i],
                            f(views[i].phy_index),
                            links_at(link_views(links@), i),
                        ),
                ));
            }
            Progress::Finished(Ok(r))
        }
    }

    /// The operation whose outcome is awaited.
    pub fn request(&self) -> (op: DetectOp)
        ensures
            self.program() is Ask,
            op == self.program()->Ask_0,
    {
        proof {
            use_type_invariant(self);
        }
        match &self.stage {
            DetectStage::Opening => DetectOp::Open,
            DetectStage::DumpingInterfaces => DetectOp::DumpInterfaces,
            DetectStage::DumpingWiphys(raw) => DetectOp::DumpWiphys,
            DetectStage::ReadingLinks { phy_index, raw, caps, links } => {
                assert(crate::nl80211::raw_views(raw@)[links@.len() as int]
                    == raw@[links@.len() as int]@);
                DetectOp::ReadLinks { phy_index: *phy_index }
            },
        }
    }

    /// Go on with the outcome of the requested operation.
    pub fn resume(self, reply: DetectReply) -> (p: Progress<
        Self,
        Result<Vec<InterfaceInfo>, Error>,
    >)
        requires
            self.program()->Ask_0.answered_by(reply@),
        ensures
            Self::remaining(p) == (self.program()->Ask_1)(reply@),
    {
        proof {
            use_type_invariant(&self);
        }
        let error = match self.stage {
            DetectStage::Opening => match reply {
                DetectReply::Opened(Err(source)) => LinuxError::NetlinkConnect {
                    kind: "nl80211",
                    phase: "connect",
                    source,
                },
                _ => {
                    return Progress::Pending(Detect { stage: DetectStage::DumpingInterfaces });
                },
            },
            DetectStage::DumpingInterfaces => match reply {
                DetectReply::Interfaces(Some(Ok(messages))) => {
                    return Progress::Pending(
                        Detect { stage: DetectStage::DumpingWiphys(collect_interfaces(messages)) },
                    );
                },
                DetectReply::Interfaces(Some(Err(source))) => LinuxError::Dump {
                    command: "get_interface",
                    source,
                },
                _ => LinuxError::Timeout {
                    command: "get_interface",
                    timeout_ms: DUMP_TIMEOUT_MS,
                },
            },
            DetectStage::DumpingWiphys(raw) => match reply {
                DetectReply::Wiphys(Some(Ok(messages))) => {
                    let ghost dump = crate::nl80211::wiphy_messages(messages@);
                    let caps = resolve_caps(collect_phys(messages));
                    proof {
                        let f = |index: u32| caps_of(caps@, index);
                        let g = |index: u32| caps_reported(dump, index);
                        assert(f =~= g);
                    }
                    let links: Vec<DeviceLinks> = Vec::new();
                    assert(link_views(links@) =~= Seq::empty());
                    return Self::reading(raw, caps, links);
                },
                DetectReply::Wiphys(Some(Err(source))) => LinuxError::Dump {
                    command: "get_wiphy",
                    source,
                },
                _ => LinuxError::Timeout { command: "get_wiphy", timeout_ms: DUMP_TIMEOUT_MS },
            },
            DetectStage::ReadingLinks { phy_index, raw, caps, links } => {
                let ghost before = link_views(links@);
                let mut links = links;
                match reply {
                    DetectReply::Links(more) => {
                        links.push(more);
                        assert(link_views(links@) =~= before.push(more@));
                    },
                    _ => {},
                }
                return Self::reading(raw, caps, links);
            },
        };
        Progress::Finished(Err(Error::Linux(error)))
    }
}

} // verus!
