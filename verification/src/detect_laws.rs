//! What holds of every detection, whatever the kernel reports.

use vstd::prelude::*;

use crate::detect::{CapsView, DetectReplyView, LinksView};
use crate::errors::ErrorView;
use crate::interface::{BandView, Frequency, InterfaceView};
use crate::nl80211::{
    BandInfoView, BandsView, FrequencyInfo, PhyView, RawBandView, RawInterfaceView, WiphyAttrView,
};

verus! {

/// Whether every frequency stands under the channel number that it maps to.
pub open spec fn numbered(frequencies: Seq<Frequency>) -> bool {
    forall|f: int|
        0 <= f < frequencies.len() ==> (#[trigger] frequencies[f]).channel
            == crate::channel::channel_of(frequencies[f].mhz as int)
}

/// Whether collected bands stand once each, in ascending order, and hold only
/// frequencies under their own channel numbers.
pub open spec fn well_collected(bands: BandsView) -> bool {
    &&& crate::nl80211::ascending(bands)
    &&& forall|b: int| 0 <= b < bands.len() ==> numbered((#[trigger] bands[b]).1)
}

/// Whether the bands of a device are of different kinds, and hold only frequencies
/// under their own channel numbers.
pub open spec fn well_banded(bands: Seq<BandView>) -> bool {
    &&& forall|a: int, b: int|
        0 <= a < b < bands.len() ==> (#[trigger] bands[a]).kind != (#[trigger] bands[b]).kind
    &&& forall|b: int| 0 <= b < bands.len() ==> numbered((#[trigger] bands[b]).frequencies)
}

proof fn joined_lists_are_numbered(a: Seq<Frequency>, b: Seq<Frequency>)
    requires
        numbered(a),
        numbered(b),
    ensures
        numbered(a + b),
{
    assert forall|f: int| 0 <= f < (a + b).len() implies (#[trigger] (a + b)[f]).channel
        == crate::channel::channel_of((a + b)[f].mhz as int) by {
        if f < a.len() {
            assert((a + b)[f] == a[f]);
        } else {
            assert((a + b)[f] == b[f - a.len()]);
        }
    }
}

proof fn fragments_are_numbered(info: Seq<BandInfoView>)
    ensures
        numbered(crate::nl80211::frequencies_of(info)),
    decreases info.len(),
{
    if info.len() > 0 {
        fragments_are_numbered(info.drop_last());
        if let BandInfoView::Freqs(freqs) = info.last() {
            let pick = |f: Seq<FrequencyInfo>| crate::nl80211::frequency_of(f);
            let listed = freqs.filter_map(pick);
            assert forall|f: int| 0 <= f < listed.len() implies (#[trigger] listed[f]).channel
                == crate::channel::channel_of(listed[f].mhz as int) by {
                assert(listed.contains(listed[f]));
                freqs.lemma_filter_map_contains(pick, listed[f]);
            }
        }
        joined_lists_are_numbered(
            crate::nl80211::frequencies_of(info.drop_last()),
            crate::nl80211::listed(info.last()),
        );
    }
}

proof fn merging_collects_well(bands: BandsView, key: u16, more: Seq<Frequency>)
    requires
        well_collected(bands),
        numbered(more),
    ensures
        well_collected(crate::nl80211::with_fragment(bands, key, more)),
    decreases bands.len(),
{
    crate::nl80211::merging_keeps_the_bands(bands, key, more, key);
    let merged = crate::nl80211::with_fragment(bands, key, more);
    if bands.len() > 0 {
        let front = bands.drop_last();
        let last = bands.last();
        assert(bands[bands.len() - 1] == last);
        assert(forall|b: int| 0 <= b < front.len() ==> #[trigger] front[b] == bands[b]);
        assert(well_collected(front));
        joined_lists_are_numbered(last.1, more);
        if last.0 > key {
            merging_collects_well(front, key, more);
        }
    }
    assert forall|b: int| 0 <= b < merged.len() implies numbered((#[trigger] merged[b]).1) by {
        if bands.len() > 0 && b < bands.len() && bands.last().0 <= key {
            assert(merged[b] == bands[b] || merged[b] == (key, bands.last().1 + more));
        }
    }
}

proof fn merging_fragments_collects_well(bands: BandsView, fragments: Seq<RawBandView>)
    requires
        well_collected(bands),
    ensures
        well_collected(crate::nl80211::with_fragments(bands, fragments)),
    decreases fragments.len(),
{
    if fragments.len() > 0 {
        merging_fragments_collects_well(bands, fragments.drop_last());
        fragments_are_numbered(fragments.last().info);
        merging_collects_well(
            crate::nl80211::with_fragments(bands, fragments.drop_last()),
            fragments.last().kind,
            crate::nl80211::frequencies_of(fragments.last().info),
        );
    }
}

/// A dump, however it is split, reports every band of a wiphy once, in ascending
/// order, and every frequency under its own channel number.
pub proof fn a_split_dump_collects_well(messages: Seq<Seq<WiphyAttrView>>, index: u32)
    ensures
        crate::detect::phy_reported(messages, index) matches Some(phy) ==> well_collected(
            phy.bands,
        ),
    decreases messages.len(),
{
    if messages.len() > 0 {
        a_split_dump_collects_well(messages.drop_last(), index);
        let before: PhyView = match crate::detect::phy_reported(messages.drop_last(), index) {
            Some(phy) => phy,
            None => crate::nl80211::unknown_phy(),
        };
        if let Some(fragments) = crate::nl80211::last_of(
            messages.last(),
            |a: WiphyAttrView| a.bands(),
        ) {
            merging_fragments_collects_well(before.bands, fragments);
        }
    }
}

proof fn reported_bands_are_well_formed(messages: Seq<Seq<WiphyAttrView>>, index: u32)
    ensures
        well_banded(crate::detect::caps_reported(messages, index).bands),
{
    a_split_dump_collects_well(messages, index);
    if let Some(phy) = crate::detect::phy_reported(messages, index) {
        let bands = crate::nl80211::resolved_bands(phy.bands);
        assert forall|a: int, b: int| 0 <= a < b < bands.len() implies (#[trigger] bands[a]).kind
            != (#[trigger] bands[b]).kind by {
            assert(phy.bands[a].0 < phy.bands[b].0);
        }
        assert forall|b: int| 0 <= b < bands.len() implies numbered(
            (#[trigger] bands[b]).frequencies,
        ) by {
            assert(numbered(phy.bands[b].1));
        }
    }
}

/// A detection that gets as far as the links yields one interface per description,
/// with the capabilities of its wiphy.
proof fn reading_links_joins(
    raw: Seq<RawInterfaceView>,
    caps: spec_fn(u32) -> CapsView,
    links: Seq<LinksView>,
    replies: Seq<DetectReplyView>,
    found: Seq<InterfaceView>,
)
    requires
        crate::program::outcome(crate::detect::read_links(raw, caps, links), replies) == Some(
            Ok::<Seq<InterfaceView>, ErrorView>(found),
        ),
    ensures
        found.len() == raw.len(),
        forall|i: int|
            0 <= i < found.len() ==> (#[trigger] found[i]).supported_modes == caps(
                found[i].phy_index,
            ).supported_modes && found[i].bands == caps(found[i].phy_index).bands,
    decreases raw.len() - links.len(),
{
    let p = crate::detect::read_links(raw, caps, links);
    if links.len() < raw.len() {
        assert(replies.len() > 0);
        crate::program::one_reply(p->Ask_0, p->Ask_1, replies);
        let more = links.push(replies[0]->Links_0);
        assert((p->Ask_1)(replies[0]) == crate::detect::read_links(raw, caps, more));
        reading_links_joins(raw, caps, more, replies.drop_first(), found);
    }
}

/// The wiphy messages of a detection that succeeded.
pub open spec fn wiphy_dump(replies: Seq<DetectReplyView>) -> Seq<Seq<WiphyAttrView>> {
    replies[2]->Wiphys_0->0->Ok_0
}

pub(crate) proof fn a_detection_joins(replies: Seq<DetectReplyView>, found: Seq<InterfaceView>)
    requires
        crate::program::outcome(crate::detect::detect_program(), replies) == Some(
            Ok::<Seq<InterfaceView>, ErrorView>(found),
        ),
    ensures
        forall|i: int|
            0 <= i < found.len() ==> {
                let caps = crate::detect::caps_reported(
                    wiphy_dump(replies),
                    (#[trigger] found[i]).phy_index,
                );
                found[i].supported_modes == caps.supported_modes && found[i].bands == caps.bands
            },
{
    let p = crate::detect::detect_program();
    assert(replies.len() > 0);
    crate::program::one_reply(p->Ask_0, p->Ask_1, replies);
    let q = crate::detect::dump_interfaces();
    let after_open = replies.drop_first();
    match replies[0]->Opened_0 {
        Ok(u) => {
            assert((p->Ask_1)(replies[0]) == q);
        },
        Err(source) => {
            assert((p->Ask_1)(replies[0]) is Return);
        },
    }
    assert(after_open.len() > 0);
    crate::program::one_reply(q->Ask_0, q->Ask_1, after_open);
    let dump = after_open[0]->Interfaces_0;
    if !(dump matches Some(Ok(messages))) {
        assert((q->Ask_1)(after_open[0]) is Return);
    }
    let raw = crate::nl80211::raw_interfaces(dump->0->Ok_0);
    let s = crate::detect::dump_wiphys(raw);
    assert((q->Ask_1)(after_open[0]) == s);
    let after_interfaces = after_open.drop_first();
    assert(after_interfaces.len() > 0);
    crate::program::one_reply(s->Ask_0, s->Ask_1, after_interfaces);
    assert(after_interfaces[0] == replies[2]);
    if !(replies[2]->Wiphys_0 matches Some(Ok(messages))) {
        assert((s->Ask_1)(replies[2]) is Return);
    }
    let caps = |index: u32| crate::detect::caps_reported(wiphy_dump(replies), index);
    assert((s->Ask_1)(replies[2]) == crate::detect::read_links(raw, caps, Seq::empty()));
    reading_links_joins(raw, caps, Seq::empty(), after_interfaces.drop_first(), found);
}

/// Every detected interface has its bands told apart by kind, and every frequency
/// of theirs under the channel number that it maps to.
pub proof fn detected_channels_are_their_frequencies(
    replies: Seq<DetectReplyView>,
    found: Seq<InterfaceView>,
    i: int,
)
    requires
        crate::program::outcome(crate::detect::detect_program(), replies) == Some(
            Ok::<Seq<InterfaceView>, ErrorView>(found),
        ),
        0 <= i < found.len(),
    ensures
        well_banded(found[i].bands),
{
    a_detection_joins(replies, found);
    reported_bands_are_well_formed(wiphy_dump(replies), found[i].phy_index);
}

/// Interfaces that share a wiphy share its capabilities.
pub proof fn interfaces_of_a_wiphy_share_its_capabilities(
    replies: Seq<DetectReplyView>,
    found: Seq<InterfaceView>,
    i: int,
    j: int,
)
    requires
        crate::program::outcome(crate::detect::detect_program(), replies) == Some(
            Ok::<Seq<InterfaceView>, ErrorView>(found),
        ),
        0 <= i < found.len(),
        0 <= j < found.len(),
        found[i].phy_index == found[j].phy_index,
    ensures
        found[i].supported_modes == found[j].supported_modes,
        found[i].bands == found[j].bands,
{
    a_detection_joins(replies, found);
}

} // verus!
