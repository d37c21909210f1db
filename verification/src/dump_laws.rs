//! What is read out of a dump, in terms of the attributes that its messages hold.

use vstd::prelude::*;

use crate::channel::Tuning;
use crate::detect::{CapsView, DetectOp, DetectReplyView, LinksView};
use crate::errors::{ErrorView, LinuxErrorView};
use crate::interface::{BandKind, BandView, BusKind, Frequency, InterfaceMode, InterfaceView};
use crate::nl80211::{
    BandInfoView, BandsView, FrequencyInfo, InterfaceAttrView, PhyCaps, PhyView, RawBandView,
    RawInterfaceView, RawWidth, WiphyAttrView,
};

verus! {

/// Whether an entry of a kind stands in a list.
pub open spec fn holds<A>(s: Seq<A>, kind: spec_fn(A) -> bool) -> bool {
    exists|k: int| 0 <= k < s.len() && kind(#[trigger] s[k])
}

/// Whether the last entry of a kind stands at `k`.
pub open spec fn last_at<A>(s: Seq<A>, kind: spec_fn(A) -> bool, k: int) -> bool {
    &&& 0 <= k < s.len()
    &&& kind(s[k])
    &&& forall|j: int| k < j < s.len() ==> !kind(#[trigger] s[j])
}

/// Whether the first entry of a kind stands at `k`.
pub open spec fn first_at<A>(s: Seq<A>, kind: spec_fn(A) -> bool, k: int) -> bool {
    &&& 0 <= k < s.len()
    &&& kind(s[k])
    &&& forall|j: int| 0 <= j < k ==> !kind(#[trigger] s[j])
}

/// The last entry that has something to say is the last of its kind.
proof fn last_is_last<A, T>(s: Seq<A>, pick: spec_fn(A) -> Option<T>, kind: spec_fn(A) -> bool)
    requires
        forall|a: A| #[trigger] kind(a) == (pick(a) is Some),
    ensures
        crate::nl80211::last_of(s, pick) is Some <==> holds(s, kind),
        crate::nl80211::last_of(s, pick) is Some ==> exists|k: int| #[trigger]
            last_at(s, kind, k) && pick(s[k]) == crate::nl80211::last_of(s, pick),
        forall|k: int| #[trigger]
            last_at(s, kind, k) ==> crate::nl80211::last_of(s, pick) == pick(s[k]),
    decreases s.len(),
{
    if s.len() > 0 {
        let front = s.drop_last();
        let end = s.len() - 1;
        assert(kind(s[end]) == (pick(s[end]) is Some));
        last_is_last(front, pick, kind);
        if pick(s.last()) is Some {
            assert(last_at(s, kind, end));
            assert forall|k: int| #[trigger] last_at(s, kind, k) implies crate::nl80211::last_of(
                s,
                pick,
            ) == pick(s[k]) by {
                if k < end {
                    assert(!kind(s[end]));
                }
            }
        } else {
            if holds(s, kind) {
                let k = choose|k: int| 0 <= k < s.len() && kind(#[trigger] s[k]);
                assert(kind(front[k]));
            }
            if holds(front, kind) {
                let k = choose|k: int| 0 <= k < front.len() && kind(#[trigger] front[k]);
                assert(kind(s[k]));
            }
            if crate::nl80211::last_of(front, pick) is Some {
                let k = choose|k: int| #[trigger]
                    last_at(front, kind, k) && pick(front[k]) == crate::nl80211::last_of(
                        front,
                        pick,
                    );
                assert forall|j: int| k < j < s.len() implies !kind(#[trigger] s[j]) by {
                    if j < end {
                        assert(!kind(front[j]));
                    }
                }
                assert(last_at(s, kind, k));
            }
            assert forall|k: int| #[trigger] last_at(s, kind, k) implies crate::nl80211::last_of(
                s,
                pick,
            ) == pick(s[k]) by {
                assert(k < end);
                assert(front[k] == s[k]);
                assert forall|j: int| k < j < front.len() implies !kind(#[trigger] front[j]) by {
                    assert(!kind(s[j]));
                }
                assert(last_at(front, kind, k));
            }
        }
    }
}

/// The first entry that has something to say is the first of its kind.
proof fn first_is_first<A, T>(s: Seq<A>, pick: spec_fn(A) -> Option<T>, kind: spec_fn(A) -> bool)
    requires
        forall|a: A| #[trigger] kind(a) == (pick(a) is Some),
    ensures
        crate::nl80211::first_of(s, pick) is Some <==> holds(s, kind),
        forall|k: int| #[trigger]
            first_at(s, kind, k) ==> crate::nl80211::first_of(s, pick) == pick(s[k]),
    decreases s.len(),
{
    if s.len() > 0 {
        let rest = s.drop_first();
        assert(kind(s[0]) == (pick(s[0]) is Some));
        first_is_first(rest, pick, kind);
        if pick(s[0]) is None {
            if holds(s, kind) {
                let k = choose|k: int| 0 <= k < s.len() && kind(#[trigger] s[k]);
                assert(kind(rest[k - 1]));
            }
            if holds(rest, kind) {
                let k = choose|k: int| 0 <= k < rest.len() && kind(#[trigger] rest[k]);
                assert(kind(s[k + 1]));
            }
        }
        assert forall|k: int| #[trigger] first_at(s, kind, k) implies crate::nl80211::first_of(
            s,
            pick,
        ) == pick(s[k]) by {
            if k > 0 {
                assert(!kind(s[0]));
                assert(rest[k - 1] == s[k]);
                assert forall|j: int| 0 <= j < k - 1 implies !kind(#[trigger] rest[j]) by {
                    assert(!kind(s[j + 1]));
                }
                assert(first_at(rest, kind, k - 1));
            }
        }
    }
}

/// Attributes that name an interface.
pub open spec fn naming() -> spec_fn(InterfaceAttrView) -> bool {
    |a: InterfaceAttrView| a is IfName
}

/// Attributes that give the index of an interface.
pub open spec fn indexing() -> spec_fn(InterfaceAttrView) -> bool {
    |a: InterfaceAttrView| a is IfIndex
}

/// Attributes that give the wiphy of an interface.
pub open spec fn of_wiphy() -> spec_fn(InterfaceAttrView) -> bool {
    |a: InterfaceAttrView| a is Wiphy
}

/// Attributes that give a hardware address.
pub open spec fn addressing() -> spec_fn(InterfaceAttrView) -> bool {
    |a: InterfaceAttrView| a is Mac
}

/// Attributes that give an interface type.
pub open spec fn typing() -> spec_fn(InterfaceAttrView) -> bool {
    |a: InterfaceAttrView| a is IfType
}

/// Attributes that give an SSID.
pub open spec fn associating() -> spec_fn(InterfaceAttrView) -> bool {
    |a: InterfaceAttrView| a is Ssid
}

/// Whether a message describes an interface: it has an index, a name and a wiphy.
pub open spec fn describes(m: Seq<InterfaceAttrView>) -> bool {
    holds(m, indexing()) && holds(m, naming()) && holds(m, of_wiphy())
}

/// Whether an nl80211 interface type is the one of a mode.
pub open spec fn type_of(value: u32, mode: InterfaceMode) -> bool {
    match mode {
        InterfaceMode::Adhoc => value == 1,
        InterfaceMode::Managed => value == 2,
        InterfaceMode::Ap => value == 3,
        InterfaceMode::Monitor => value == 6,
        InterfaceMode::MeshPoint => value == 7,
        InterfaceMode::Other(v) => value == v && v != 1 && v != 2 && v != 3 && v != 6 && v != 7,
    }
}

/// Whether a message says of an interface what is known of it: each fact is that of
/// the last attribute of its kind. Without a hardware address it is all zeros,
/// without an interface type the mode is an unnamed one, and without an SSID there
/// is none.
pub open spec fn shown_by(
    m: Seq<InterfaceAttrView>,
    name: Seq<char>,
    index: u32,
    phy_index: u32,
    mac: Seq<u8>,
    mode: InterfaceMode,
    ssid: Option<Seq<char>>,
) -> bool {
    &&& exists|k: int| #[trigger] last_at(m, naming(), k) && m[k] == InterfaceAttrView::IfName(name)
    &&& exists|k: int| #[trigger]
        last_at(m, indexing(), k) && m[k] == InterfaceAttrView::IfIndex(index)
    &&& exists|k: int| #[trigger]
        last_at(m, of_wiphy(), k) && m[k] == InterfaceAttrView::Wiphy(phy_index)
    &&& if holds(m, addressing()) {
        exists|k: int| #[trigger] last_at(m, addressing(), k) && m[k] == InterfaceAttrView::Mac(mac)
    } else {
        mac == seq![0u8, 0u8, 0u8, 0u8, 0u8, 0u8]
    }
    &&& if holds(m, typing()) {
        exists|k: int| #[trigger]
            last_at(m, typing(), k) && (m[k] matches InterfaceAttrView::IfType(v) && type_of(
                v,
                mode,
            ))
    } else {
        mode == InterfaceMode::Other(0)
    }
    &&& match ssid {
        Some(text) => exists|k: int| #[trigger]
            last_at(m, associating(), k) && m[k] == InterfaceAttrView::Ssid(text),
        None => !holds(m, associating()),
    }
}

/// A message is read as an interface exactly when it describes one, and then as the
/// one it shows.
pub proof fn a_message_is_read_as_it_shows(m: Seq<InterfaceAttrView>)
    ensures
        crate::nl80211::raw_interface(m) is Some <==> describes(m),
        crate::nl80211::raw_interface(m) matches Some(raw) ==> shown_by(
            m,
            raw.name,
            raw.index,
            raw.phy_index,
            raw.mac,
            raw.mode,
            raw.ssid,
        ),
{
    last_is_last(m, |a: InterfaceAttrView| a.if_index(), indexing());
    last_is_last(m, |a: InterfaceAttrView| a.if_name(), naming());
    last_is_last(m, |a: InterfaceAttrView| a.wiphy(), of_wiphy());
    last_is_last(m, |a: InterfaceAttrView| a.mac(), addressing());
    last_is_last(m, |a: InterfaceAttrView| a.mode(), typing());
    last_is_last(m, |a: InterfaceAttrView| a.ssid(), associating());
    assert(crate::mac::zero_mac() =~= seq![0u8, 0u8, 0u8, 0u8, 0u8, 0u8]);
}

/// The describing messages of a dump, in order.
pub open spec fn descriptions(messages: Seq<Seq<InterfaceAttrView>>) -> Seq<
    Seq<InterfaceAttrView>,
> {
    messages.filter(|m: Seq<InterfaceAttrView>| describes(m))
}

proof fn descriptions_are_read(messages: Seq<Seq<InterfaceAttrView>>)
    ensures
        ({
            let raw = crate::nl80211::raw_interfaces(messages);
            let shown = descriptions(messages);
            &&& raw.len() == shown.len()
            &&& forall|i: int|
                0 <= i < raw.len() ==> crate::nl80211::raw_interface(#[trigger] shown[i]) == Some(
                    raw[i],
                )
        }),
    decreases messages.len(),
{
    reveal(Seq::filter);
    if messages.len() > 0 {
        descriptions_are_read(messages.drop_last());
        a_message_is_read_as_it_shows(messages.last());
    }
}

/// The interface messages of a detection that succeeded.
pub open spec fn interface_dump(replies: Seq<DetectReplyView>) -> Seq<Seq<InterfaceAttrView>> {
    replies[1]->Interfaces_0->0->Ok_0
}

/// Whether the name of a subsystem is the one of a bus.
pub open spec fn subsystem_of(subsystem: Option<Seq<char>>, bus: BusKind) -> bool {
    match bus {
        BusKind::Usb => subsystem == Some("usb"@),
        BusKind::Pci => subsystem == Some("pci"@),
        BusKind::Other => subsystem != Some("usb"@) && subsystem != Some("pci"@),
    }
}

/// Every detection that succeeds opens a socket, dumps the interfaces and the
/// wiphys, and reads the links of each interface's own wiphy. It finds one interface
/// per describing message of the interface dump, in order: with the name, the index,
/// the wiphy, the hardware address, the mode and the SSID which that message shows,
/// and with the driver and the bus which its own links name.
pub proof fn a_detection_finds_what_was_dumped(
    replies: Seq<DetectReplyView>,
    found: Seq<InterfaceView>,
)
    requires
        crate::program::outcome(crate::detect::detect_program(), replies) == Some(
            Ok::<Seq<InterfaceView>, ErrorView>(found),
        ),
    ensures
        ({
            let asked = crate::program::asked(crate::detect::detect_program(), replies);
            let shown = descriptions(interface_dump(replies));
            &&& found.len() == shown.len()
            &&& asked.len() == 3 + found.len()
            &&& replies.len() >= asked.len()
            &&& asked[0] == DetectOp::Open
            &&& asked[1] == DetectOp::DumpInterfaces
            &&& asked[2] == DetectOp::DumpWiphys
            &&& forall|i: int|
                0 <= i < found.len() ==> {
                    let f = #[trigger] found[i];
                    &&& shown_by(
                        shown[i],
                        f.name,
                        f.index,
                        f.phy_index,
                        f.mac,
                        f.mode,
                        f.ssid,
                    )
                    &&& asked[3 + i] == DetectOp::ReadLinks { phy_index: f.phy_index }
                    &&& f.driver == replies[3 + i]->Links_0.driver
                    &&& subsystem_of(replies[3 + i]->Links_0.subsystem, f.bus)
                }
        }),
{
    let p = crate::detect::detect_program();
    assert(replies.len() > 0);
    crate::program::one_reply(p->Ask_0, p->Ask_1, replies);
    let q = crate::detect::dump_interfaces();
    let after_open = replies.drop_first();
    match replies[0]->Opened_0 {
        Ok(u) => {
            assert((p->Ask_1)(replies[0]) == q);
        },
        Err(source) => {
            assert((p->Ask_1)(replies[0]) is Return);
        },
    }
    assert(after_open.len() > 0);
    crate::program::one_reply(q->Ask_0, q->Ask_1, after_open);
    assert(after_open[0] == replies[1]);
    let dump = after_open[0]->Interfaces_0;
    if !(dump matches Some(Ok(messages))) {
        assert((q->Ask_1)(after_open[0]) is Return);
    }
    let raw = crate::nl80211::raw_interfaces(interface_dump(replies));
    let s = crate::detect::dump_wiphys(raw);
    assert((q->Ask_1)(after_open[0]) == s);
    let after_interfaces = after_open.drop_first();
    assert(after_interfaces.len() > 0);
    crate::program::one_reply(s->Ask_0, s->Ask_1, after_interfaces);
    assert(after_interfaces[0] == replies[2]);
    if !(replies[2]->Wiphys_0 matches Some(Ok(messages))) {
        assert((s->Ask_1)(replies[2]) is Return);
    }
    let caps = |index: u32|
        crate::detect::caps_reported(crate::detect_laws::wiphy_dump(replies), index);
    assert((s->Ask_1)(replies[2]) == crate::detect::read_links(raw, caps, Seq::empty()));
    let rest = after_interfaces.drop_first();
    links_are_read_in_order(raw, caps, Seq::empty(), rest, found);
    descriptions_are_read(interface_dump(replies));
    reveal_strlit("usb");
    reveal_strlit("pci");
    assert("usb"@[0] != "pci"@[0]);
    let asked = crate::program::asked(p, replies);
    let read = crate::program::asked(crate::detect::read_links(raw, caps, Seq::empty()), rest);
    assert(asked =~= seq![DetectOp::Open, DetectOp::DumpInterfaces, DetectOp::DumpWiphys] + read);
    let shown = descriptions(interface_dump(replies));
    assert forall|i: int| 0 <= i < found.len() implies ({
        let f = #[trigger] found[i];
        &&& shown_by(shown[i], f.name, f.index, f.phy_index, f.mac, f.mode, f.ssid)
        &&& asked[3 + i] == DetectOp::ReadLinks { phy_index: f.phy_index }
        &&& f.driver == replies[3 + i]->Links_0.driver
        &&& subsystem_of(replies[3 + i]->Links_0.subsystem, f.bus)
    }) by {
        a_message_is_read_as_it_shows(shown[i]);
        assert(crate::nl80211::raw_interface(shown[i]) == Some(raw[i]));
        assert(rest[i] == replies[3 + i]);
        assert(asked[3 + i] == read[i]);
    }
}

/// The links of the interfaces are read one by one, each of its own wiphy.
proof fn links_are_read_in_order(
    raw: Seq<RawInterfaceView>,
    caps: spec_fn(u32) -> crate::detect::CapsView,
    links: Seq<LinksView>,
    replies: Seq<DetectReplyView>,
    found: Seq<InterfaceView>,
)
    requires
        links.len() <= raw.len(),
        crate::program::outcome(crate::detect::read_links(raw, caps, links), replies) == Some(
            Ok::<Seq<InterfaceView>, ErrorView>(found),
        ),
    ensures
        ({
            let asked = crate::program::asked(
                crate::detect::read_links(raw, caps, links),
                replies,
            );
            let n = links.len() as int;
            &&& found.len() == raw.len()
            &&& asked.len() == raw.len() - n
            &&& replies.len() >= asked.len()
            &&& forall|i: int|
                0 <= i < asked.len() ==> #[trigger] asked[i] == (DetectOp::ReadLinks {
                    phy_index: raw[n + i].phy_index,
                })
            &&& forall|i: int|
                0 <= i < raw.len() ==> {
                    let f = #[trigger] found[i];
                    let l = if i < n {
                        links[i]
                    } else {
                        replies[i - n]->Links_0
                    };
                    &&& f.name == raw[i].name
                    &&& f.index == raw[i].index
                    &&& f.phy_index == raw[i].phy_index
                    &&& f.mac == raw[i].mac
                    &&& f.mode == raw[i].mode
                    &&& f.ssid == raw[i].ssid
                    &&& f.driver == l.driver
                    &&& f.bus == crate::detect::bus_of(l.subsystem)
                }
        }),
    decreases raw.len() - links.len(),
{
    let p = crate::detect::read_links(raw, caps, links);
    if links.len() < raw.len() {
        assert(replies.len() > 0);
        crate::program::one_reply(p->Ask_0, p->Ask_1, replies);
        let more = links.push(replies[0]->Links_0);
        let rest = replies.drop_first();
        assert((p->Ask_1)(replies[0]) == crate::detect::read_links(raw, caps, more));
        links_are_read_in_order(raw, caps, more, rest, found);
        let asked = crate::program::asked(p, replies);
        let later = crate::program::asked(crate::detect::read_links(raw, caps, more), rest);
        let n = links.len() as int;
        assert forall|i: int| 0 <= i < asked.len() implies #[trigger] asked[i]
            == (DetectOp::ReadLinks { phy_index: raw[n + i].phy_index }) by {
            if i > 0 {
                assert(asked[i] == later[i - 1]);
            }
        }
        assert forall|i: int| 0 <= i < raw.len() implies ({
            let f = #[trigger] found[i];
            let l = if i < n {
                links[i]
            } else {
                replies[i - n]->Links_0
            };
            &&& f.driver == l.driver
            &&& f.bus == crate::detect::bus_of(l.subsystem)
        }) by {
            if i > n {
                assert(rest[i - n - 1] == replies[i - n]);
            } else if i < n {
                assert(more[i] == links[i]);
            } else {
                assert(more[i] == replies[0]->Links_0);
            }
        }
    }
}

/// A detection that fails says which step failed: the socket, or a dump, which gave
/// an error or did not end in time. It asks nothing after that.
pub proof fn a_detection_says_which_step_failed(replies: Seq<DetectReplyView>)
    requires
        replies.len() >= 3,
    ensures
        ({
            let asked = crate::program::asked(crate::detect::detect_program(), replies);
            let r = crate::program::outcome(crate::detect::detect_program(), replies);
            match replies[0]->Opened_0 {
                Err(source) => {
                    &&& asked == seq![DetectOp::Open]
                    &&& r == Some(
                        Err::<Seq<InterfaceView>, ErrorView>(
                            ErrorView::Linux(
                                LinuxErrorView::NetlinkConnect {
                                    kind: "nl80211"@,
                                    phase: "connect"@,
                                    source,
                                },
                            ),
                        ),
                    )
                },
                Ok(u) => match replies[1]->Interfaces_0 {
                    Some(Ok(messages)) => match replies[2]->Wiphys_0 {
                        Some(Ok(wiphys)) => r matches Some(x) ==> x is Ok,
                        failed => {
                            &&& asked.len() == 3
                            &&& r == Some(
                                Err::<Seq<InterfaceView>, ErrorView>(
                                    dump_error("get_wiphy"@, match failed {
                                        Some(Err(source)) => Some(source),
                                        _ => None,
                                    }),
                                ),
                            )
                        },
                    },
                    failed => {
                        &&& asked == seq![DetectOp::Open, DetectOp::DumpInterfaces]
                        &&& r == Some(
                            Err::<Seq<InterfaceView>, ErrorView>(
                                dump_error("get_interface"@, match failed {
                                    Some(Err(source)) => Some(source),
                                    _ => None,
                                }),
                            ),
                        )
                    },
                },
            }
        }),
{
    let p = crate::detect::detect_program();
    crate::program::one_reply(p->Ask_0, p->Ask_1, replies);
    let q = crate::detect::dump_interfaces();
    let after_open = replies.drop_first();
    let asked = crate::program::asked(p, replies);
    if replies[0]->Opened_0 is Err {
        assert((p->Ask_1)(replies[0]) is Return);
        assert(asked =~= seq![DetectOp::Open]);
    } else {
        assert((p->Ask_1)(replies[0]) == q);
        crate::program::one_reply(q->Ask_0, q->Ask_1, after_open);
        assert(after_open[0] == replies[1]);
        if replies[1]->Interfaces_0 matches Some(Ok(messages)) {
            let raw = crate::nl80211::raw_interfaces(interface_dump(replies));
            let s = crate::detect::dump_wiphys(raw);
            assert((q->Ask_1)(after_open[0]) == s);
            let after_interfaces = after_open.drop_first();
            crate::program::one_reply(s->Ask_0, s->Ask_1, after_interfaces);
            assert(after_interfaces[0] == replies[2]);
            if replies[2]->Wiphys_0 matches Some(Ok(wiphys)) {
                let caps = |index: u32|
                    crate::detect::caps_reported(crate::detect_laws::wiphy_dump(replies), index);
                assert((s->Ask_1)(replies[2]) == crate::detect::read_links(
                    raw,
                    caps,
                    Seq::empty(),
                ));
                reading_links_succeeds(raw, caps, Seq::empty(), after_interfaces.drop_first());
            } else {
                assert((s->Ask_1)(replies[2]) is Return);
            }
        } else {
            assert((q->Ask_1)(after_open[0]) is Return);
            assert(asked =~= seq![DetectOp::Open, DetectOp::DumpInterfaces]);
        }
    }
}

/// The error of a dump: what it reported, or that its five seconds were over.
pub open spec fn dump_error(command: Seq<char>, source: Option<Seq<char>>) -> ErrorView {
    match source {
        Some(source) => ErrorView::Linux(LinuxErrorView::Dump { command, source }),
        None => ErrorView::Linux(LinuxErrorView::Timeout { command, timeout_ms: 5000 }),
    }
}

proof fn reading_links_succeeds(
    raw: Seq<RawInterfaceView>,
    caps: spec_fn(u32) -> crate::detect::CapsView,
    links: Seq<LinksView>,
    replies: Seq<DetectReplyView>,
)
    ensures
        crate::program::outcome(
            crate::detect::read_links(raw, caps, links),
            replies,
        ) matches Some(r) ==> r is Ok,
    decreases raw.len() - links.len(),
{
    let p = crate::detect::read_links(raw, caps, links);
    if links.len() < raw.len() && replies.len() > 0 {
        crate::program::one_reply(p->Ask_0, p->Ask_1, replies);
        let more = links.push(replies[0]->Links_0);
        assert((p->Ask_1)(replies[0]) == crate::detect::read_links(raw, caps, more));
        reading_links_succeeds(raw, caps, more, replies.drop_first());
    }
}

/// Attributes that give the wiphy a message is about.
pub open spec fn about_wiphy() -> spec_fn(WiphyAttrView) -> bool {
    |a: WiphyAttrView| a is Wiphy
}

/// Attributes that list interface types.
pub open spec fn listing_types() -> spec_fn(WiphyAttrView) -> bool {
    |a: WiphyAttrView| a is SupportedIftypes
}

/// Attributes that hold fragments of bands.
pub open spec fn holding_bands() -> spec_fn(WiphyAttrView) -> bool {
    |a: WiphyAttrView| a is WiphyBands
}

/// Whether a message is about a wiphy.
pub open spec fn is_about(m: Seq<WiphyAttrView>, index: u32) -> bool {
    exists|k: int| #[trigger]
        last_at(m, about_wiphy(), k) && m[k] == WiphyAttrView::Wiphy(index)
}

proof fn a_message_is_about_its_wiphy(m: Seq<WiphyAttrView>, index: u32)
    ensures
        (crate::detect::wiphy_of(m) == Some(index)) == is_about(m, index),
{
    let pick = |a: WiphyAttrView| a.wiphy();
    last_is_last(m, pick, about_wiphy());
    if is_about(m, index) {
        let k = choose|k: int| #[trigger]
            last_at(m, about_wiphy(), k) && m[k] == WiphyAttrView::Wiphy(index);
        assert(crate::nl80211::last_of(m, pick) == pick(m[k]));
    }
}

/// Whether a message about a wiphy lists its interface types.
pub open spec fn lists_types_of(m: Seq<WiphyAttrView>, index: u32) -> bool {
    is_about(m, index) && holds(m, listing_types())
}

/// Whether a list of modes is that of the interface types which a message lists.
pub open spec fn modes_listed_by(m: Seq<WiphyAttrView>, modes: Seq<InterfaceMode>) -> bool {
    exists|k: int| #[trigger]
        last_at(m, listing_types(), k) && (m[k] matches WiphyAttrView::SupportedIftypes(types)
            && modes.len() == types.len() && forall|i: int|
            0 <= i < types.len() ==> type_of(types[i] as u32, #[trigger] modes[i]))
}

/// The modes that a device advertises are those of the interface types in the last
/// list that the dump has of its wiphy; without a list there are none.
pub proof fn advertised_modes_are_the_listed_ones(
    messages: Seq<Seq<WiphyAttrView>>,
    index: u32,
)
    ensures
        ({
            let modes = crate::detect::caps_reported(messages, index).supported_modes;
            &&& forall|q: int|
                0 <= q < messages.len() && lists_types_of(#[trigger] messages[q], index) && (forall|
                    later: int,
                |
                    q < later < messages.len() ==> !lists_types_of(
                        #[trigger] messages[later],
                        index,
                    )) ==> modes_listed_by(messages[q], modes)
            &&& (forall|q: int|
                0 <= q < messages.len() ==> !lists_types_of(#[trigger] messages[q], index))
                ==> modes.len() == 0
        }),
    decreases messages.len(),
{
    if messages.len() > 0 {
        let front = messages.drop_last();
        let m = messages.last();
        let end = messages.len() - 1;
        let modes = crate::detect::caps_reported(messages, index).supported_modes;
        advertised_modes_are_the_listed_ones(front, index);
        a_message_is_about_its_wiphy(m, index);
        let pick = |a: WiphyAttrView| a.iftypes();
        last_is_last(m, pick, listing_types());
        if lists_types_of(m, index) {
            let k = choose|k: int| #[trigger]
                last_at(m, listing_types(), k) && pick(m[k]) == crate::nl80211::last_of(m, pick);
            let types = m[k]->SupportedIftypes_0;
            assert(modes == crate::detect::modes_of(types));
            assert forall|i: int| 0 <= i < types.len() implies type_of(
                types[i] as u32,
                #[trigger] modes[i],
            ) by {
                assert(modes[i] == crate::nl80211::mode_of_iftype(types[i] as u32));
            }
            assert(modes_listed_by(m, modes));
            assert(messages[end] == m);
        } else {
            assert(modes == crate::detect::caps_reported(front, index).supported_modes);
            assert(messages[end] == m);
        }
        assert forall|q: int|
            0 <= q < messages.len() && lists_types_of(#[trigger] messages[q], index) && (forall|
                later: int,
            |
                q < later < messages.len() ==> !lists_types_of(
                    #[trigger] messages[later],
                    index,
                )) implies modes_listed_by(messages[q], modes) by {
            if q < end {
                assert(!lists_types_of(messages[end], index));
                assert(front[q] == messages[q]);
                assert forall|later: int| q < later < front.len() implies !lists_types_of(
                    #[trigger] front[later],
                    index,
                ) by {
                    assert(front[later] == messages[later]);
                }
            }
        }
        if forall|q: int| 0 <= q < messages.len() ==> !lists_types_of(#[trigger] messages[q], index) {
            assert(!lists_types_of(messages[end], index));
            assert forall|q: int| 0 <= q < front.len() implies !lists_types_of(
                #[trigger] front[q],
                index,
            ) by {
                assert(front[q] == messages[q]);
            }
        }
    }
}

/// Whether an nl80211 band number is the one of a band.
pub open spec fn number_of(value: u16, kind: BandKind) -> bool {
    match kind {
        BandKind::TwoGhz => value == 0,
        BandKind::FiveGhz => value == 1,
        BandKind::SixtyGhz => value == 2,
        BandKind::SixGhz => value == 3,
        BandKind::Other(v) => value == v && v > 3,
    }
}

/// Facts that name a frequency.
pub open spec fn naming_frequency() -> spec_fn(FrequencyInfo) -> bool {
    |i: FrequencyInfo| i is Freq
}

/// Whether a list of facts describes a frequency: by the last one named, disabled or
/// subject to radar where the list says so, and under its own channel number.
pub open spec fn facts_of(facts: Seq<FrequencyInfo>, f: Frequency) -> bool {
    &&& exists|k: int| #[trigger]
        last_at(facts, naming_frequency(), k) && facts[k] == FrequencyInfo::Freq(f.mhz)
    &&& f.disabled <==> exists|k: int|
        0 <= k < facts.len() && #[trigger] facts[k] == FrequencyInfo::Disabled
    &&& f.radar <==> exists|k: int|
        0 <= k < facts.len() && #[trigger] facts[k] == FrequencyInfo::Radar
    &&& f.channel == crate::channel::channel_of(f.mhz as int)
}

proof fn facts_are_read(facts: Seq<FrequencyInfo>, f: Frequency)
    ensures
        (crate::nl80211::frequency_of(facts) == Some(f)) == facts_of(facts, f),
{
    let pick = |i: FrequencyInfo|
        match i {
            FrequencyInfo::Freq(mhz) => Some(mhz),
            _ => None::<u32>,
        };
    last_is_last(facts, pick, naming_frequency());
    if facts_of(facts, f) {
        let k = choose|k: int| #[trigger]
            last_at(facts, naming_frequency(), k) && facts[k] == FrequencyInfo::Freq(f.mhz);
        assert(crate::nl80211::last_of(facts, pick) == pick(facts[k]));
        assert(crate::nl80211::frequency_of(facts) matches Some(g) && g.mhz == f.mhz);
    }
}

/// Whether a fragment of a band lists a frequency, at the given places.
pub open spec fn lists_at(fragment: RawBandView, x: int, y: int, f: Frequency) -> bool {
    &&& 0 <= x < fragment.info.len()
    &&& fragment.info[x] matches BandInfoView::Freqs(lists)
    &&& 0 <= y < lists.len()
    &&& facts_of(lists[y], f)
}

/// Whether a fragment of a band lists a frequency.
pub open spec fn lists(fragment: RawBandView, f: Frequency) -> bool {
    exists|x: int, y: int| #[trigger] lists_at(fragment, x, y, f)
}

proof fn listed_frequencies(info: BandInfoView, f: Frequency)
    ensures
        crate::nl80211::listed(info).contains(f) <==> (info matches BandInfoView::Freqs(lists)
            && exists|y: int| 0 <= y < lists.len() && facts_of(#[trigger] lists[y], f)),
{
    if let BandInfoView::Freqs(lists) = info {
        picked_from_a_list(lists, f);
    }
}

proof fn picked_from_a_list(lists: Seq<Seq<FrequencyInfo>>, f: Frequency)
    ensures
        lists.filter_map(
            |facts: Seq<FrequencyInfo>| crate::nl80211::frequency_of(facts),
        ).contains(f) <==> exists|y: int| 0 <= y < lists.len() && facts_of(#[trigger] lists[y], f),
    decreases lists.len(),
{
    let pick = |facts: Seq<FrequencyInfo>| crate::nl80211::frequency_of(facts);
    let all = lists.filter_map(pick);
    if lists.len() > 0 {
        let front = lists.drop_last();
        let end = lists.len() - 1;
        picked_from_a_list(front, f);
        facts_are_read(lists.last(), f);
        let before = front.filter_map(pick);
        if before.contains(f) {
            let k = choose|k: int| 0 <= k < before.len() && before[k] == f;
            assert(all[k] == f);
        }
        if pick(lists.last()) == Some(f) {
            assert(all[all.len() - 1] == f);
            assert(facts_of(lists[end], f));
        }
        if all.contains(f) {
            let k = choose|k: int| 0 <= k < all.len() && all[k] == f;
            if k < before.len() {
                assert(before[k] == f);
                let y = choose|y: int| 0 <= y < front.len() && facts_of(#[trigger] front[y], f);
                assert(facts_of(lists[y], f));
            }
        }
        if exists|y: int| 0 <= y < lists.len() && facts_of(#[trigger] lists[y], f) {
            let y = choose|y: int| 0 <= y < lists.len() && facts_of(#[trigger] lists[y], f);
            if y < end {
                assert(facts_of(front[y], f));
            }
        }
    }
}

proof fn a_fragment_has_what_it_lists(fragment: RawBandView, f: Frequency)
    ensures
        crate::nl80211::frequencies_of(fragment.info).contains(f) <==> lists(fragment, f),
    decreases fragment.info.len(),
{
    let info = fragment.info;
    let all = crate::nl80211::frequencies_of(info);
    if info.len() > 0 {
        let less = RawBandView { kind: fragment.kind, info: info.drop_last() };
        let end = info.len() - 1;
        a_fragment_has_what_it_lists(less, f);
        listed_frequencies(info.last(), f);
        let before = crate::nl80211::frequencies_of(info.drop_last());
        let more = crate::nl80211::listed(info.last());
        joined_contain(before, more, f);
        if lists(less, f) {
            let (x, y) = choose|x: int, y: int| #[trigger] lists_at(less, x, y, f);
            assert(lists_at(fragment, x, y, f));
        }
        if more.contains(f) {
            let given = info.last()->Freqs_0;
            let y = choose|y: int| 0 <= y < given.len() && facts_of(#[trigger] given[y], f);
            assert(lists_at(fragment, end, y, f));
        }
        if lists(fragment, f) {
            let (x, y) = choose|x: int, y: int| #[trigger] lists_at(fragment, x, y, f);
            if x < end {
                assert(lists_at(less, x, y, f));
            }
        }
    }
}

pub(crate) proof fn joined_contain<A>(a: Seq<A>, b: Seq<A>, x: A)
    ensures
        (a + b).contains(x) <==> a.contains(x) || b.contains(x),
{
    if a.contains(x) {
        let k = choose|k: int| 0 <= k < a.len() && a[k] == x;
        assert((a + b)[k] == x);
    }
    if b.contains(x) {
        let k = choose|k: int| 0 <= k < b.len() && b[k] == x;
        assert((a + b)[a.len() + k] == x);
    }
    if (a + b).contains(x) {
        let k = choose|k: int| 0 <= k < (a + b).len() && (a + b)[k] == x;
        if k < a.len() {
            assert(a[k] == x);
        } else {
            assert(b[k - a.len()] == x);
        }
    }
}

/// Whether a band number was collected with a frequency.
spec fn collected(bands: BandsView, key: u16, f: Frequency) -> bool {
    exists|b: int| 0 <= b < bands.len() && (#[trigger] bands[b]).0 == key && bands[b].1.contains(f)
}

proof fn merging_collects(bands: BandsView, key: u16, more: Seq<Frequency>, k: u16, f: Frequency)
    ensures
        collected(crate::nl80211::with_fragment(bands, key, more), k, f) <==> collected(
            bands,
            k,
            f,
        ) || (k == key && more.contains(f)),
    decreases bands.len(),
{
    let merged = crate::nl80211::with_fragment(bands, key, more);
    let end = bands.len() - 1;
    if bands.len() == 0 || bands.last().0 < key {
        one_more_band(bands, (key, more), k, f);
    } else if bands.last().0 == key {
        let front = bands.drop_last();
        joined_contain(bands.last().1, more, f);
        one_more_band(front, (key, bands.last().1 + more), k, f);
        one_more_band(front, bands.last(), k, f);
        assert(front.push(bands.last()) =~= bands);
    } else {
        let front = bands.drop_last();
        merging_collects(front, key, more, k, f);
        one_more_band(crate::nl80211::with_fragment(front, key, more), bands.last(), k, f);
        one_more_band(front, bands.last(), k, f);
        assert(front.push(bands.last()) =~= bands);
    }
}

proof fn one_more_band(bands: BandsView, band: (u16, Seq<Frequency>), k: u16, f: Frequency)
    ensures
        collected(bands.push(band), k, f) <==> collected(bands, k, f) || (band.0 == k
            && band.1.contains(f)),
{
    let all = bands.push(band);
    if collected(bands, k, f) {
        let b = choose|b: int|
            0 <= b < bands.len() && (#[trigger] bands[b]).0 == k && bands[b].1.contains(f);
        assert(all[b].0 == k);
    }
    if band.0 == k && band.1.contains(f) {
        assert(all[bands.len() as int].0 == k);
    }
    if collected(all, k, f) {
        let b = choose|b: int|
            0 <= b < all.len() && (#[trigger] all[b]).0 == k && all[b].1.contains(f);
        if b < bands.len() {
            assert(bands[b].0 == k);
        }
    }
}

/// Whether one of several fragments is of a band and lists a frequency.
spec fn among(fragments: Seq<RawBandView>, k: u16, f: Frequency) -> bool {
    exists|i: int|
        0 <= i < fragments.len() && (#[trigger] fragments[i]).kind == k && lists(fragments[i], f)
}

proof fn merging_all_collects(bands: BandsView, fragments: Seq<RawBandView>, k: u16, f: Frequency)
    ensures
        collected(crate::nl80211::with_fragments(bands, fragments), k, f) <==> collected(
            bands,
            k,
            f,
        ) || among(fragments, k, f),
    decreases fragments.len(),
{
    if fragments.len() > 0 {
        let front = fragments.drop_last();
        let last = fragments.last();
        let end = fragments.len() - 1;
        merging_all_collects(bands, front, k, f);
        a_fragment_has_what_it_lists(last, f);
        merging_collects(
            crate::nl80211::with_fragments(bands, front),
            last.kind,
            crate::nl80211::frequencies_of(last.info),
            k,
            f,
        );
        if among(front, k, f) {
            let i = choose|i: int|
                0 <= i < front.len() && (#[trigger] front[i]).kind == k && lists(front[i], f);
            assert(fragments[i].kind == k);
        }
        if last.kind == k && lists(last, f) {
            assert(fragments[end].kind == k);
        }
        if among(fragments, k, f) {
            let i = choose|i: int|
                0 <= i < fragments.len() && (#[trigger] fragments[i]).kind == k && lists(
                    fragments[i],
                    f,
                );
            if i < end {
                assert(front[i].kind == k);
            }
        }
    }
}

/// Whether a message about a wiphy lists a frequency in a band of that number.
pub open spec fn message_lists(
    m: Seq<WiphyAttrView>,
    index: u32,
    number: u16,
    f: Frequency,
) -> bool {
    &&& is_about(m, index)
    &&& exists|k: int| #[trigger]
        last_at(m, holding_bands(), k) && (m[k] matches WiphyAttrView::WiphyBands(fragments)
            && exists|i: int|
            0 <= i < fragments.len() && (#[trigger] fragments[i]).kind == number && lists(
                fragments[i],
                f,
            ))
}

proof fn a_dump_collects(
    messages: Seq<Seq<WiphyAttrView>>,
    index: u32,
    number: u16,
    f: Frequency,
)
    ensures
        (crate::detect::phy_reported(messages, index) matches Some(phy) && collected(
            phy.bands,
            number,
            f,
        )) <==> exists|q: int|
            0 <= q < messages.len() && message_lists(#[trigger] messages[q], index, number, f),
    decreases messages.len(),
{
    if messages.len() > 0 {
        let front = messages.drop_last();
        let m = messages.last();
        let end = messages.len() - 1;
        assert(messages[end] == m);
        a_dump_collects(front, index, number, f);
        a_message_is_about_its_wiphy(m, index);
        let before: PhyView = match crate::detect::phy_reported(front, index) {
            Some(phy) => phy,
            None => crate::nl80211::unknown_phy(),
        };
        let pick = |a: WiphyAttrView| a.bands();
        last_is_last(m, pick, holding_bands());
        if let Some(fragments) = crate::nl80211::last_of(m, pick) {
            merging_all_collects(before.bands, fragments, number, f);
            let k = choose|k: int| #[trigger]
                last_at(m, holding_bands(), k) && pick(m[k]) == crate::nl80211::last_of(m, pick);
            assert(m[k] == WiphyAttrView::WiphyBands(fragments));
            if is_about(m, index) {
                if among(fragments, number, f) {
                    assert(message_lists(m, index, number, f));
                }
                if message_lists(m, index, number, f) {
                    let j = choose|j: int| #[trigger]
                        last_at(m, holding_bands(), j) && (m[j] matches WiphyAttrView::WiphyBands(
                            others,
                        ) && exists|i: int|
                            0 <= i < others.len() && (#[trigger] others[i]).kind == number
                                && lists(others[i], f));
                    assert(crate::nl80211::last_of(m, pick) == pick(m[j]));
                    assert(among(fragments, number, f));
                }
            }
        } else {
            assert(!message_lists(m, index, number, f)) by {
                if message_lists(m, index, number, f) {
                    let j = choose|j: int| #[trigger]
                        last_at(m, holding_bands(), j) && (m[j] matches WiphyAttrView::WiphyBands(
                            others,
                        ) && exists|i: int|
                            0 <= i < others.len() && (#[trigger] others[i]).kind == number
                                && lists(others[i], f));
                    assert(holding_bands()(m[j]));
                    assert(holds(m, holding_bands()));
                }
            }
        }
        if exists|q: int|
            0 <= q < front.len() && message_lists(#[trigger] front[q], index, number, f) {
            let q = choose|q: int|
                0 <= q < front.len() && message_lists(#[trigger] front[q], index, number, f);
            assert(messages[q] == front[q]);
        }
        if exists|q: int|
            0 <= q < messages.len() && message_lists(#[trigger] messages[q], index, number, f) {
            let q = choose|q: int|
                0 <= q < messages.len() && message_lists(#[trigger] messages[q], index, number, f);
            if q < end {
                assert(front[q] == messages[q]);
            }
        }
    }
}

/// Whether a device has a frequency in a band of that kind.
pub open spec fn has_frequency(bands: Seq<BandView>, kind: BandKind, f: Frequency) -> bool {
    exists|b: int|
        0 <= b < bands.len() && (#[trigger] bands[b]).kind == kind && bands[b].frequencies.contains(
            f,
        )
}

/// A device has a frequency in a band exactly when some message of the dump about its
/// wiphy lists it in a fragment of that band: whether it is disabled or subject to
/// radar, and which channel it is, goes by the facts listed of it. However the dump
/// is split, nothing is lost and nothing is added.
pub proof fn a_device_has_what_the_dump_lists(
    messages: Seq<Seq<WiphyAttrView>>,
    index: u32,
    kind: BandKind,
    f: Frequency,
)
    ensures
        has_frequency(crate::detect::caps_reported(messages, index).bands, kind, f) <==> exists|
            q: int,
            number: u16,
        |
            0 <= q < messages.len() && number_of(number, kind) && #[trigger] message_lists(
                messages[q],
                index,
                number,
                f,
            ),
{
    let bands = crate::detect::caps_reported(messages, index).bands;
    if has_frequency(bands, kind, f) {
        let b = choose|b: int|
            0 <= b < bands.len() && (#[trigger] bands[b]).kind == kind
                && bands[b].frequencies.contains(f);
        let phy = crate::detect::phy_reported(messages, index)->0;
        let number = phy.bands[b].0;
        assert(bands[b] == BandView {
            kind: crate::nl80211::band_of(number),
            frequencies: phy.bands[b].1,
        });
        assert(collected(phy.bands, number, f));
        a_dump_collects(messages, index, number, f);
        let q = choose|q: int|
            0 <= q < messages.len() && message_lists(#[trigger] messages[q], index, number, f);
        assert(number_of(number, kind));
        assert(message_lists(messages[q], index, number, f));
    }
    if exists|q: int, number: u16|
        0 <= q < messages.len() && number_of(number, kind) && #[trigger] message_lists(
            messages[q],
            index,
            number,
            f,
        ) {
        let (q, number) = choose|q: int, number: u16|
            0 <= q < messages.len() && number_of(number, kind) && #[trigger] message_lists(
                messages[q],
                index,
                number,
                f,
            );
        a_dump_collects(messages, index, number, f);
        let phy = crate::detect::phy_reported(messages, index)->0;
        let b = choose|b: int|
            0 <= b < phy.bands.len() && (#[trigger] phy.bands[b]).0 == number
                && phy.bands[b].1.contains(f);
        assert(bands[b] == BandView {
            kind: crate::nl80211::band_of(number),
            frequencies: phy.bands[b].1,
        });
        assert(bands[b].kind == kind);
    }
}

/// Every detected interface has the modes and the frequencies which the wiphy dump
/// gives its own wiphy.
pub proof fn a_detected_interface_has_its_devices_capabilities(
    replies: Seq<DetectReplyView>,
    found: Seq<InterfaceView>,
    i: int,
    kind: BandKind,
    f: Frequency,
)
    requires
        crate::program::outcome(crate::detect::detect_program(), replies) == Some(
            Ok::<Seq<InterfaceView>, ErrorView>(found),
        ),
        0 <= i < found.len(),
    ensures
        ({
            let messages = crate::detect_laws::wiphy_dump(replies);
            let index = found[i].phy_index;
            &&& has_frequency(found[i].bands, kind, f) <==> exists|q: int, number: u16|
                0 <= q < messages.len() && number_of(number, kind) && #[trigger] message_lists(
                    messages[q],
                    index,
                    number,
                    f,
                )
            &&& forall|q: int|
                0 <= q < messages.len() && lists_types_of(#[trigger] messages[q], index) && (forall|
                    later: int,
                |
                    q < later < messages.len() ==> !lists_types_of(
                        #[trigger] messages[later],
                        index,
                    )) ==> modes_listed_by(messages[q], found[i].supported_modes)
            &&& (forall|q: int|
                0 <= q < messages.len() ==> !lists_types_of(#[trigger] messages[q], index))
                ==> found[i].supported_modes.len() == 0
        }),
{
    let messages = crate::detect_laws::wiphy_dump(replies);
    crate::detect_laws::a_detection_joins(replies, found);
    a_device_has_what_the_dump_lists(messages, found[i].phy_index, kind, f);
    advertised_modes_are_the_listed_ones(messages, found[i].phy_index);
}

/// Messages that report an interface type.
pub open spec fn reporting_type() -> spec_fn(Seq<InterfaceAttrView>) -> bool {
    |m: Seq<InterfaceAttrView>| holds(m, typing())
}

/// A mode readback is the mode of the first interface type in the first message that
/// has one. Where none has, it is the error that ended the messages, or that there is
/// no such interface.
pub proof fn a_mode_is_read_from_the_first_type(
    index: u32,
    messages: Seq<Seq<InterfaceAttrView>>,
    end: Result<(), Seq<char>>,
)
    ensures
        forall|q: int, k: int|
            #[trigger] first_at(messages, reporting_type(), q) && #[trigger] first_at(
                messages[q],
                typing(),
                k,
            ) ==> (crate::nl80211::mode_readback(index, messages, end) matches Ok(mode) && type_of(
                messages[q][k]->IfType_0,
                mode,
            )),
        !holds(messages, reporting_type()) ==> crate::nl80211::mode_readback(index, messages, end)
            == Err::<InterfaceMode, ErrorView>(
            match end {
                Ok(u) => ErrorView::NotFound {
                    name: "if_index "@ + crate::text::decimal(index as nat),
                    available: ""@,
                },
                Err(source) => ErrorView::Linux(
                    LinuxErrorView::Dump { command: "get_interface"@, source },
                ),
            },
        ),
{
    let pick = |m: Seq<InterfaceAttrView>| crate::nl80211::mode_reported(m);
    let inner = |a: InterfaceAttrView| a.mode();
    assert forall|m: Seq<InterfaceAttrView>| #[trigger] reporting_type()(m) == (pick(m) is Some) by {
        first_is_first(m, inner, typing());
    }
    first_is_first(messages, pick, reporting_type());
    assert forall|q: int, k: int|
        #[trigger] first_at(messages, reporting_type(), q) && #[trigger] first_at(
            messages[q],
            typing(),
            k,
        ) implies (crate::nl80211::mode_readback(index, messages, end) matches Ok(mode) && type_of(
        messages[q][k]->IfType_0,
        mode,
    )) by {
        first_is_first(messages[q], inner, typing());
        assert(pick(messages[q]) == inner(messages[q][k]));
    }
}

/// Attributes that give a frequency.
pub open spec fn tuning_to() -> spec_fn(InterfaceAttrView) -> bool {
    |a: InterfaceAttrView| a is WiphyFreq
}

/// Attributes that give a width.
pub open spec fn widening() -> spec_fn(InterfaceAttrView) -> bool {
    |a: InterfaceAttrView| a is ChannelWidth
}

/// Attributes that give the centre of a segment.
pub open spec fn centering() -> spec_fn(InterfaceAttrView) -> bool {
    |a: InterfaceAttrView| a is CenterFreq1
}

/// The width in MHz of a reported width: with or without HT, 20 MHz is 20 MHz; two
/// segments are as wide as one of them; and one without a name has none.
pub open spec fn width_named(width: RawWidth, mhz: Option<u32>) -> bool {
    match width {
        RawWidth::NoHt20 => mhz == Some(20u32),
        RawWidth::Mhz80Plus80 => mhz == Some(80u32),
        RawWidth::Mhz(n) => mhz == Some(n),
        RawWidth::Other(v) => mhz is None,
    }
}

/// One message of a tuning readback fills in what it reports and leaves the rest: the
/// frequency, the width and the centre are each those of its last attribute of that
/// kind, or else what they were.
pub proof fn a_message_fills_in_what_it_reports(t: Tuning, m: Seq<InterfaceAttrView>)
    ensures
        ({
            let after = crate::nl80211::tuning_updated(t, m);
            &&& forall|k: int| #[trigger]
                last_at(m, tuning_to(), k) ==> after.freq_mhz == Some(m[k]->WiphyFreq_0)
            &&& !holds(m, tuning_to()) ==> after.freq_mhz == t.freq_mhz
            &&& forall|k: int| #[trigger]
                last_at(m, widening(), k) ==> width_named(m[k]->ChannelWidth_0, after.width_mhz)
            &&& !holds(m, widening()) ==> after.width_mhz == t.width_mhz
            &&& forall|k: int| #[trigger]
                last_at(m, centering(), k) ==> after.center_mhz == Some(m[k]->CenterFreq1_0)
            &&& !holds(m, centering()) ==> after.center_mhz == t.center_mhz
        }),
{
    last_is_last(m, |a: InterfaceAttrView| a.freq(), tuning_to());
    last_is_last(m, |a: InterfaceAttrView| a.width(), widening());
    last_is_last(m, |a: InterfaceAttrView| a.center(), centering());
}

/// A tuning readback starts from an interface that is not tuned and takes one message
/// after the other; that there is none means that there is no such interface, and a
/// failed one says why.
pub proof fn a_tuning_is_read_message_by_message(
    index: u32,
    messages: Seq<Seq<InterfaceAttrView>>,
    m: Seq<InterfaceAttrView>,
    source: Seq<char>,
)
    ensures
        crate::nl80211::tuning_readback(index, Err(source)) == Err::<Tuning, ErrorView>(
            ErrorView::Linux(LinuxErrorView::Dump { command: "get_interface"@, source }),
        ),
        crate::nl80211::tuning_readback(index, Ok(Seq::empty())) == Err::<Tuning, ErrorView>(
            ErrorView::NotFound {
                name: "if_index "@ + crate::text::decimal(index as nat),
                available: ""@,
            },
        ),
        crate::nl80211::tuning_readback(index, Ok(messages.push(m))) == Ok::<Tuning, ErrorView>(
            crate::nl80211::tuning_updated(
                match crate::nl80211::tuning_readback(index, Ok(messages)) {
                    Ok(t) => t,
                    Err(e) => Tuning { freq_mhz: None, width_mhz: None, center_mhz: None },
                },
                m,
            ),
        ),
{
    assert(messages.push(m).drop_last() =~= messages);
}

/// A join takes each fact from its own source: what identifies an interface from its
/// message, what its device can do from the device, and its driver and bus from its links,
/// if it has any.
pub proof fn a_join_takes_each_fact_from_its_source(
    raw: RawInterfaceView,
    caps: CapsView,
    links: Seq<LinksView>,
    i: int,
)
    ensures
        ({
            let f = crate::detect::joined_interface(raw, caps, crate::detect::links_at(links, i));
            &&& f.name == raw.name
            &&& f.index == raw.index
            &&& f.phy_index == raw.phy_index
            &&& f.mac == raw.mac
            &&& f.mode == raw.mode
            &&& f.ssid == raw.ssid
            &&& f.supported_modes == caps.supported_modes
            &&& f.bands == caps.bands
            &&& if 0 <= i < links.len() {
                f.driver == links[i].driver && subsystem_of(links[i].subsystem, f.bus)
            } else {
                f.driver is None && f.bus == BusKind::Other
            }
        }),
{
    reveal_strlit("usb");
    reveal_strlit("pci");
    assert("usb"@[0] != "pci"@[0]);
}

/// Of several entries for one device the last counts, and a device without an entry is
/// known to do nothing.
pub proof fn the_last_entry_of_a_device_counts(caps: Seq<(u32, PhyCaps)>, index: u32)
    ensures
        ({
            let r = crate::detect::caps_of(caps, index);
            &&& forall|k: int|
                0 <= k < caps.len() && (#[trigger] caps[k]).0 == index && (forall|j: int|
                    k < j < caps.len() ==> (#[trigger] caps[j]).0 != index) ==> r.supported_modes
                    == caps[k].1.supported_modes@ && r.bands == crate::interface::band_views(
                    caps[k].1.bands@,
                )
            &&& (forall|j: int| 0 <= j < caps.len() ==> (#[trigger] caps[j]).0 != index)
                ==> r.supported_modes.len() == 0 && r.bands.len() == 0
        }),
    decreases caps.len(),
{
    if caps.len() > 0 {
        let fewer = caps.drop_last();
        the_last_entry_of_a_device_counts(fewer, index);
        assert forall|k: int|
            0 <= k < caps.len() && (#[trigger] caps[k]).0 == index && (forall|j: int|
                k < j < caps.len() ==> (#[trigger] caps[j]).0 != index) implies ({
            let r = crate::detect::caps_of(caps, index);
            r.supported_modes == caps[k].1.supported_modes@ && r.bands
                == crate::interface::band_views(caps[k].1.bands@)
        }) by {
            if k < caps.len() - 1 {
                assert(caps[caps.len() - 1].0 != index);
                assert(fewer[k] == caps[k]);
            }
        }
    }
}

/// The directory of a device is among those of the wireless devices, and its name is `phy`
/// followed by the number of the device.
pub proof fn a_device_is_found_by_its_number(phy_index: u32)
    ensures
        ({
            let path = crate::detect::device_directory(phy_index);
            let before = "/sys/class/ieee80211/phy"@;
            let behind = "/device"@;
            let n = path.len() - before.len() - behind.len();
            &&& n > 0
            &&& path.take(before.len() as int) == before
            &&& path.skip(before.len() + n) == behind
            &&& crate::text_laws::numeral_value(path.subrange(before.len() as int, before.len() + n))
                == phy_index
        }),
{
    let path = crate::detect::device_directory(phy_index);
    let before = "/sys/class/ieee80211/phy"@;
    let behind = "/device"@;
    let number = crate::text::decimal(phy_index as nat);
    crate::text_laws::a_number_is_written_as_itself(phy_index as nat);
    let n = path.len() - before.len() - behind.len();
    assert(path.take(before.len() as int) =~= before);
    assert(path.skip(before.len() + n) =~= behind);
    assert(path.subrange(before.len() as int, before.len() + n) =~= number);
}

} // verus!
