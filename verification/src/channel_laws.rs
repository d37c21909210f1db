//! What channel numbers amount to, in MHz.

use vstd::prelude::*;

use crate::channel::BandScope;
use crate::errors::ErrorView;
use crate::interface::{BandKind, BandView, ChannelWidth, Frequency, InterfaceView};

verus! {

/// A channel number stands for a frequency exactly by one of the numbering plans:
/// 2407 MHz and five more per channel up to 13, and 2484 MHz for 14; 5000 MHz and
/// five more per channel; 5950 MHz and five more per channel, and 5935 MHz for 2.
pub proof fn channels_follow_the_numbering_plans(mhz: u32, n: u32)
    ensures
        crate::channel::channel_of(mhz as int) == Some(n) <==> {
            ||| 1 <= n <= 13 && mhz == 2407 + 5 * n
            ||| n == 14 && mhz == 2484
            ||| 1 <= n <= 179 && mhz == 5000 + 5 * n
            ||| 1 <= n <= 233 && mhz == 5950 + 5 * n
            ||| n == 2 && mhz == 5935
        },
{
}

/// Whether a band is searched: 6 GHz by the entry point for 6 GHz alone, and every
/// other band by the other one alone.
pub open spec fn searched(scope: BandScope, kind: BandKind) -> bool {
    match scope {
        BandScope::SixGhzOnly => kind is SixGhz,
        BandScope::ExceptSixGhz => !(kind is SixGhz),
    }
}

/// Whether a frequency of a device carries the channel number.
pub open spec fn at(bands: Seq<BandView>, b: int, f: int, channel: u32) -> bool {
    &&& 0 <= b < bands.len()
    &&& 0 <= f < bands[b].frequencies.len()
    &&& bands[b].frequencies[f].channel == Some(channel)
}

/// Whether a device has the channel at that frequency in a band that is searched, and
/// may use it.
pub open spec fn offered(
    bands: Seq<BandView>,
    channel: u32,
    scope: BandScope,
    mhz: u32,
) -> bool {
    exists|b: int, f: int| #[trigger]
        at(bands, b, f, channel) && searched(scope, bands[b].kind)
            && !bands[b].frequencies[f].disabled && bands[b].frequencies[f].mhz == mhz
}

/// Whether a device has the channel in a band that is searched, but may not use it.
pub open spec fn barred(bands: Seq<BandView>, channel: u32, scope: BandScope) -> bool {
    exists|b: int, f: int| #[trigger]
        at(bands, b, f, channel) && searched(scope, bands[b].kind)
            && bands[b].frequencies[f].disabled
}

proof fn offered_is_usable(bands: Seq<BandView>, channel: u32, scope: BandScope, mhz: u32)
    ensures
        crate::channel::usable_at(bands, channel, scope, mhz) == offered(
            bands,
            channel,
            scope,
            mhz,
        ),
        crate::channel::disabled_in_scope(bands, channel, scope) == barred(bands, channel, scope),
{
    assert forall|b: int, f: int| #[trigger]
        crate::channel::carries(bands, b, f, channel) == at(bands, b, f, channel) by {}
    if offered(bands, channel, scope, mhz) {
        let (b, f) = choose|b: int, f: int| #[trigger]
            at(bands, b, f, channel) && searched(scope, bands[b].kind)
                && !bands[b].frequencies[f].disabled && bands[b].frequencies[f].mhz == mhz;
        assert(crate::channel::carries(bands, b, f, channel));
    }
    if crate::channel::usable_at(bands, channel, scope, mhz) {
        let (b, f) = choose|b: int, f: int| #[trigger]
            crate::channel::carries(bands, b, f, channel) && scope.admits(bands[b].kind)
                && !bands[b].frequencies[f].disabled && bands[b].frequencies[f].mhz == mhz;
        assert(at(bands, b, f, channel));
    }
    if barred(bands, channel, scope) {
        let (b, f) = choose|b: int, f: int| #[trigger]
            at(bands, b, f, channel) && searched(scope, bands[b].kind)
                && bands[b].frequencies[f].disabled;
        assert(crate::channel::carries(bands, b, f, channel));
    }
    if crate::channel::disabled_in_scope(bands, channel, scope) {
        let (b, f) = choose|b: int, f: int| #[trigger]
            crate::channel::carries(bands, b, f, channel) && scope.admits(bands[b].kind)
                && bands[b].frequencies[f].disabled;
        assert(at(bands, b, f, channel));
    }
}

/// Which entry point searches what the other one does not.
pub open spec fn other_scope(scope: BandScope) -> BandScope {
    match scope {
        BandScope::SixGhzOnly => BandScope::ExceptSixGhz,
        BandScope::ExceptSixGhz => BandScope::SixGhzOnly,
    }
}

/// A channel resolves to a frequency exactly when the device may use it there, in a
/// band that is searched, and nowhere else in those. Otherwise the failure names the
/// channel and the interface and is one of four: it may be used at two frequencies;
/// it may be used in a band that the other entry point searches, which is named; the
/// device has it but may not use it; or the device does not have it.
pub proof fn a_channel_resolves_to_what_the_device_offers(
    iface: InterfaceView,
    channel: u32,
    scope: BandScope,
)
    ensures
        ({
            let r = crate::channel::resolved(iface, channel, scope);
            let bands = iface.bands;
            let name = iface.name;
            let twice = exists|m: u32, n: u32|
                m != n && #[trigger] offered(bands, channel, scope, m) && #[trigger] offered(
                    bands,
                    channel,
                    scope,
                    n,
                );
            let once = exists|m: u32| #[trigger] offered(bands, channel, scope, m);
            let elsewhere = exists|m: u32| #[trigger]
                offered(bands, channel, other_scope(scope), m);
            &&& r matches Ok(mhz) ==> offered(bands, channel, scope, mhz)
            &&& r is Ok <==> once && !twice
            &&& twice <==> r == Err::<u32, ErrorView>(
                ErrorView::AmbiguousChannel { channel, iface: name },
            )
            &&& !once && elsewhere <==> r == Err::<u32, ErrorView>(
                ErrorView::WrongBand {
                    channel,
                    iface: name,
                    alternative: match scope {
                        BandScope::ExceptSixGhz => "set_channel_6g"@,
                        BandScope::SixGhzOnly => "set_channel"@,
                    },
                },
            )
            &&& !once && !elsewhere && barred(bands, channel, scope) <==> r == Err::<u32, ErrorView>(
                ErrorView::ChannelDisabled { channel, iface: name },
            )
            &&& !once && !elsewhere && !barred(bands, channel, scope) <==> r == Err::<
                u32,
                ErrorView,
            >(ErrorView::ChannelUnavailable { channel, iface: name })
        }),
{
    let bands = iface.bands;
    assert forall|m: u32| #[trigger]
        offered(bands, channel, scope, m) == crate::channel::usable_at(bands, channel, scope, m) by {
        offered_is_usable(bands, channel, scope, m);
    }
    assert forall|m: u32| #[trigger]
        offered(bands, channel, other_scope(scope), m) == crate::channel::usable_at(
            bands,
            channel,
            scope.other(),
            m,
        ) by {
        offered_is_usable(bands, channel, other_scope(scope), m);
    }
    offered_is_usable(bands, channel, scope, 0);
    if crate::channel::ambiguous(bands, channel, scope) {
        let (m, n) = choose|m: u32, n: u32|
            m != n && crate::channel::usable_at(bands, channel, scope, m)
                && crate::channel::usable_at(bands, channel, scope, n);
        assert(offered(bands, channel, scope, m) && offered(bands, channel, scope, n));
    }
    if crate::channel::usable(bands, channel, scope) {
        let m = choose|m: u32| crate::channel::usable_at(bands, channel, scope, m);
        assert(offered(bands, channel, scope, m));
    }
    if crate::channel::usable(bands, channel, scope.other()) {
        let m = choose|m: u32| crate::channel::usable_at(bands, channel, scope.other(), m);
        assert(offered(bands, channel, other_scope(scope), m));
    }
}

/// A request names the centre of its segment 10 MHz to the side of the secondary
/// channel, above or below the primary one, and none at 20 MHz.
pub proof fn the_secondary_channel_is_on_its_side(freq_mhz: u32)
    ensures
        crate::channel::segment_center(freq_mhz, ChannelWidth::Mhz20) is None,
        freq_mhz + 10 <= u32::MAX ==> (crate::channel::segment_center(
            freq_mhz,
            ChannelWidth::Mhz40Above,
        ) matches Some(c) && c == freq_mhz + 10),
        freq_mhz >= 10 ==> (crate::channel::segment_center(
            freq_mhz,
            ChannelWidth::Mhz40Below,
        ) matches Some(c) && c == freq_mhz - 10),
        crate::channel::center_fits(freq_mhz, ChannelWidth::Mhz20),
        crate::channel::center_fits(freq_mhz, ChannelWidth::Mhz40Above) <==> freq_mhz + 10
            <= u32::MAX,
        crate::channel::center_fits(freq_mhz, ChannelWidth::Mhz40Below) <==> freq_mhz >= 10,
{
}

/// The frequencies of an interface are those of its bands, in the order of the bands
/// and of each band: band `b` contributes its own, behind those of the bands before.
pub proof fn the_frequencies_are_those_of_the_bands(iface: InterfaceView, f: Frequency)
    ensures
        iface.frequencies_up_to(iface.bands.len()).contains(f) <==> exists|b: int|
            0 <= b < iface.bands.len() && (#[trigger] iface.bands[b]).frequencies.contains(f),
        iface.frequencies_up_to(0).len() == 0,
        forall|b: nat|
            b < iface.bands.len() ==> #[trigger] iface.frequencies_up_to(b + 1)
                == iface.frequencies_up_to(b) + iface.bands[b as int].frequencies,
{
    frequencies_so_far(iface, iface.bands.len(), f);
}

proof fn frequencies_so_far(iface: InterfaceView, n: nat, f: Frequency)
    requires
        n <= iface.bands.len(),
    ensures
        iface.frequencies_up_to(n).contains(f) <==> exists|b: int|
            0 <= b < n && (#[trigger] iface.bands[b]).frequencies.contains(f),
    decreases n,
{
    if n > 0 {
        let m = (n - 1) as nat;
        frequencies_so_far(iface, m, f);
        crate::dump_laws::joined_contain(
            iface.frequencies_up_to(m),
            iface.bands[n - 1].frequencies,
            f,
        );
        if exists|b: int| 0 <= b < n && (#[trigger] iface.bands[b]).frequencies.contains(f) {
            let b = choose|b: int|
                0 <= b < n && (#[trigger] iface.bands[b]).frequencies.contains(f);
            if b < m {
                assert(iface.frequencies_up_to(m).contains(f));
            }
        }
        if iface.frequencies_up_to(m).contains(f) {
            let b = choose|b: int|
                0 <= b < m && (#[trigger] iface.bands[b]).frequencies.contains(f);
            assert(b < n);
        }
    }
}

} // verus!
