//! Channels: the map from frequencies to channel numbers, the resolution of a
//! channel number on a device, and the judgement of what a device reports after
//! it was tuned.

use vstd::prelude::*;

use crate::errors::{Error, ErrorView, FrequencyReadback, LinuxError, LinuxErrorView, WidthReadback};
use crate::interface::{BandKind, BandView, ChannelWidth, Frequency, InterfaceView, WirelessInterface};

verus! {

/// Which bands a channel number is resolved against.
///
/// 6 GHz numbering restarts at 1 and so reuses numbers of 2.4 and 5 GHz; a bare
/// number names one frequency only once 6 GHz is either the band searched or left
/// out.
#[derive(Debug, Clone, Copy, PartialEq, Eq, Structural)]
pub enum BandScope {
    /// Every band except 6 GHz.
    ExceptSixGhz,
    /// 6 GHz only.
    SixGhzOnly,
}

/// What an interface reports about the channel it sits on.
#[derive(Debug, Clone, Copy, PartialEq, Eq, Structural)]
pub struct Tuning {
    /// Primary center frequency in MHz.
    pub freq_mhz: Option<u32>,
    /// Channel width in MHz.
    pub width_mhz: Option<u32>,
    /// Segment center frequency in MHz.
    pub center_mhz: Option<u32>,
}

/// Whether a frequency is the center of a channel of the 2.4 GHz band.
pub open spec fn on_two_ghz_grid(mhz: int) -> bool {
    (2412 <= mhz <= 2472 && (mhz - 2407) % 5 == 0) || mhz == 2484
}

/// Whether a frequency is the center of a channel of the 5 GHz band.
pub open spec fn on_five_ghz_grid(mhz: int) -> bool {
    5005 <= mhz <= 5895 && (mhz - 5000) % 5 == 0
}

/// Whether a frequency is the center of a channel of the 6 GHz band.
pub open spec fn on_six_ghz_grid(mhz: int) -> bool {
    mhz == 5935 || (5955 <= mhz <= 7115 && (mhz - 5950) % 5 == 0)
}

/// The channel number of a center frequency, if it sits on a channel grid.
pub open spec fn channel_of(mhz: int) -> Option<u32> {
    if mhz == 2484 {
        Some(14)
    } else if on_two_ghz_grid(mhz) {
        Some(((mhz - 2407) / 5) as u32)
    } else if on_five_ghz_grid(mhz) {
        Some(((mhz - 5000) / 5) as u32)
    } else if mhz == 5935 {
        Some(2)
    } else if on_six_ghz_grid(mhz) {
        Some(((mhz - 5950) / 5) as u32)
    } else {
        None
    }
}

/// Map a center frequency in MHz to its IEEE channel number, if known.
#[must_use]
pub fn channel_from_mhz(mhz: u32) -> (r: Option<u32>)
    ensures
        r == channel_of(mhz as int),
{
    if mhz == 2484 {
        Some(14)
    } else if mhz == 5935 {
        Some(2)
    } else if 2412 <= mhz && mhz <= 2472 && (mhz - 2407) % 5 == 0 {
        Some((mhz - 2407) / 5)
    } else if 5005 <= mhz && mhz <= 5895 && (mhz - 5000) % 5 == 0 {
        Some((mhz - 5000) / 5)
    } else if 5955 <= mhz && mhz <= 7115 && (mhz - 5950) % 5 == 0 {
        Some((mhz - 5950) / 5)
    } else {
        None
    }
}

/// No frequency maps to channel zero, and a frequency maps to a channel exactly
/// when it sits on one of the three grids.
pub proof fn channels_exist_on_the_grids_only(mhz: u32)
    ensures
        channel_of(mhz as int) is Some <==> on_two_ghz_grid(mhz as int) || on_five_ghz_grid(
            mhz as int,
        ) || on_six_ghz_grid(mhz as int),
        channel_of(mhz as int) matches Some(c) ==> 1 <= c <= 233,
{
}

/// Within 2.4 GHz and the 5 GHz channels from 32 up, a channel number names one
/// frequency.
pub proof fn numbers_do_not_collide_below_six_ghz(a: u32, b: u32)
    requires
        on_two_ghz_grid(a as int) || (on_five_ghz_grid(a as int) && a >= 5160),
        on_two_ghz_grid(b as int) || (on_five_ghz_grid(b as int) && b >= 5160),
        channel_of(a as int) == channel_of(b as int),
    ensures
        a == b,
{
}

/// Within the linear 6 GHz grid the center frequency of channel `n` is
/// `5950 + 5 * n`, so a channel number names one frequency.
pub proof fn six_ghz_grid_is_linear(mhz: u32)
    requires
        on_six_ghz_grid(mhz as int),
        mhz != 5935,
    ensures
        channel_of(mhz as int) matches Some(n) && mhz == 5950 + 5 * n,
{
}

impl BandScope {
    /// Whether a band is searched under this scope.
    pub open spec fn admits(self, kind: BandKind) -> bool {
        (kind == BandKind::SixGhz) == (self == BandScope::SixGhzOnly)
    }

    /// The name of the entry point that searches the bands this scope leaves out.
    pub open spec fn other_entry(self) -> Seq<char> {
        match self {
            BandScope::ExceptSixGhz => "set_channel_6g"@,
            BandScope::SixGhzOnly => "set_channel"@,
        }
    }

    /// The scope that searches the bands this one leaves out.
    pub open spec fn other(self) -> BandScope {
        match self {
            BandScope::ExceptSixGhz => BandScope::SixGhzOnly,
            BandScope::SixGhzOnly => BandScope::ExceptSixGhz,
        }
    }

    /// Whether a band is searched under this scope.
    pub fn includes(self, kind: BandKind) -> (r: bool)
        ensures
            r == self.admits(kind),
    {
        match self {
            BandScope::ExceptSixGhz => kind != BandKind::SixGhz,
            BandScope::SixGhzOnly => kind == BandKind::SixGhz,
        }
    }

    /// The entry point that searches the bands this scope leaves out.
    pub fn alternative(self) -> (r: &'static str)
        ensures
            r@ == self.other_entry(),
    {
        match self {
            BandScope::ExceptSixGhz => "set_channel_6g",
            BandScope::SixGhzOnly => "set_channel",
        }
    }
}

/// Whether frequency `f` of band `b` carries the channel number.
pub open spec fn carries(bands: Seq<BandView>, b: int, f: int, channel: u32) -> bool {
    &&& 0 <= b < bands.len()
    &&& 0 <= f < bands[b].frequencies.len()
    &&& bands[b].frequencies[f].channel == Some(channel)
}

/// Whether the channel is present at `mhz` in a band the scope admits, and the
/// regulatory domain leaves it usable.
pub open spec fn usable_at(bands: Seq<BandView>, channel: u32, scope: BandScope, mhz: u32) -> bool {
    exists|b: int, f: int| #[trigger]
        carries(bands, b, f, channel) && scope.admits(bands[b].kind)
            && !bands[b].frequencies[f].disabled && bands[b].frequencies[f].mhz == mhz
}

/// Whether the channel is usable at some frequency under the scope.
pub open spec fn usable(bands: Seq<BandView>, channel: u32, scope: BandScope) -> bool {
    exists|mhz: u32| usable_at(bands, channel, scope, mhz)
}

/// Whether the channel is usable at two frequencies under the scope.
pub open spec fn ambiguous(bands: Seq<BandView>, channel: u32, scope: BandScope) -> bool {
    exists|m: u32, n: u32|
        m != n && usable_at(bands, channel, scope, m) && usable_at(bands, channel, scope, n)
}

/// Whether the channel is present in a band the scope admits, but disabled.
pub open spec fn disabled_in_scope(bands: Seq<BandView>, channel: u32, scope: BandScope) -> bool {
    exists|b: int, f: int| #[trigger]
        carries(bands, b, f, channel) && scope.admits(bands[b].kind)
            && bands[b].frequencies[f].disabled
}

/// The frequency a channel number stands for on a device, under a scope, or why
/// it stands for none. The reasons are ordered by how much the caller can do
/// about them: a band that the other entry point reaches, then a setting of the
/// regulatory domain, then a limit of the hardware.
pub open spec fn resolved(iface: InterfaceView, channel: u32, scope: BandScope) -> Result<
    u32,
    ErrorView,
> {
    if ambiguous(iface.bands, channel, scope) {
        Err(ErrorView::AmbiguousChannel { channel, iface: iface.name })
    } else if usable(iface.bands, channel, scope) {
        Ok(choose|mhz: u32| usable_at(iface.bands, channel, scope, mhz))
    } else if usable(iface.bands, channel, scope.other()) {
        Err(
            ErrorView::WrongBand { channel, iface: iface.name, alternative: scope.other_entry() },
        )
    } else if disabled_in_scope(iface.bands, channel, scope) {
        Err(ErrorView::ChannelDisabled { channel, iface: iface.name })
    } else {
        Err(ErrorView::ChannelUnavailable { channel, iface: iface.name })
    }
}

/// What a search over the bands has found so far.
struct Search {
    /// A usable frequency, if one was found.
    found: Option<u32>,
    /// Whether a second, different one was found.
    second: bool,
    /// Whether the channel is usable in a band outside the scope.
    elsewhere: bool,
    /// Whether the channel is present in scope but disabled.
    disabled: bool,
}

impl Search {
    /// Whether the result is right for the places seen so far.
    spec fn sound(
        self,
        bands: Seq<BandView>,
        channel: u32,
        scope: BandScope,
        seen: spec_fn(int, int) -> bool,
    ) -> bool {
        &&& self.found matches Some(m) ==> usable_at(bands, channel, scope, m)
        &&& self.second ==> ambiguous(bands, channel, scope)
        &&& self.elsewhere ==> usable(bands, channel, scope.other())
        &&& self.disabled ==> disabled_in_scope(bands, channel, scope)
        &&& forall|b: int, f: int| #[trigger] carries(bands, b, f, channel) && seen(b, f) ==> {
            let freq = bands[b].frequencies[f];
            if !scope.admits(bands[b].kind) {
                !freq.disabled ==> self.elsewhere
            } else if freq.disabled {
                self.disabled
            } else {
                self.second || self.found == Some(freq.mhz)
            }
        }
    }

    /// Take one more frequency into account.
    fn note(&mut self, freq: &Frequency, kind: BandKind, channel: u32, scope: BandScope)
        ensures
            freq.channel != Some(channel) ==> *final(self) == *old(self),
            freq.channel == Some(channel) && !scope.admits(kind) ==> *final(self) == (Search {
                elsewhere: old(self).elsewhere || !freq.disabled,
                ..*old(self)
            }),
            freq.channel == Some(channel) && scope.admits(kind) && freq.disabled ==> *final(self)
                == (Search { disabled: true, ..*old(self) }),
            freq.channel == Some(channel) && scope.admits(kind) && !freq.disabled ==> *final(self)
                == (match old(self).found {
                None => Search { found: Some(freq.mhz), ..*old(self) },
                Some(m) => Search { second: old(self).second || m != freq.mhz, ..*old(self) },
            }),
    {
        let carried = match freq.channel {
            Some(c) => c == channel,
            None => false,
        };
        if !carried {
            return;
        }
        if !scope.includes(kind) {
            if !freq.disabled {
                self.elsewhere = true;
            }
        } else if freq.disabled {
            self.disabled = true;
        } else {
            match self.found {
                None => {
                    self.found = Some(freq.mhz);
                },
                Some(m) => {
                    if m != freq.mhz {
                        self.second = true;
                    }
                },
            }
        }
    }
}

/// Resolve a channel number to the device's actual center frequency in MHz,
/// searching only the bands the device supports and the scope admits.
pub fn resolve_frequency(iface: &WirelessInterface, channel: u32, scope: BandScope) -> (r: Result<
    u32,
    Error,
>)
    ensures
        match r {
            Ok(mhz) => resolved(iface@, channel, scope) == Ok::<u32, ErrorView>(mhz),
            Err(e) => resolved(iface@, channel, scope) == Err::<u32, ErrorView>(e@),
        },
{
    let ghost bands = iface@.bands;
    let mut search = Search { found: None, second: false, elsewhere: false, disabled: false };
    let mut b: usize = 0;
    while b < iface.bands.len()
        invariant
            b <= iface.bands.len(),
            bands == iface@.bands,
            search.sound(bands, channel, scope, |i: int, j: int| i < b),
        decreases iface.bands.len() - b,
    {
        let band = &iface.bands[b];
        assert(bands[b as int] == band@);
        let mut f: usize = 0;
        while f < band.frequencies.len()
            invariant
                b < iface.bands.len(),
                f <= band.frequencies.len(),
                bands == iface@.bands,
                bands[b as int] == band@,
                search.sound(bands, channel, scope, |i: int, j: int| i < b || (i == b && j < f)),
            decreases band.frequencies.len() - f,
        {
            let ghost before = search;
            search.note(&band.frequencies[f], band.kind, channel, scope);
            proof {
                let freq = band.frequencies@[f as int];
                if freq.channel == Some(channel) {
                    assert(carries(bands, b as int, f as int, channel));
                    if scope.admits(band.kind) && !freq.disabled {
                        assert(usable_at(bands, channel, scope, freq.mhz));
                    }
                    if !scope.admits(band.kind) && !freq.disabled {
                        assert(usable_at(bands, channel, scope.other(), freq.mhz));
                    }
                }
            }
            f += 1;
        }
        b += 1;
    }
    proof {
        assert forall|m: u32| usable_at(bands, channel, scope, m) implies search.second
            || search.found == Some(m) by {
            let (i, j) = choose|i: int, j: int| #[trigger]
                carries(bands, i, j, channel) && scope.admits(bands[i].kind)
                    && !bands[i].frequencies[j].disabled && bands[i].frequencies[j].mhz == m;
            assert(carries(bands, i, j, channel));
        }
        assert forall|m: u32| usable_at(bands, channel, scope.other(), m) implies search.elsewhere by {
            let (i, j) = choose|i: int, j: int| #[trigger]
                carries(bands, i, j, channel) && scope.other().admits(bands[i].kind)
                    && !bands[i].frequencies[j].disabled && bands[i].frequencies[j].mhz == m;
            assert(carries(bands, i, j, channel));
        }
    }
    if search.second {
        return Err(Error::AmbiguousChannel { channel, iface: iface.name.clone() });
    }
    match search.found {
        Some(mhz) => Ok(mhz),
        None => if search.elsewhere {
            Err(
                Error::WrongBand {
                    channel,
                    iface: iface.name.clone(),
                    alternative: scope.alternative(),
                },
            )
        } else if search.disabled {
            Err(Error::ChannelDisabled { channel, iface: iface.name.clone() })
        } else {
            Err(Error::ChannelUnavailable { channel, iface: iface.name.clone() })
        },
    }
}

/// A channel that resolves does so to a frequency that is usable under the scope,
/// and to the only one.
pub proof fn resolution_is_unique(iface: InterfaceView, channel: u32, scope: BandScope, mhz: u32)
    ensures
        resolved(iface, channel, scope) == Ok::<u32, ErrorView>(mhz) <==> (usable_at(
            iface.bands,
            channel,
            scope,
            mhz,
        ) && forall|m: u32| usable_at(iface.bands, channel, scope, m) ==> m == mhz),
{
}

/// Whether every frequency in a band that the scope admits stands under its own
/// channel number, on a part of the grids where numbers do not collide: 2.4 GHz and
/// the 5 GHz channels from 32 up, or the linear 6 GHz grid.
pub open spec fn free_of_collisions(bands: Seq<BandView>, scope: BandScope) -> bool {
    forall|b: int, f: int|
        0 <= b < bands.len() && 0 <= f < bands[b].frequencies.len() && scope.admits(bands[b].kind)
            ==> {
            let mhz = (#[trigger] bands[b].frequencies[f]).mhz as int;
            &&& bands[b].frequencies[f].channel == channel_of(mhz)
            &&& match scope {
                BandScope::ExceptSixGhz => on_two_ghz_grid(mhz) || (on_five_ghz_grid(mhz) && mhz
                    >= 5160),
                BandScope::SixGhzOnly => on_six_ghz_grid(mhz) && mhz != 5935,
            }
        }
}

/// Once the entry point has fixed the scope, a channel number is never ambiguous on
/// a device whose frequencies are free of collisions there.
pub proof fn a_scope_settles_the_channel(iface: InterfaceView, channel: u32, scope: BandScope)
    requires
        free_of_collisions(iface.bands, scope),
    ensures
        !(resolved(iface, channel, scope) matches Err(ErrorView::AmbiguousChannel { .. })),
{
    assert forall|m: u32, n: u32|
        usable_at(iface.bands, channel, scope, m) && usable_at(
            iface.bands,
            channel,
            scope,
            n,
        ) implies m == n by {
        let (b, f) = choose|b: int, f: int| #[trigger]
            carries(iface.bands, b, f, channel) && scope.admits(iface.bands[b].kind)
                && !iface.bands[b].frequencies[f].disabled && iface.bands[b].frequencies[f].mhz
                == m;
        let (c, g) = choose|c: int, g: int| #[trigger]
            carries(iface.bands, c, g, channel) && scope.admits(iface.bands[c].kind)
                && !iface.bands[c].frequencies[g].disabled && iface.bands[c].frequencies[g].mhz
                == n;
        assert(channel_of(iface.bands[b].frequencies[f].mhz as int) == Some(channel));
        assert(channel_of(iface.bands[c].frequencies[g].mhz as int) == Some(channel));
        match scope {
            BandScope::ExceptSixGhz => {
                numbers_do_not_collide_below_six_ghz(m, n);
            },
            BandScope::SixGhzOnly => {
                six_ghz_grid_is_linear(m);
                six_ghz_grid_is_linear(n);
            },
        }
    }
}

/// A refusal that points at the other entry point points at one that finds the
/// channel: there it resolves, or is found more than once.
pub proof fn redirection_finds_the_channel(iface: InterfaceView, channel: u32, scope: BandScope)
    requires
        resolved(iface, channel, scope) matches Err(ErrorView::WrongBand { .. }),
    ensures
        match resolved(iface, channel, scope.other()) {
            Ok(mhz) => true,
            Err(e) => e == (ErrorView::AmbiguousChannel { channel, iface: iface.name }),
        },
{
}

/// What one scope resolves a channel to does not depend on the bands that only
/// the other scope searches: two devices that agree on every band the scope
/// admits resolve a channel to the same frequency, or both to none.
pub proof fn scopes_are_independent(
    a: InterfaceView,
    b: InterfaceView,
    channel: u32,
    scope: BandScope,
)
    requires
        a.bands.len() == b.bands.len(),
        forall|i: int|
            0 <= i < a.bands.len() ==> (#[trigger] a.bands[i]).kind == b.bands[i].kind && (
            scope.admits(a.bands[i].kind) ==> a.bands[i] == b.bands[i]),
    ensures
        resolved(a, channel, scope) is Ok <==> resolved(b, channel, scope) is Ok,
        resolved(a, channel, scope) is Ok ==> resolved(a, channel, scope) == resolved(
            b,
            channel,
            scope,
        ),
{
    assert forall|mhz: u32|
        usable_at(a.bands, channel, scope, mhz) == usable_at(b.bands, channel, scope, mhz) by {
        if usable_at(a.bands, channel, scope, mhz) {
            let (i, f) = choose|i: int, f: int| #[trigger]
                carries(a.bands, i, f, channel) && scope.admits(a.bands[i].kind)
                    && !a.bands[i].frequencies[f].disabled && a.bands[i].frequencies[f].mhz == mhz;
            assert(carries(b.bands, i, f, channel));
        }
        if usable_at(b.bands, channel, scope, mhz) {
            let (i, f) = choose|i: int, f: int| #[trigger]
                carries(b.bands, i, f, channel) && scope.admits(b.bands[i].kind)
                    && !b.bands[i].frequencies[f].disabled && b.bands[i].frequencies[f].mhz == mhz;
            assert(a.bands[i].kind == b.bands[i].kind);
            assert(carries(a.bands, i, f, channel));
        }
    }
    if let Ok(m) = resolved(a, channel, scope) {
        resolution_is_unique(a, channel, scope, m);
        resolution_is_unique(b, channel, scope, m);
    }
    if let Ok(m) = resolved(b, channel, scope) {
        resolution_is_unique(a, channel, scope, m);
        resolution_is_unique(b, channel, scope, m);
    }
}

/// What a reported width and segment centre amount to, for a primary frequency.
/// 40 MHz is only half described by the width: which side the secondary channel
/// sits on is carried by the centre, 10 MHz above or below the primary.
pub open spec fn width_readback(actual: Tuning, primary_mhz: u32) -> WidthReadback {
    match actual.width_mhz {
        None => WidthReadback::Unreported,
        Some(20) => WidthReadback::Known(ChannelWidth::Mhz20),
        Some(40) => match actual.center_mhz {
            Some(center) => if center == primary_mhz + 10 {
                WidthReadback::Known(ChannelWidth::Mhz40Above)
            } else if center == primary_mhz - 10 {
                WidthReadback::Known(ChannelWidth::Mhz40Below)
            } else {
                WidthReadback::Misaligned { center_mhz: Some(center) }
            },
            None => WidthReadback::Misaligned { center_mhz: None },
        },
        Some(mhz) => WidthReadback::Other { mhz },
    }
}

/// Interpret a readback against the primary frequency it was taken at.
pub fn classify_width(actual: Tuning, primary_mhz: u32) -> (r: WidthReadback)
    ensures
        r == width_readback(actual, primary_mhz),
{
    match actual.width_mhz {
        None => WidthReadback::Unreported,
        Some(mhz) => if mhz == 20 {
            WidthReadback::Known(ChannelWidth::Mhz20)
        } else if mhz == 40 {
            match actual.center_mhz {
                Some(center) => {
                    // Compared by differences, so that no sum can overflow.
                    if center >= primary_mhz && center - primary_mhz == 10 {
                        WidthReadback::Known(ChannelWidth::Mhz40Above)
                    } else if primary_mhz >= center && primary_mhz - center == 10 {
                        WidthReadback::Known(ChannelWidth::Mhz40Below)
                    } else {
                        WidthReadback::Misaligned { center_mhz: Some(center) }
                    }
                },
                None => WidthReadback::Misaligned { center_mhz: None },
            }
        } else {
            WidthReadback::Other { mhz }
        },
    }
}

impl Tuning {
    /// An interface that sits on no channel.
    pub fn untuned() -> (t: Tuning)
        ensures
            t == (Tuning { freq_mhz: None, width_mhz: None, center_mhz: None }),
    {
        Tuning { freq_mhz: None, width_mhz: None, center_mhz: None }
    }

    /// The channel number the readback stands for, if it is tuned to one.
    pub open spec fn channel_number(self) -> Option<u32> {
        match self.freq_mhz {
            Some(mhz) => channel_of(mhz as int),
            None => None,
        }
    }

    /// The width the readback stands for, if it is tuned to one that this library
    /// requests.
    pub open spec fn requested_width(self) -> Option<ChannelWidth> {
        match self.freq_mhz {
            Some(mhz) => match width_readback(self, mhz) {
                WidthReadback::Known(width) => Some(width),
                _ => None,
            },
            None => None,
        }
    }

    /// Whether the interface sits on a frequency at all.
    #[must_use]
    pub fn is_tuned(&self) -> (r: bool)
        ensures
            r == (self.freq_mhz is Some),
    {
        self.freq_mhz.is_some()
    }

    /// The channel number, or `None` if the interface is not tuned or sits off
    /// the recognised channel grids.
    #[must_use]
    pub fn channel(&self) -> (r: Option<u32>)
        ensures
            r == self.channel_number(),
    {
        match self.freq_mhz {
            Some(mhz) => channel_from_mhz(mhz),
            None => None,
        }
    }

    /// The primary center frequency in MHz.
    #[must_use]
    pub fn frequency_mhz(&self) -> (r: Option<u32>)
        ensures
            r == self.freq_mhz,
    {
        self.freq_mhz
    }

    /// The reported channel width in MHz.
    #[must_use]
    pub fn width_mhz(&self) -> (r: Option<u32>)
        ensures
            r == self.width_mhz,
    {
        self.width_mhz
    }

    /// The reported segment center in MHz.
    #[must_use]
    pub fn center_mhz(&self) -> (r: Option<u32>)
        ensures
            r == self.center_mhz,
    {
        self.center_mhz
    }

    /// The channel width, or `None` if the interface is not tuned or reports a
    /// width this library never requests.
    #[must_use]
    pub fn width(&self) -> (r: Option<ChannelWidth>)
        ensures
            r == self.requested_width(),
    {
        match self.freq_mhz {
            Some(mhz) => match classify_width(*self, mhz) {
                WidthReadback::Known(width) => Some(width),
                _ => None,
            },
            None => None,
        }
    }
}

/// What a readback after a set amounts to: nothing wrong, the wrong frequency, or
/// the right frequency at the wrong width.
pub open spec fn tuning_verdict(
    iface: Seq<char>,
    freq_mhz: u32,
    width: ChannelWidth,
    actual: Tuning,
) -> Result<(), ErrorView> {
    if actual.freq_mhz != Some(freq_mhz) {
        Err(
            ErrorView::Linux(
                LinuxErrorView::ChannelVerifyFailed {
                    iface,
                    requested_mhz: freq_mhz,
                    actual: match actual.freq_mhz {
                        Some(mhz) => FrequencyReadback::Mhz(mhz),
                        None => FrequencyReadback::Unreported,
                    },
                },
            ),
        )
    } else if width_readback(actual, freq_mhz) != WidthReadback::Known(width) {
        Err(
            ErrorView::Linux(
                LinuxErrorView::WidthVerifyFailed {
                    iface,
                    primary_mhz: freq_mhz,
                    requested: width,
                    actual: width_readback(actual, freq_mhz),
                },
            ),
        )
    } else {
        Ok(())
    }
}

/// Judge a readback against the tuning that was requested. The frequency comes
/// first: on the wrong one, nothing else about the readback means anything.
pub fn verify_tuning(iface: &str, freq_mhz: u32, width: ChannelWidth, actual: Tuning) -> (r: Result<
    (),
    Error,
>)
    ensures
        crate::errors::unit_result(r) == tuning_verdict(iface@, freq_mhz, width, actual),
{
    let landed = match actual.freq_mhz {
        Some(mhz) => mhz == freq_mhz,
        None => false,
    };
    if !landed {
        return Err(
            Error::Linux(
                LinuxError::ChannelVerifyFailed {
                    iface: iface.to_owned(),
                    requested_mhz: freq_mhz,
                    actual: FrequencyReadback::from(actual.freq_mhz),
                },
            ),
        );
    }
    let observed = classify_width(actual, freq_mhz);
    if observed != WidthReadback::Known(width) {
        return Err(
            Error::Linux(
                LinuxError::WidthVerifyFailed {
                    iface: iface.to_owned(),
                    primary_mhz: freq_mhz,
                    requested: width,
                    actual: observed,
                },
            ),
        );
    }
    Ok(())
}

/// The width in MHz that a request for `width` puts on the air.
pub open spec fn width_in_mhz(width: ChannelWidth) -> u32 {
    match width {
        ChannelWidth::Mhz20 => 20,
        _ => 40,
    }
}

/// The segment centre that a request for `width` at `freq_mhz` names, if it
/// names one: 10 MHz to the side of the secondary channel.
pub open spec fn segment_center(freq_mhz: u32, width: ChannelWidth) -> Option<u32> {
    match width {
        ChannelWidth::Mhz20 => None,
        ChannelWidth::Mhz40Above => Some((freq_mhz + 10) as u32),
        ChannelWidth::Mhz40Below => Some((freq_mhz - 10) as u32),
    }
}

/// Whether the segment centre of a request is a frequency at all.
pub open spec fn center_fits(freq_mhz: u32, width: ChannelWidth) -> bool {
    match width {
        ChannelWidth::Mhz20 => true,
        ChannelWidth::Mhz40Above => freq_mhz + 10 <= u32::MAX,
        ChannelWidth::Mhz40Below => freq_mhz >= 10,
    }
}

/// A driver that reports back exactly what was requested passes the judgement,
/// and the readback names the requested frequency and width. At 20 MHz the
/// segment centre carries no information, so whatever is reported there is fine.
pub proof fn an_honoured_request_reads_back(
    iface: Seq<char>,
    freq_mhz: u32,
    width: ChannelWidth,
    center_mhz: Option<u32>,
)
    requires
        center_fits(freq_mhz, width),
        width != ChannelWidth::Mhz20 ==> center_mhz == segment_center(freq_mhz, width),
    ensures
        ({
            let honoured = Tuning {
                freq_mhz: Some(freq_mhz),
                width_mhz: Some(width_in_mhz(width)),
                center_mhz,
            };
            &&& tuning_verdict(iface, freq_mhz, width, honoured) is Ok
            &&& honoured.requested_width() == Some(width)
            &&& honoured.channel_number() == channel_of(freq_mhz as int)
        }),
{
}

/// A readback passes for at most one frequency and width: a tuning that was
/// confirmed is the one that was asked for.
pub proof fn a_confirmed_tuning_is_the_requested_one(
    iface: Seq<char>,
    freq_mhz: u32,
    width: ChannelWidth,
    actual: Tuning,
)
    ensures
        tuning_verdict(iface, freq_mhz, width, actual) is Ok <==> actual.freq_mhz == Some(freq_mhz)
            && actual.requested_width() == Some(width),
{
}

} // verus!
