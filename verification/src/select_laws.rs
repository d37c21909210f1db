//! What selection amounts to, in terms of what was detected.

use vstd::prelude::*;

use crate::errors::ErrorView;
use crate::interface::{BandKind, BandView, BusKind, InterfaceMode, InterfaceView};

verus! {

/// Whether a character is the given small letter, digit or sign, or its capital.
pub open spec fn same_letter(c: char, small: char) -> bool {
    c == small || ('A' <= c <= 'Z' && c as u32 + 32 == small as u32)
}

/// Whether a fragment stands in a driver name at `i`, whatever the capitals there.
pub open spec fn names_family_at(driver: Seq<char>, token: Seq<char>, i: int) -> bool {
    &&& 0 <= i <= driver.len() - token.len()
    &&& forall|k: int| 0 <= k < token.len() ==> same_letter(#[trigger] driver[i + k], token[k])
}

/// Whether a fragment stands in a driver name, whatever the capitals there.
pub open spec fn names_family(driver: Seq<char>, token: Seq<char>) -> bool {
    exists|i: int| #[trigger] names_family_at(driver, token, i)
}

/// Whether a text has no capitals.
spec fn without_capitals(s: Seq<char>) -> bool {
    forall|k: int| 0 <= k < s.len() ==> !('A' <= #[trigger] s[k] <= 'Z')
}

proof fn lowered_letter(c: char, small: char)
    requires
        !('A' <= small <= 'Z'),
    ensures
        crate::text::ascii_lower(c) == small <==> same_letter(c, small),
{
    if 'A' <= c <= 'Z' {
        let low = (c as u32 + 32) as char;
        assert(low as u32 == c as u32 + 32);
    }
}

/// A fragment without capitals occurs in the lowered name where it stands in the
/// name, whatever the capitals there.
proof fn occurrence_ignores_capitals(driver: Seq<char>, token: Seq<char>)
    requires
        without_capitals(token),
    ensures
        crate::text::occurs_in(token, crate::text::lowered(driver)) == names_family(driver, token),
{
    let low = crate::text::lowered(driver);
    assert forall|i: int| crate::text::stands_at(token, low, i) == #[trigger] names_family_at(
        driver,
        token,
        i,
    ) by {
        if 0 <= i <= driver.len() - token.len() {
            let window = low.subrange(i, i + token.len());
            assert forall|k: int| 0 <= k < token.len() implies (window[k] == #[trigger] token[k])
                == same_letter(driver[i + k], token[k]) by {
                assert(window[k] == crate::text::ascii_lower(driver[i + k]));
                lowered_letter(driver[i + k], token[k]);
            }
            if names_family_at(driver, token, i) {
                assert forall|k: int| 0 <= k < token.len() implies window[k] == #[trigger] token[k] by {
                    assert(same_letter(driver[i + k], token[k]));
                }
                assert(window =~= token);
            }
            if window == token {
                assert forall|k: int| 0 <= k < token.len() implies same_letter(
                    #[trigger] driver[i + k],
                    token[k],
                ) by {
                    assert(window[k] == token[k]);
                }
            }
        }
    }
    if names_family(driver, token) {
        let i = choose|i: int| #[trigger] names_family_at(driver, token, i);
        assert(crate::text::stands_at(token, low, i));
    }
    if crate::text::occurs_in(token, low) {
        let i = choose|i: int| crate::text::stands_at(token, low, i);
        assert(names_family_at(driver, token, i));
    }
}

/// The fragments by which a driver family is known, as they are.
pub open spec fn families() -> Seq<Seq<char>> {
    seq![
        "ath9k"@,
        "carl9170"@,
        "rtl8187"@,
        "rtl8821"@,
        "8812au"@,
        "88xxau"@,
        "8814au"@,
        "8821au"@,
        "rt2800usb"@,
        "rt2800pci"@,
        "rt73usb"@,
        "rt2500usb"@,
        "mt7921u"@,
        "mt76"@,
    ]
}

proof fn families_have_no_capitals(t: int)
    requires
        0 <= t < 14,
    ensures
        without_capitals(families()[t]),
{
    reveal_strlit("ath9k");
    reveal_strlit("carl9170");
    reveal_strlit("rtl8187");
    reveal_strlit("rtl8821");
    reveal_strlit("8812au");
    reveal_strlit("88xxau");
    reveal_strlit("8814au");
    reveal_strlit("8821au");
    reveal_strlit("rt2800usb");
    reveal_strlit("rt2800pci");
    reveal_strlit("rt73usb");
    reveal_strlit("rt2500usb");
    reveal_strlit("mt7921u");
    reveal_strlit("mt76");
}

/// A driver is a known one exactly when its name, whatever its capitals, holds one
/// of the fragments, wherever it stands in the table.
pub proof fn a_driver_is_known_by_its_family(driver: Seq<char>)
    ensures
        crate::interface::known_driver(driver) <==> exists|t: int|
            0 <= t < families().len() && names_family(driver, #[trigger] families()[t]),
        forall|t: int|
            0 <= t < crate::interface::MONITOR_DRIVER_TOKENS@.len() && names_family(
                driver,
                #[trigger] crate::interface::MONITOR_DRIVER_TOKENS@[t]@,
            ) ==> crate::interface::known_driver(driver),
{
    let tokens = crate::interface::MONITOR_DRIVER_TOKENS@;
    assert(tokens.len() == 14);
    assert forall|t: int| 0 <= t < 14 implies #[trigger] tokens[t]@ == families()[t]
        && crate::text::occurs_in(tokens[t]@, crate::text::lowered(driver)) == names_family(
        driver,
        tokens[t]@,
    ) by {
        families_have_no_capitals(t);
        occurrence_ignores_capitals(driver, families()[t]);
    }
    if crate::interface::known_driver(driver) {
        let t = choose|t: int|
            0 <= t < tokens.len() && crate::text::occurs_in(
                #[trigger] tokens[t]@,
                crate::text::lowered(driver),
            );
        assert(names_family(driver, families()[t]));
    }
    if exists|t: int| 0 <= t < families().len() && names_family(driver, #[trigger] families()[t]) {
        let t = choose|t: int|
            0 <= t < families().len() && names_family(driver, #[trigger] families()[t]);
        assert(crate::text::occurs_in(tokens[t]@, crate::text::lowered(driver)));
    }
}

/// Whether the driver of an interface is of a family that is known.
pub open spec fn of_a_family(i: InterfaceView) -> bool {
    i.driver matches Some(driver) && exists|t: int|
        0 <= t < families().len() && names_family(driver, #[trigger] families()[t])
}

/// Monitor mode is worth trying exactly on a device that advertises it, or whose
/// driver is of a known family though it does not.
pub proof fn plausible_means_advertised_or_known(i: InterfaceView)
    ensures
        i.plausible() <==> i.supported_modes.contains(InterfaceMode::Monitor) || of_a_family(i),
{
    if let Some(driver) = i.driver {
        a_driver_is_known_by_its_family(driver);
    }
}

/// What each trait counts for: two interfaces that differ in it alone differ by
/// that much in score, and one that has none of them scores nothing.
pub proof fn each_trait_counts_for_itself(
    i: InterfaceView,
    known: Seq<char>,
    unknown: Option<Seq<char>>,
    with_monitor: Seq<InterfaceMode>,
    without_monitor: Seq<InterfaceMode>,
    with_five: Seq<BandView>,
    without_five: Seq<BandView>,
    ssid: Seq<char>,
)
    requires
        of_a_family(InterfaceView { driver: Some(known), ..i }),
        !of_a_family(InterfaceView { driver: unknown, ..i }),
        with_monitor.contains(InterfaceMode::Monitor),
        !without_monitor.contains(InterfaceMode::Monitor),
        exists|b: int| 0 <= b < with_five.len() && (#[trigger] with_five[b]).kind == BandKind::FiveGhz,
        forall|b: int|
            0 <= b < without_five.len() ==> (#[trigger] without_five[b]).kind != BandKind::FiveGhz,
    ensures
        (InterfaceView { driver: Some(known), ..i }).score() == (InterfaceView {
            driver: unknown,
            ..i
        }).score() + 40,
        (InterfaceView { bus: BusKind::Usb, ..i }).score() == (InterfaceView {
            bus: BusKind::Pci,
            ..i
        }).score() + 30,
        (InterfaceView { bus: BusKind::Other, ..i }).score() == (InterfaceView {
            bus: BusKind::Pci,
            ..i
        }).score() + 5,
        (InterfaceView { supported_modes: with_monitor, ..i }).score() == (InterfaceView {
            supported_modes: without_monitor,
            ..i
        }).score() + 20,
        (InterfaceView { bands: with_five, ..i }).score() == (InterfaceView {
            bands: without_five,
            ..i
        }).score() + 2,
        (InterfaceView { ssid: Some(ssid), ..i }).score() == (InterfaceView {
            ssid: None,
            ..i
        }).score() - 100,
        (InterfaceView {
            driver: unknown,
            bus: BusKind::Pci,
            supported_modes: without_monitor,
            bands: without_five,
            ssid: None,
            ..i
        }).score() == 0,
{
    a_driver_is_known_by_its_family(known);
    if let Some(driver) = unknown {
        a_driver_is_known_by_its_family(driver);
    }
    let five = InterfaceView { bands: with_five, ..i };
    let b = choose|b: int|
        0 <= b < with_five.len() && (#[trigger] with_five[b]).kind == BandKind::FiveGhz;
    assert(five.bands[b].kind == BandKind::FiveGhz);
    assert(five.dual_band());
    assert(!(InterfaceView { bands: without_five, ..i }).dual_band());
}

/// Whether an interface is a candidate: monitor mode is worth trying on it, and it
/// is not in monitor mode already.
pub open spec fn is_candidate(i: InterfaceView) -> bool {
    &&& i.supported_modes.contains(InterfaceMode::Monitor) || of_a_family(i)
    &&& i.mode != InterfaceMode::Monitor
}

/// Whether an interface would be a candidate if it were not in monitor mode.
pub open spec fn is_taken(i: InterfaceView) -> bool {
    &&& i.supported_modes.contains(InterfaceMode::Monitor) || of_a_family(i)
    &&& i.mode == InterfaceMode::Monitor
}

/// Selection succeeds exactly when there is a candidate. Then it offers each of
/// them as often as it was detected and nothing else, from the highest score to the
/// lowest, and at equal scores from the lowest interface index to the highest.
pub proof fn selection_offers_every_candidate_in_order(v: Seq<InterfaceView>)
    ensures
        crate::select::selection(v) is Ok <==> exists|i: int|
            0 <= i < v.len() && is_candidate(#[trigger] v[i]),
        crate::select::selection(v) matches Ok(ranked) ==> {
            &&& ranked.to_multiset() == v.filter(|i: InterfaceView| is_candidate(i)).to_multiset()
            &&& forall|a: int, b: int|
                0 <= a < b < ranked.len() ==> {
                    let better = #[trigger] ranked[a];
                    let worse = #[trigger] ranked[b];
                    better.score() > worse.score() || (better.score() == worse.score()
                        && better.index <= worse.index)
                }
        },
{
    let p = |i: InterfaceView| is_candidate(i);
    let q = |i: InterfaceView| crate::select::available(i);
    assert forall|i: InterfaceView| #[trigger] is_candidate(i) == crate::select::available(i) by {
        plausible_means_advertised_or_known(i);
    }
    assert(p =~= q);
    let c = crate::select::candidates(v);
    crate::select::ranking_is_a_permutation(c);
    crate::select::ranking_is_best_first(c);
    kept_exactly_when_one_is(v, p);
    if crate::select::selection(v) is Ok {
        let ranked = crate::select::ranking(c);
        assert forall|a: int, b: int| 0 <= a < b < ranked.len() implies ({
            let better = #[trigger] ranked[a];
            let worse = #[trigger] ranked[b];
            better.score() > worse.score() || (better.score() == worse.score() && better.index
                <= worse.index)
        }) by {
            assert(!crate::select::outranks(ranked[b], ranked[a]));
        }
    }
}

/// Something passes a filter exactly when an entry satisfies it.
proof fn kept_exactly_when_one_is(v: Seq<InterfaceView>, p: spec_fn(InterfaceView) -> bool)
    ensures
        v.filter(p).len() > 0 <==> exists|i: int| 0 <= i < v.len() && p(#[trigger] v[i]),
{
    if exists|i: int| 0 <= i < v.len() && p(#[trigger] v[i]) {
        let i = choose|i: int| 0 <= i < v.len() && p(#[trigger] v[i]);
        v.lemma_filter_contains(p, i);
    }
    if v.filter(p).len() > 0 {
        let x = v.filter(p)[0];
        v.lemma_filter_pred(p, 0);
        v.lemma_filter_contains_rev(p, x);
        let i = choose|i: int| 0 <= i < v.len() && v[i] == x;
        assert(p(v[i]));
    }
}

/// Selection says why it fails: there is no interface at all; or each that would do
/// is in monitor mode already, and the best of those is named; or none would do,
/// of as many as there are.
pub proof fn selection_says_why_it_fails(v: Seq<InterfaceView>)
    requires
        forall|i: int| 0 <= i < v.len() ==> !is_candidate(#[trigger] v[i]),
    ensures
        v.len() == 0 ==> crate::select::selection(v) == Err::<Seq<InterfaceView>, ErrorView>(
            ErrorView::NoInterfaces,
        ),
        v.len() > 0 && (forall|i: int| 0 <= i < v.len() ==> !is_taken(#[trigger] v[i]))
            ==> crate::select::selection(v) == Err::<Seq<InterfaceView>, ErrorView>(
            ErrorView::NoMonitorCapable { checked: v.len() as usize },
        ),
        (exists|i: int| 0 <= i < v.len() && is_taken(#[trigger] v[i])) ==> exists|i: int|
            {
                &&& 0 <= i < v.len()
                &&& is_taken(#[trigger] v[i])
                &&& crate::select::selection(v) == Err::<Seq<InterfaceView>, ErrorView>(
                    ErrorView::AlreadyMonitor { iface: v[i].name },
                )
                &&& forall|j: int|
                    0 <= j < v.len() && is_taken(#[trigger] v[j]) ==> v[i].score() > v[j].score()
                        || (v[i].score() == v[j].score() && v[i].index <= v[j].index)
            },
{
    let p = |i: InterfaceView| is_candidate(i);
    let free = |i: InterfaceView| crate::select::available(i);
    let t = |i: InterfaceView| is_taken(i);
    let occupied = |i: InterfaceView| crate::select::occupied(i);
    assert forall|i: InterfaceView| #[trigger] is_candidate(i) == crate::select::available(i)
        && is_taken(i) == crate::select::occupied(i) by {
        plausible_means_advertised_or_known(i);
    }
    assert(p =~= free);
    assert forall|i: InterfaceView| #[trigger] is_taken(i) == crate::select::occupied(i) by {
        assert(is_candidate(i) == crate::select::available(i));
    }
    assert(t =~= occupied);
    kept_exactly_when_one_is(v, p);
    kept_exactly_when_one_is(v, t);
    let busy = crate::select::busy(v);
    if exists|i: int| 0 <= i < v.len() && is_taken(#[trigger] v[i]) {
        let w = choose|i: int| 0 <= i < v.len() && is_taken(#[trigger] v[i]);
        assert(t(v[w]));
        assert(busy.len() > 0);
        last_best_exists(busy);
        let b = choose|i: int| crate::select::last_best(busy, i);
        v.lemma_filter_pred(t, b);
        v.lemma_filter_contains_rev(t, busy[b]);
        let i = choose|i: int| 0 <= i < v.len() && v[i] == busy[b];
        assert(is_taken(v[i]));
        assert forall|j: int| 0 <= j < v.len() && is_taken(#[trigger] v[j]) implies v[i].score()
            > v[j].score() || (v[i].score() == v[j].score() && v[i].index <= v[j].index) by {
            v.lemma_filter_contains(t, j);
            let k = choose|k: int| 0 <= k < busy.len() && busy[k] == v[j];
            assert(!crate::select::outranks(busy[k], busy[b]));
        }
    } else {
        assert forall|i: int| 0 <= i < v.len() implies !t(#[trigger] v[i]) by {}
    }
    if v.len() > 0 && (forall|i: int| 0 <= i < v.len() ==> !is_taken(#[trigger] v[i])) {
        assert forall|i: int| 0 <= i < v.len() implies !t(#[trigger] v[i]) by {}
    }
}

/// A list that is not empty has a last best entry.
proof fn last_best_exists(v: Seq<InterfaceView>)
    requires
        v.len() > 0,
    ensures
        exists|i: int| crate::select::last_best(v, i),
    decreases v.len(),
{
    if v.len() == 1 {
        assert(crate::select::last_best(v, 0));
    } else {
        let front = v.drop_last();
        last_best_exists(front);
        let i = choose|i: int| crate::select::last_best(front, i);
        assert(forall|j: int| 0 <= j < front.len() ==> #[trigger] v[j] == front[j]);
        if crate::select::outranks(v[i], v.last()) {
            assert(crate::select::last_best(v, i));
        } else {
            assert(crate::select::last_best(v, v.len() - 1));
        }
    }
}

/// What is passed over as busy is exactly what is in monitor mode: the names of
/// those interfaces, in the order of detection.
pub proof fn busy_means_in_monitor_mode(v: Seq<InterfaceView>)
    ensures
        ({
            let names = crate::select::in_monitor_names(v);
            let busy = v.filter(|i: InterfaceView| i.mode == InterfaceMode::Monitor);
            &&& names.len() == busy.len()
            &&& forall|k: int| 0 <= k < names.len() ==> #[trigger] names[k] == busy[k].name
            &&& forall|name: Seq<char>| #[trigger]
                names.contains(name) <==> exists|i: int|
                    0 <= i < v.len() && (#[trigger] v[i]).name == name && v[i].mode
                        == InterfaceMode::Monitor
        }),
{
    let p = |i: InterfaceView| i.mode == InterfaceMode::Monitor;
    let q = |i: InterfaceView| i.in_monitor();
    assert(p =~= q);
    let names = crate::select::in_monitor_names(v);
    let busy = v.filter(p);
    assert forall|name: Seq<char>| #[trigger]
        names.contains(name) <==> exists|i: int|
            0 <= i < v.len() && (#[trigger] v[i]).name == name && v[i].mode
                == InterfaceMode::Monitor by {
        if names.contains(name) {
            let k = choose|k: int| 0 <= k < names.len() && names[k] == name;
            v.lemma_filter_pred(p, k);
            v.lemma_filter_contains_rev(p, busy[k]);
            let i = choose|i: int| 0 <= i < v.len() && v[i] == busy[k];
            assert(v[i].name == name);
        }
        if exists|i: int|
            0 <= i < v.len() && (#[trigger] v[i]).name == name && v[i].mode
                == InterfaceMode::Monitor {
            let i = choose|i: int|
                0 <= i < v.len() && (#[trigger] v[i]).name == name && v[i].mode
                    == InterfaceMode::Monitor;
            v.lemma_filter_contains(p, i);
            let k = choose|k: int| 0 <= k < busy.len() && busy[k] == v[i];
            assert(names[k] == name);
        }
    }
}

} // verus!
