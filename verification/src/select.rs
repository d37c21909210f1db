//! Selection policy: which radio to capture on when the caller names none.
//!
//! Pure over the list of detected interfaces. The whole ordered list is
//! produced, not just the winner: monitor capability is a prediction until it is
//! tried, and a radio that refuses is followed by the next one.

use std::cmp::Ordering;

use vstd::prelude::*;

use crate::errors::{Error, ErrorView};
use crate::interface::{InterfaceView, WirelessInterface};

verus! {

/// Whether `a` is strictly the better candidate: the higher score wins, and equal
/// scores are told apart by the lower interface index.
pub open spec fn outranks(a: InterfaceView, b: InterfaceView) -> bool {
    a.score() > b.score() || (a.score() == b.score() && a.index < b.index)
}

/// Whether neither of two candidates is the better one.
pub open spec fn tied(a: InterfaceView, b: InterfaceView) -> bool {
    a.score() == b.score() && a.index == b.index
}

/// Whether an interface is a candidate for capture: plausible, and not already
/// in monitor mode under someone else's control.
pub open spec fn available(i: InterfaceView) -> bool {
    i.plausible() && !i.in_monitor()
}

/// Whether an interface would be a candidate if it were not already in monitor
/// mode.
pub open spec fn occupied(i: InterfaceView) -> bool {
    i.plausible() && i.in_monitor()
}

/// The candidates among `v`, in the order of `v`.
pub open spec fn candidates(v: Seq<InterfaceView>) -> Seq<InterfaceView> {
    v.filter(|i: InterfaceView| available(i))
}

/// The interfaces of `v` that are plausible but busy, in the order of `v`.
pub open spec fn busy(v: Seq<InterfaceView>) -> Seq<InterfaceView> {
    v.filter(|i: InterfaceView| occupied(i))
}

/// `s`, ranked best first, with `x` put behind everything it does not outrank.
pub open spec fn placed(s: Seq<InterfaceView>, x: InterfaceView) -> Seq<InterfaceView>
    decreases s.len(),
{
    if s.len() > 0 && outranks(x, s.last()) {
        placed(s.drop_last(), x).push(s.last())
    } else {
        s.push(x)
    }
}

/// `v` from the best candidate to the worst; ties keep the order of `v`.
pub open spec fn ranking(v: Seq<InterfaceView>) -> Seq<InterfaceView>
    decreases v.len(),
{
    if v.len() == 0 {
        Seq::empty()
    } else {
        placed(ranking(v.drop_last()), v.last())
    }
}

/// Whether no later entry is better than an earlier one.
pub open spec fn best_first(v: Seq<InterfaceView>) -> bool {
    forall|i: int, j: int| 0 <= i < j < v.len() ==> !outranks(#[trigger] v[j], #[trigger] v[i])
}

/// Whether `i` is where the best entry stands; among tied ones, the last.
pub open spec fn last_best(v: Seq<InterfaceView>, i: int) -> bool {
    &&& 0 <= i < v.len()
    &&& forall|j: int| 0 <= j < v.len() ==> !outranks(#[trigger] v[j], v[i])
    &&& forall|j: int| i < j < v.len() ==> outranks(v[i], #[trigger] v[j])
}

/// What selection makes of the detected interfaces: every candidate, best first,
/// or why there is none.
pub open spec fn selection(v: Seq<InterfaceView>) -> Result<Seq<InterfaceView>, ErrorView> {
    if v.len() == 0 {
        Err(ErrorView::NoInterfaces)
    } else if candidates(v).len() > 0 {
        Ok(ranking(candidates(v)))
    } else if busy(v).len() > 0 {
        Err(
            ErrorView::AlreadyMonitor {
                iface: busy(v)[choose|i: int| last_best(busy(v), i)].name,
            },
        )
    } else {
        Err(ErrorView::NoMonitorCapable { checked: v.len() as usize })
    }
}

/// The names of the interfaces already in monitor mode, in order.
pub open spec fn in_monitor_names(v: Seq<InterfaceView>) -> Seq<Seq<char>> {
    crate::names::names_of(v.filter(|i: InterfaceView| i.in_monitor()))
}

/// The contents of a result that is a list of interfaces or an [`Error`].
pub open spec fn interfaces_result(r: Result<Vec<WirelessInterface>, Error>) -> Result<
    Seq<InterfaceView>,
    ErrorView,
> {
    match r {
        Ok(v) => Ok(crate::interface::interface_views(v@)),
        Err(e) => Err(e@),
    }
}

/// Order two candidates from worst to best: by score, then towards the lower
/// interface index, so that selection is the same on every run.
pub fn rank(a: &WirelessInterface, b: &WirelessInterface) -> (r: Ordering)
    ensures
        r is Greater <==> outranks(a@, b@),
        r is Less <==> outranks(b@, a@),
        r is Equal <==> tied(a@, b@),
{
    let left: i32 = a.monitor_score();
    let right: i32 = b.monitor_score();
    if left > right {
        Ordering::Greater
    } else if left < right {
        Ordering::Less
    } else if a.index < b.index {
        Ordering::Greater
    } else if a.index > b.index {
        Ordering::Less
    } else {
        Ordering::Equal
    }
}

/// Whether `a` is strictly the better candidate.
fn beats(a: &WirelessInterface, b: &WirelessInterface) -> (r: bool)
    ensures
        r == outranks(a@, b@),
{
    match rank(a, b) {
        Ordering::Greater => true,
        _ => false,
    }
}

/// Behind what `x` does not outrank is where [`placed`] puts it.
proof fn placed_at(s: Seq<InterfaceView>, x: InterfaceView, p: int)
    requires
        0 <= p <= s.len(),
        forall|j: int| p <= j < s.len() ==> outranks(x, #[trigger] s[j]),
        p > 0 ==> !outranks(x, s[p - 1]),
    ensures
        placed(s, x) == s.insert(p, x),
    decreases s.len(),
{
    if p < s.len() {
        placed_at(s.drop_last(), x, p);
        assert(s.drop_last().insert(p, x).push(s.last()) =~= s.insert(p, x));
    } else {
        assert(s.push(x) =~= s.insert(p, x));
    }
}

/// Put `x` into a list that is ranked best first, behind everything it does not
/// outrank.
fn place(ranked: &mut Vec<WirelessInterface>, x: WirelessInterface)
    ensures
        crate::interface::interface_views(final(ranked)@) == placed(
            crate::interface::interface_views(old(ranked)@),
            x@,
        ),
{
    let ghost before = crate::interface::interface_views(ranked@);
    let mut p: usize = ranked.len();
    while p > 0 && beats(&x, &ranked[p - 1])
        invariant
            p <= ranked.len(),
            before == crate::interface::interface_views(ranked@),
            forall|j: int| p <= j < before.len() ==> outranks(x@, #[trigger] before[j]),
        ensures
            p > 0 ==> !outranks(x@, before[p - 1]),
        decreases p,
    {
        p -= 1;
    }
    proof {
        placed_at(before, x@, p as int);
    }
    ranked.insert(p, x);
    assert(crate::interface::interface_views(ranked@) =~= before.insert(p as int, x@));
}

/// The last best entry of a list that is not empty.
fn last_best_index(v: &Vec<WirelessInterface>) -> (r: usize)
    requires
        v.len() > 0,
    ensures
        last_best(crate::interface::interface_views(v@), r as int),
{
    let ghost views = crate::interface::interface_views(v@);
    let mut top: usize = 0;
    let mut i: usize = 1;
    while i < v.len()
        invariant
            1 <= i <= v.len(),
            top < i,
            views == crate::interface::interface_views(v@),
            last_best(views.take(i as int), top as int),
        decreases v.len() - i,
    {
        let ghost seen = views.take(i as int);
        let ghost more = views.take(i + 1);
        assert(forall|j: int| 0 <= j < i ==> #[trigger] more[j] == seen[j]);
        if !beats(&v[top], &v[i]) {
            assert(last_best(more, i as int));
            top = i;
        } else {
            assert(last_best(more, top as int));
        }
        i += 1;
    }
    assert(views.take(i as int) =~= views);
    top
}

/// At most one position holds the last best entry.
proof fn last_best_unique(v: Seq<InterfaceView>, i: int, j: int)
    requires
        last_best(v, i),
        last_best(v, j),
    ensures
        i == j,
{
    if i < j {
        assert(outranks(v[i], v[j]));
    } else if j < i {
        assert(outranks(v[j], v[i]));
    }
}

/// One more entry in front of a filter.
proof fn filter_step(v: Seq<InterfaceView>, n: int, p: spec_fn(InterfaceView) -> bool)
    requires
        0 <= n < v.len(),
    ensures
        v.take(n + 1).filter(p) == if p(v[n]) {
            v.take(n).filter(p).push(v[n])
        } else {
            v.take(n).filter(p)
        },
{
    reveal(Seq::filter);
    assert(v.take(n + 1).drop_last() =~= v.take(n));
}

/// Every usable candidate, best first.
///
/// A radio that is already in monitor mode is out of the running: something else
/// put it there. Where such radios are all there is, the error names the one that
/// would have been chosen.
pub fn rank_candidates(interfaces: Vec<WirelessInterface>) -> (r: Result<
    Vec<WirelessInterface>,
    Error,
>)
    ensures
        interfaces_result(r) == selection(crate::interface::interface_views(interfaces@)),
{
    let ghost all = crate::interface::interface_views(interfaces@);
    let checked: usize = interfaces.len();
    if checked == 0 {
        return Err(Error::NoInterfaces);
    }
    let mut idle: Vec<WirelessInterface> = Vec::new();
    let mut taken: Vec<WirelessInterface> = Vec::new();
    proof {
        reveal(Seq::filter);
        assert(all.take(0) =~= Seq::empty());
        assert(crate::interface::interface_views(idle@) =~= Seq::empty());
        assert(crate::interface::interface_views(taken@) =~= Seq::empty());
    }
    for iface in it: interfaces
        invariant
            it.seq() == interfaces@,
            all == crate::interface::interface_views(interfaces@),
            crate::interface::interface_views(idle@) == ranking(
                candidates(all.take(it.index() as int)),
            ),
            crate::interface::interface_views(taken@) == busy(all.take(it.index() as int)),
    {
        let ghost n = it.index() as int;
        let ghost before = taken@;
        proof {
            filter_step(all, n, |i: InterfaceView| available(i));
            filter_step(all, n, |i: InterfaceView| occupied(i));
            assert(all[n] == iface@);
            let c = candidates(all.take(n));
            assert(c.push(iface@).drop_last() =~= c);
        }
        if iface.is_monitor_plausible() {
            if iface.is_monitor() {
                taken.push(iface);
                assert(crate::interface::interface_views(taken@)
                    =~= crate::interface::interface_views(before).push(all[n]));
            } else {
                place(&mut idle, iface);
            }
        }
    }
    proof {
        assert(all.take(all.len() as int) =~= all);
        ranking_keeps_length(candidates(all));
    }
    if idle.len() > 0 {
        return Ok(idle);
    }
    if taken.len() > 0 {
        let top: usize = last_best_index(&taken);
        proof {
            last_best_unique(busy(all), top as int, choose|i: int| last_best(busy(all), i));
        }
        let blocked = taken.swap_remove(top);
        return Err(Error::AlreadyMonitor { iface: blocked.name });
    }
    Err(Error::NoMonitorCapable { checked })
}

/// The single best candidate.
pub fn pick_best(interfaces: Vec<WirelessInterface>) -> (r: Result<WirelessInterface, Error>)
    ensures
        crate::names::interface_result(r) == match selection(
            crate::interface::interface_views(interfaces@),
        ) {
            Ok(ranked) => Ok::<InterfaceView, ErrorView>(ranked[0]),
            Err(e) => Err(e),
        },
{
    proof {
        ranking_keeps_length(candidates(crate::interface::interface_views(interfaces@)));
    }
    match rank_candidates(interfaces) {
        Ok(mut ranked) => Ok(ranked.swap_remove(0)),
        Err(e) => Err(e),
    }
}

/// The names of the interfaces that are already in monitor mode: what an operator
/// is told of before a selection that passes them over.
pub fn busy_names(interfaces: &Vec<WirelessInterface>) -> (r: Vec<String>)
    ensures
        crate::text::texts(r@) == in_monitor_names(crate::interface::interface_views(interfaces@)),
{
    let ghost all = crate::interface::interface_views(interfaces@);
    let ghost p = |i: InterfaceView| i.in_monitor();
    let mut names: Vec<String> = Vec::new();
    proof {
        reveal(Seq::filter);
        assert(all.take(0) =~= Seq::empty());
        assert(crate::text::texts(names@) =~= Seq::empty());
        assert(in_monitor_names(all.take(0)) =~= Seq::empty());
    }
    let mut n: usize = 0;
    while n < interfaces.len()
        invariant
            n <= interfaces.len(),
            all == crate::interface::interface_views(interfaces@),
            p == |i: InterfaceView| i.in_monitor(),
            crate::text::texts(names@) == in_monitor_names(all.take(n as int)),
        decreases interfaces.len() - n,
    {
        let ghost before = names@;
        proof {
            filter_step(all, n as int, p);
        }
        if interfaces[n].is_monitor() {
            names.push(interfaces[n].name.clone());
            proof {
                let kept = all.take(n as int).filter(p);
                assert(crate::text::texts(names@) =~= crate::text::texts(before).push(
                    all[n as int].name,
                ));
                assert(crate::names::names_of(kept.push(all[n as int]))
                    =~= crate::names::names_of(kept).push(all[n as int].name));
            }
        }
        n += 1;
    }
    assert(all.take(n as int) =~= all);
    names
}

proof fn placed_keeps(s: Seq<InterfaceView>, x: InterfaceView)
    ensures
        placed(s, x).len() == s.len() + 1,
        placed(s, x).to_multiset() == s.to_multiset().insert(x),
    decreases s.len(),
{
    broadcast use vstd::seq_lib::group_to_multiset_ensures;

    if s.len() > 0 && outranks(x, s.last()) {
        placed_keeps(s.drop_last(), x);
        assert(s.drop_last().push(s.last()) =~= s);
        assert(s.to_multiset().insert(x) =~= s.drop_last().to_multiset().insert(x).insert(
            s.last(),
        ));
    }
}

proof fn ranking_keeps_length(v: Seq<InterfaceView>)
    ensures
        ranking(v).len() == v.len(),
    decreases v.len(),
{
    if v.len() > 0 {
        ranking_keeps_length(v.drop_last());
        placed_keeps(ranking(v.drop_last()), v.last());
    }
}

/// Ranking neither loses nor invents a candidate.
pub proof fn ranking_is_a_permutation(v: Seq<InterfaceView>)
    ensures
        ranking(v).to_multiset() == v.to_multiset(),
    decreases v.len(),
{
    broadcast use vstd::seq_lib::group_to_multiset_ensures;

    if v.len() > 0 {
        ranking_is_a_permutation(v.drop_last());
        placed_keeps(ranking(v.drop_last()), v.last());
        assert(v.drop_last().push(v.last()) =~= v);
    }
}

/// Where [`placed`] puts the new entry in a list that is ranked best first.
proof fn placement(s: Seq<InterfaceView>, x: InterfaceView) -> (p: int)
    requires
        best_first(s),
    ensures
        0 <= p <= s.len(),
        forall|j: int| p <= j < s.len() ==> outranks(x, #[trigger] s[j]),
        forall|j: int| 0 <= j < p ==> !outranks(x, #[trigger] s[j]),
        placed(s, x) == s.insert(p, x),
    decreases s.len(),
{
    if s.len() > 0 && outranks(x, s.last()) {
        let p = placement(s.drop_last(), x);
        assert(forall|j: int| 0 <= j < s.len() - 1 ==> #[trigger] s[j] == s.drop_last()[j]);
        assert(s.drop_last().insert(p, x).push(s.last()) =~= s.insert(p, x));
        p
    } else {
        assert(s.push(x) =~= s.insert(s.len() as int, x));
        assert forall|j: int| 0 <= j < s.len() implies !outranks(x, #[trigger] s[j]) by {
            if j < s.len() - 1 {
                assert(!outranks(s[s.len() - 1], s[j]));
            }
        }
        s.len() as int
    }
}

/// The ranked list is best first: no later candidate is better than an earlier
/// one.
pub proof fn ranking_is_best_first(v: Seq<InterfaceView>)
    ensures
        best_first(ranking(v)),
    decreases v.len(),
{
    if v.len() > 0 {
        ranking_is_best_first(v.drop_last());
        let s = ranking(v.drop_last());
        let x = v.last();
        let p = placement(s, x);
        let r = s.insert(p, x);
        assert forall|i: int, j: int| 0 <= i < j < r.len() implies !outranks(
            #[trigger] r[j],
            #[trigger] r[i],
        ) by {
            let i0 = if i < p {
                i
            } else {
                i - 1
            };
            let j0 = if j < p {
                j
            } else {
                j - 1
            };
            if i != p && j != p {
                assert(!outranks(s[j0], s[i0]));
            } else if i == p {
                assert(outranks(x, s[j0]));
            } else {
                assert(!outranks(x, s[i0]));
            }
        }
    }
}

/// Candidates of equal rank stay in the order in which they were detected.
pub proof fn ranking_is_stable(v: Seq<InterfaceView>, like: InterfaceView)
    ensures
        ranking(v).filter(|i: InterfaceView| tied(i, like)) == v.filter(
            |i: InterfaceView| tied(i, like),
        ),
    decreases v.len(),
{
    let p = |i: InterfaceView| tied(i, like);
    reveal(Seq::filter);
    if v.len() > 0 {
        ranking_is_stable(v.drop_last(), like);
        ranking_is_best_first(v.drop_last());
        let s = ranking(v.drop_last());
        let x = v.last();
        let at = placement(s, x);
        let front = s.take(at);
        let back = s.skip(at);
        assert(s =~= front + back);
        assert(s.insert(at, x) =~= front.push(x) + back);
        Seq::filter_distributes_over_add(front, back, p);
        Seq::filter_distributes_over_add(front.push(x), back, p);
        assert(front.push(x).drop_last() =~= front);
        if tied(x, like) {
            assert forall|j: int| 0 <= j < back.len() implies !p(#[trigger] back[j]) by {
                assert(outranks(x, s[at + j]));
            }
            none_kept(back, p);
            assert(front.filter(p).push(x) + back.filter(p) =~= (front.filter(p) + back.filter(
                p,
            )).push(x));
        }
    } else {
        assert(v =~= Seq::empty());
    }
}

/// Nothing passes a filter that no entry satisfies.
proof fn none_kept(v: Seq<InterfaceView>, p: spec_fn(InterfaceView) -> bool)
    requires
        forall|j: int| 0 <= j < v.len() ==> !p(#[trigger] v[j]),
    ensures
        v.filter(p) == Seq::<InterfaceView>::empty(),
    decreases v.len(),
{
    reveal(Seq::filter);
    if v.len() > 0 {
        none_kept(v.drop_last(), p);
    } else {
        assert(v =~= Seq::empty());
    }
}

/// Selection that succeeds offers at least one candidate.
pub proof fn selection_is_never_empty(v: Seq<InterfaceView>)
    ensures
        selection(v) matches Ok(ranked) ==> ranked.len() > 0,
{
    ranking_keeps_length(candidates(v));
}

/// Selection offers exactly the detected interfaces that are plausible and idle:
/// a radio already in monitor mode is never among them.
pub proof fn selection_offers_idle_radios(v: Seq<InterfaceView>, x: InterfaceView)
    requires
        selection(v) is Ok,
    ensures
        selection(v)->Ok_0.contains(x) <==> v.contains(x) && x.plausible() && x.mode
            != crate::interface::InterfaceMode::Monitor,
{
    broadcast use vstd::seq_lib::group_to_multiset_ensures;

    let p = |i: InterfaceView| available(i);
    let c = candidates(v);
    ranking_is_a_permutation(c);
    ranking_keeps_length(c);
    assert(ranking(c).to_multiset().contains(x) <==> c.to_multiset().contains(x));
    assert(ranking(c).contains(x) <==> ranking(c).to_multiset().count(x) > 0);
    assert(c.contains(x) <==> c.to_multiset().count(x) > 0);
    if c.contains(x) {
        let i = choose|i: int| 0 <= i < c.len() && c[i] == x;
        v.lemma_filter_pred(p, i);
        v.lemma_filter_contains_rev(p, x);
    }
    if v.contains(x) && available(x) {
        let i = choose|i: int| 0 <= i < v.len() && v[i] == x;
        v.lemma_filter_contains(p, i);
    }
}

} // verus!
