//! What holds of whole conversations.
//!
//! Each law speaks of every run: `replies` stands for whatever the kernel and the
//! services answer, [`asked`](crate::program::asked) for what is asked of them
//! meanwhile, and [`outcome`](crate::program::outcome) for the result, once there
//! is one.

use vstd::prelude::*;

use crate::errors::ErrorView;
use crate::handover::Holders;
use crate::interface::{ChannelWidth, InterfaceMode, InterfaceView};
use crate::ops::{LinuxOpView, LinuxReplyView};
use crate::program::Program;

verus! {

/// Whether a run of `p` ends with a complete run of `last`.
pub open spec fn ends_with<O, R, T, U>(
    p: Program<O, R, T>,
    last: Program<O, R, U>,
    replies: Seq<R>,
) -> bool {
    exists|k: int| #[trigger] ends_with_from(p, last, replies, k)
}

/// Whether a run of `p` goes on, from its `k`-th question, as a complete run of
/// `last`.
pub open spec fn ends_with_from<O, R, T, U>(
    p: Program<O, R, T>,
    last: Program<O, R, U>,
    replies: Seq<R>,
    k: int,
) -> bool {
    &&& 0 <= k <= crate::program::asked(p, replies).len()
    &&& k <= replies.len()
    &&& crate::program::asked(p, replies).skip(k) == crate::program::asked(last, replies.skip(k))
    &&& crate::program::outcome(last, replies.skip(k)) is Some
}

/// What the rest of a run ends with, the run ends with.
pub(crate) proof fn ask_ends_with<O, R, T, U>(
    o: O,
    k: spec_fn(R) -> Program<O, R, T>,
    last: Program<O, R, U>,
    replies: Seq<R>,
)
    requires
        replies.len() > 0,
        ends_with(k(replies[0]), last, replies.drop_first()),
    ensures
        ends_with(Program::Ask(o, k), last, replies),
{
    let p = Program::Ask(o, k);
    let rest = replies.drop_first();
    let n = choose|n: int| #[trigger] ends_with_from(k(replies[0]), last, rest, n);
    assert(crate::program::asked(p, replies).skip(n + 1) =~= crate::program::asked(
        k(replies[0]),
        rest,
    ).skip(n));
    assert(replies.skip(n + 1) =~= rest.skip(n));
    assert(ends_with_from(p, last, replies, n + 1));
}

/// What the second of two conversations ends with, both in a row end with.
pub(crate) proof fn bind_ends_with<O, R, T, U, V>(
    p: Program<O, R, T>,
    f: spec_fn(T) -> Program<O, R, U>,
    last: Program<O, R, V>,
    replies: Seq<R>,
    t: T,
)
    requires
        crate::program::outcome(p, replies) == Some(t),
        ends_with(f(t), last, replies.skip(crate::program::asked(p, replies).len() as int)),
    ensures
        ends_with(crate::program::bind(p, f), last, replies),
{
    crate::program::bind_runs_in_sequence(p, f, replies);
    let first = crate::program::asked(p, replies);
    let rest = replies.skip(first.len() as int);
    let n = choose|n: int| #[trigger] ends_with_from(f(t), last, rest, n);
    let k = first.len() + n;
    assert(crate::program::asked(crate::program::bind(p, f), replies).skip(k)
        =~= crate::program::asked(f(t), rest).skip(n));
    assert(replies.skip(k) =~= rest.skip(n));
    assert(ends_with_from(crate::program::bind(p, f), last, replies, k));
}

/// A conversation that is followed by nothing but a result ends as it does.
pub(crate) proof fn bind_return_ends_with<O, R, T, U, V>(
    p: Program<O, R, T>,
    f: spec_fn(T) -> Program<O, R, U>,
    last: Program<O, R, V>,
    replies: Seq<R>,
)
    requires
        forall|t: T| (#[trigger] f(t)) is Return,
        ends_with(p, last, replies),
        crate::program::outcome(crate::program::bind(p, f), replies) is Some,
    ensures
        ends_with(crate::program::bind(p, f), last, replies),
        crate::program::outcome(p, replies) is Some,
{
    crate::program::bind_runs_in_sequence(p, f, replies);
    let t = crate::program::outcome(p, replies)->0;
    assert(f(t) is Return);
    assert(crate::program::asked(crate::program::bind(p, f), replies) =~= crate::program::asked(
        p,
        replies,
    ));
    let n = choose|n: int| #[trigger] ends_with_from(p, last, replies, n);
    assert(ends_with_from(crate::program::bind(p, f), last, replies, n));
}

/// A complete run ends with itself.
pub(crate) proof fn ends_with_itself<O, R, T>(p: Program<O, R, T>, replies: Seq<R>)
    requires
        crate::program::outcome(p, replies) is Some,
    ensures
        ends_with(p, p, replies),
{
    assert(crate::program::asked(p, replies).skip(0) =~= crate::program::asked(p, replies));
    assert(replies.skip(0) =~= replies);
    assert(ends_with_from(p, p, replies, 0));
}

/// The questions of a complete release that took the interface from `held`.
pub open spec fn release_questions(iface: Seq<char>, held: Holders) -> Seq<LinuxOpView> {
    seq![LinuxOpView::NmPresent] + (if held.network_manager {
        seq![LinuxOpView::NmRelease { iface }]
    } else {
        Seq::empty()
    }) + seq![LinuxOpView::WpaPresent] + (if held.supplicant {
        seq![LinuxOpView::WpaRelease { iface }]
    } else {
        Seq::empty()
    })
}

/// The questions of a complete hand-back to `held`.
pub open spec fn reclaim_questions(iface: Seq<char>, held: Holders) -> Seq<LinuxOpView> {
    (if held.network_manager {
        seq![LinuxOpView::NmReclaim { iface }]
    } else {
        Seq::empty()
    }) + (if held.supplicant {
        seq![LinuxOpView::WpaReclaim { iface }]
    } else {
        Seq::empty()
    })
}

/// A release that succeeds records exactly the services it took the interface
/// from.
pub proof fn release_records_what_it_took(
    iface: Seq<char>,
    held: Holders,
    replies: Seq<LinuxReplyView>,
)
    requires
        crate::program::outcome(crate::handover::release_program(iface), replies) == Some(
            Ok::<Holders, ErrorView>(held),
        ),
    ensures
        crate::program::asked(crate::handover::release_program(iface), replies)
            == release_questions(iface, held),
{
    let p = crate::handover::release_program(iface);
    assert(replies.len() > 0);
    crate::program::one_reply(p->Ask_0, p->Ask_1, replies);
    let tail = replies.drop_first();
    if replies[0]->Present_0 {
        let q = (p->Ask_1)(replies[0]);
        assert(tail.len() > 0);
        crate::program::one_reply(q->Ask_0, q->Ask_1, tail);
        if tail[0]->Done_0 is Ok {
            assert((q->Ask_1)(tail[0]) == crate::handover::release_supplicant(iface, true));
            a_supplicant_lets_go_or_not(iface, true, tail.drop_first());
        } else {
            assert((q->Ask_1)(tail[0]) is Return);
        }
    } else {
        assert((p->Ask_1)(replies[0]) == crate::handover::release_supplicant(iface, false));
        a_supplicant_lets_go_or_not(iface, false, tail);
    }
    assert(crate::program::asked(p, replies) =~= release_questions(iface, held));
}

/// Whether a run asked for an operation and was told that it was done.
pub open spec fn was_done(
    o: LinuxOpView,
    asked: Seq<LinuxOpView>,
    replies: Seq<LinuxReplyView>,
) -> bool {
    exists|i: int| 0 <= i < asked.len() && #[trigger] asked[i] == o && replies[i]->Done_0 is Ok
}

/// The services that let go of an interface in a run.
pub open spec fn let_go(
    iface: Seq<char>,
    asked: Seq<LinuxOpView>,
    replies: Seq<LinuxReplyView>,
) -> Holders {
    Holders {
        network_manager: was_done(LinuxOpView::NmRelease { iface }, asked, replies),
        supplicant: was_done(LinuxOpView::WpaRelease { iface }, asked, replies),
    }
}

/// What was done in a run was done at its first question or after it.
proof fn done_first_or_later(
    o: LinuxOpView,
    first: LinuxOpView,
    later: Seq<LinuxOpView>,
    replies: Seq<LinuxReplyView>,
)
    requires
        replies.len() > 0,
        later.len() < replies.len(),
    ensures
        was_done(o, seq![first] + later, replies) == ((first == o && replies[0]->Done_0 is Ok)
            || was_done(o, later, replies.drop_first())),
{
    let all = seq![first] + later;
    let tail = replies.drop_first();
    if was_done(o, all, replies) {
        let i = choose|i: int|
            0 <= i < all.len() && #[trigger] all[i] == o && replies[i]->Done_0 is Ok;
        if i > 0 {
            assert(later[i - 1] == o && tail[i - 1]->Done_0 is Ok);
        }
    }
    if first == o && replies[0]->Done_0 is Ok {
        assert(all[0] == o);
    }
    if was_done(o, later, tail) {
        let i = choose|i: int|
            0 <= i < later.len() && #[trigger] later[i] == o && tail[i]->Done_0 is Ok;
        assert(all[i + 1] == o && replies[i + 1]->Done_0 is Ok);
    }
}

/// What is asked of wpa_supplicant in a release, and what comes of it: it lets go,
/// it is not there, or it refuses and the release is undone.
proof fn a_supplicant_lets_go_or_not(
    iface: Seq<char>,
    network_manager: bool,
    replies: Seq<LinuxReplyView>,
)
    requires
        crate::program::outcome(
            crate::handover::release_supplicant(iface, network_manager),
            replies,
        ) is Some,
    ensures
        ({
            let p = crate::handover::release_supplicant(iface, network_manager);
            let asked = crate::program::asked(p, replies);
            let held = Holders { network_manager, supplicant: false };
            let went = was_done(LinuxOpView::WpaRelease { iface }, asked, replies);
            &&& asked.len() <= replies.len()
            &&& !was_done(LinuxOpView::NmRelease { iface }, asked, replies)
            &&& match crate::program::outcome(p, replies)->0 {
                Ok(h) => {
                    &&& h == Holders { network_manager, supplicant: went }
                    &&& asked == seq![LinuxOpView::WpaPresent] + (if h.supplicant {
                        seq![LinuxOpView::WpaRelease { iface }]
                    } else {
                        Seq::empty()
                    })
                },
                Err(e) => {
                    &&& !went
                    &&& ends_with(p, crate::handover::reclaim_program(iface, held), replies)
                },
            }
        }),
{
    let nm = LinuxOpView::NmRelease { iface };
    let wpa = LinuxOpView::WpaRelease { iface };
    let held = Holders { network_manager, supplicant: false };
    let p = crate::handover::release_supplicant(iface, network_manager);
    assert(replies.len() > 0);
    crate::program::one_reply(p->Ask_0, p->Ask_1, replies);
    let tail = replies.drop_first();
    let q = (p->Ask_1)(replies[0]);
    if replies[0]->Present_0 {
        assert(tail.len() > 0);
        crate::program::one_reply(q->Ask_0, q->Ask_1, tail);
        let rest = tail.drop_first();
        let last = (q->Ask_1)(tail[0]);
        let later = crate::program::asked(last, rest);
        match tail[0]->Done_0 {
            Ok(u) => {
                assert(last is Return);
            },
            Err(e) => {
                assert(last == crate::handover::undo_release(iface, held, e));
                a_release_is_undone(iface, held, e, rest);
                ask_ends_with(
                    q->Ask_0,
                    q->Ask_1,
                    crate::handover::reclaim_program(iface, held),
                    tail,
                );
                ask_ends_with(
                    p->Ask_0,
                    p->Ask_1,
                    crate::handover::reclaim_program(iface, held),
                    replies,
                );
            },
        }
        done_first_or_later(nm, q->Ask_0, later, tail);
        done_first_or_later(wpa, q->Ask_0, later, tail);
    } else {
        assert(q is Return);
    }
    done_first_or_later(nm, p->Ask_0, crate::program::asked(q, tail), replies);
    done_first_or_later(wpa, p->Ask_0, crate::program::asked(q, tail), replies);
}

/// Undoing a release is the hand-back and the refusal, and releases nothing.
proof fn a_release_is_undone(
    iface: Seq<char>,
    held: Holders,
    e: ErrorView,
    replies: Seq<LinuxReplyView>,
)
    requires
        crate::program::outcome(crate::handover::undo_release(iface, held, e), replies) is Some,
    ensures
        ({
            let p = crate::handover::undo_release(iface, held, e);
            let asked = crate::program::asked(p, replies);
            &&& crate::program::outcome(p, replies)->0 == Err::<Holders, ErrorView>(e)
            &&& asked.len() <= replies.len()
            &&& !was_done(LinuxOpView::NmRelease { iface }, asked, replies)
            &&& !was_done(LinuxOpView::WpaRelease { iface }, asked, replies)
            &&& ends_with(p, crate::handover::reclaim_program(iface, held), replies)
        }),
{
    let reclaim = crate::handover::reclaim_program(iface, held);
    let f = crate::handover::refusal(e);
    let p = crate::handover::undo_release(iface, held, e);
    crate::program::bind_runs_in_sequence(reclaim, f, replies);
    let t = crate::program::outcome(reclaim, replies)->0;
    assert(f(t) is Return);
    let asked = crate::program::asked(p, replies);
    assert(asked =~= crate::program::asked(reclaim, replies));
    ends_with_itself(reclaim, replies);
    bind_return_ends_with(reclaim, f, reclaim, replies);
    reclaim_spares_the_others(iface, held);
    assert forall|i: int| 0 <= i < asked.len() implies to_a_holder(iface, held)(
        #[trigger] asked[i],
    ) by {
        crate::program::runs_ask_only(reclaim, to_a_holder(iface, held), replies, i);
    }
}

/// A release is complete or undone: where it succeeds, it names the services that
/// let go, and where it fails, it ends with the hand-back to exactly those.
pub proof fn a_release_is_complete_or_undone(iface: Seq<char>, replies: Seq<LinuxReplyView>)
    requires
        crate::program::outcome(crate::handover::release_program(iface), replies) is Some,
    ensures
        ({
            let p = crate::handover::release_program(iface);
            let held = let_go(iface, crate::program::asked(p, replies), replies);
            match crate::program::outcome(p, replies)->0 {
                Ok(h) => h == held,
                Err(e) => ends_with(p, crate::handover::reclaim_program(iface, held), replies),
            }
        }),
{
    let nm = LinuxOpView::NmRelease { iface };
    let wpa = LinuxOpView::WpaRelease { iface };
    let p = crate::handover::release_program(iface);
    assert(replies.len() > 0);
    crate::program::one_reply(p->Ask_0, p->Ask_1, replies);
    let tail = replies.drop_first();
    let q = (p->Ask_1)(replies[0]);
    let held = let_go(iface, crate::program::asked(p, replies), replies);
    if replies[0]->Present_0 {
        assert(tail.len() > 0);
        crate::program::one_reply(q->Ask_0, q->Ask_1, tail);
        let rest = tail.drop_first();
        let last = (q->Ask_1)(tail[0]);
        let later = crate::program::asked(last, rest);
        if tail[0]->Done_0 is Ok {
            assert(last == crate::handover::release_supplicant(iface, true));
            a_supplicant_lets_go_or_not(iface, true, rest);
        } else {
            assert(last is Return);
        }
        done_first_or_later(nm, q->Ask_0, later, tail);
        done_first_or_later(wpa, q->Ask_0, later, tail);
        done_first_or_later(nm, p->Ask_0, crate::program::asked(q, tail), replies);
        done_first_or_later(wpa, p->Ask_0, crate::program::asked(q, tail), replies);
        if crate::program::outcome(p, replies)->0 is Err {
            let reclaim = crate::handover::reclaim_program(iface, held);
            if last is Return {
                ends_with_nothing(last, reclaim, rest);
            }
            ask_ends_with(q->Ask_0, q->Ask_1, reclaim, tail);
            ask_ends_with(p->Ask_0, p->Ask_1, reclaim, replies);
        }
    } else {
        assert(q == crate::handover::release_supplicant(iface, false));
        a_supplicant_lets_go_or_not(iface, false, tail);
        done_first_or_later(nm, p->Ask_0, crate::program::asked(q, tail), replies);
        done_first_or_later(wpa, p->Ask_0, crate::program::asked(q, tail), replies);
        if crate::program::outcome(p, replies)->0 is Err {
            let reclaim = crate::handover::reclaim_program(iface, held);
            ask_ends_with(p->Ask_0, p->Ask_1, reclaim, replies);
        }
    }
}

/// A run that is over ends with a conversation that asks nothing.
proof fn ends_with_nothing<O, R, T, U>(
    p: Program<O, R, T>,
    last: Program<O, R, U>,
    replies: Seq<R>,
)
    requires
        p is Return,
        last is Return,
    ensures
        ends_with(p, last, replies),
{
    assert(crate::program::asked(p, replies).skip(0) =~= Seq::empty());
    assert(ends_with_from(p, last, replies, 0));
}

/// A hand-back that succeeds went to exactly the services that held the
/// interface: the mirror of the release.
pub proof fn reclaim_mirrors_release(
    iface: Seq<char>,
    held: Holders,
    replies: Seq<LinuxReplyView>,
)
    requires
        crate::program::outcome(crate::handover::reclaim_program(iface, held), replies) == Some(
            Ok::<(), ErrorView>(()),
        ),
    ensures
        crate::program::asked(crate::handover::reclaim_program(iface, held), replies)
            == reclaim_questions(iface, held),
{
    reveal_with_fuel(crate::program::asked, 3);
    reveal_with_fuel(crate::program::outcome, 3);
    assert(crate::program::asked(crate::handover::reclaim_program(iface, held), replies)
        =~= reclaim_questions(iface, held));
}

/// Whether an operation hands the interface back to one of its holders.
pub open spec fn to_a_holder(iface: Seq<char>, held: Holders) -> spec_fn(LinuxOpView) -> bool {
    |o: LinuxOpView|
        (o == LinuxOpView::NmReclaim { iface } && held.network_manager) || (o
            == LinuxOpView::WpaReclaim { iface } && held.supplicant)
}

/// A hand-back, complete or not, never goes to a service that did not hold the
/// interface.
pub proof fn reclaim_spares_the_others(iface: Seq<char>, held: Holders)
    ensures
        crate::program::asks_only(
            crate::handover::reclaim_program(iface, held),
            to_a_holder(iface, held),
        ),
{
    let allowed = to_a_holder(iface, held);
    let second = crate::handover::reclaim_supplicant(iface, held);
    if held.supplicant {
        assert(second is Ask);
        assert forall|r: LinuxReplyView|
            crate::program::asks_only(#[trigger] (second->Ask_1)(r), allowed) by {
            assert((second->Ask_1)(r) is Return);
        }
    }
    assert(crate::program::asks_only(second, allowed));
    let whole = crate::handover::reclaim_program(iface, held);
    if held.network_manager {
        assert forall|r: LinuxReplyView|
            crate::program::asks_only(#[trigger] (whole->Ask_1)(r), allowed) by {
            assert((whole->Ask_1)(r) is Return || (whole->Ask_1)(r) == second);
        }
    }
}

/// A radio that is already in monitor mode is refused without a single question.
pub proof fn a_busy_radio_is_left_alone(iface: InterfaceView, replies: Seq<LinuxReplyView>)
    requires
        iface.mode == InterfaceMode::Monitor,
    ensures
        crate::program::asked(crate::enter::enter_program(iface), replies).len() == 0,
        crate::program::outcome(crate::enter::enter_program(iface), replies) == Some(
            Err::<Holders, ErrorView>(ErrorView::AlreadyMonitor { iface: iface.name }),
        ),
{
}

/// An entry succeeds only on confirmation: after the release it asks for the switch
/// to monitor mode, which was done, and for the readback, which said monitor mode,
/// and for nothing else. On a host that runs neither service that is the bare
/// switch.
pub proof fn an_entry_is_confirmed(
    iface: InterfaceView,
    held: Holders,
    replies: Seq<LinuxReplyView>,
)
    requires
        crate::program::outcome(crate::enter::enter_program(iface), replies) == Some(
            Ok::<Holders, ErrorView>(held),
        ),
    ensures
        ({
            let asked = crate::program::asked(crate::enter::enter_program(iface), replies);
            let n = asked.len() as int;
            &&& asked == release_questions(iface.name, held) + seq![
                LinuxOpView::SetMode {
                index: iface.index,
                name: iface.name,
                mode: InterfaceMode::Monitor,
            },
                LinuxOpView::ReadMode { index: iface.index },
            ]
            &&& replies[n - 2]->Done_0 is Ok
            &&& replies[n - 1]->Mode_0 == Ok::<InterfaceMode, ErrorView>(InterfaceMode::Monitor)
        }),
{
    let release = crate::handover::release_program(iface.name);
    let f = crate::enter::after_release(iface);
    crate::program::bind_runs_in_sequence(release, f, replies);
    let first = crate::program::asked(release, replies);
    let rest = replies.skip(first.len() as int);
    let r = crate::program::outcome(release, replies)->0;
    match r {
        Ok(h) => {
            let p = crate::enter::switch_in(iface, h);
            assert(f(r) == p);
            only_confirmed(iface, h, held, rest);
            release_records_what_it_took(iface.name, h, replies);
            assert(crate::program::asked(p, rest) =~= seq![
                LinuxOpView::SetMode {
                index: iface.index,
                name: iface.name,
                mode: InterfaceMode::Monitor,
            },
                LinuxOpView::ReadMode { index: iface.index },
            ]);
        },
        Err(e) => {
            assert(f(r) is Return);
        },
    }
}

/// The same, from the switch on.
proof fn only_confirmed(
    iface: InterfaceView,
    h: Holders,
    held: Holders,
    rest: Seq<LinuxReplyView>,
)
    requires
        crate::program::outcome(crate::enter::switch_in(iface, h), rest) == Some(
            Ok::<Holders, ErrorView>(held),
        ),
    ensures
        ({
            let asked = crate::program::asked(crate::enter::switch_in(iface, h), rest);
            &&& held == h
            &&& asked.len() == 2
            &&& rest.len() >= 2
            &&& asked[0] == LinuxOpView::SetMode {
                index: iface.index,
                name: iface.name,
                mode: InterfaceMode::Monitor,
            }
            &&& rest[0]->Done_0 is Ok
            &&& asked[1] == LinuxOpView::ReadMode { index: iface.index }
            &&& rest[1]->Mode_0 == Ok::<InterfaceMode, ErrorView>(InterfaceMode::Monitor)
        }),
{
    let p = crate::enter::switch_in(iface, h);
    assert(rest.len() > 0);
    let tail = rest.drop_first();
    match rest[0]->Done_0 {
        Ok(u) => {
            let q = crate::enter::confirm(iface, h);
            assert((p->Ask_1)(rest[0]) == q);
            assert(crate::program::outcome(p, rest) == crate::program::outcome(q, tail));
            assert(crate::program::asked(p, rest) == seq![p->Ask_0] + crate::program::asked(
                q,
                tail,
            ));
            assert(tail.len() > 0);
            let next = (q->Ask_1)(tail[0]);
            assert(crate::program::outcome(q, tail) == crate::program::outcome(
                next,
                tail.drop_first(),
            ));
            assert(crate::program::asked(q, tail) == seq![q->Ask_0] + crate::program::asked(
                next,
                tail.drop_first(),
            ));
            assert(tail[0] == rest[1]);
            if tail[0]->Mode_0 != Ok::<InterfaceMode, ErrorView>(InterfaceMode::Monitor) {
                let e = crate::enter::unconfirmed(iface, tail[0]->Mode_0);
                let undo = crate::rollback::switch_back(iface, h, e);
                assert(next == crate::program::bind(undo, crate::enter::failing::<Holders>()));
                fails(undo, tail.drop_first());
            } else {
                assert(next is Return);
            }
        },
        Err(e) => {
            let undo = crate::rollback::hand_back(iface.name, h, e);
            assert((p->Ask_1)(rest[0]) == crate::program::bind(undo, crate::enter::failing::<Holders>()));
            fails(undo, tail);
        },
    }
}

/// A rollback never ends well.
proof fn fails(p: crate::ops::LinuxProgram<ErrorView>, replies: Seq<LinuxReplyView>)
    ensures
        crate::program::outcome(
            crate::program::bind(p, crate::enter::failing::<Holders>()),
            replies,
        ) matches Some(r) ==> r is Err,
{
    let f = crate::enter::failing::<Holders>();
    let allowed = |r: Result<Holders, ErrorView>| r is Err;
    assert forall|e: ErrorView| crate::program::yields_only(#[trigger] f(e), allowed) by {}
    crate::program::bind_yields_only(p, f, allowed);
    crate::program::runs_yield_only(crate::program::bind(p, f), allowed, replies);
}

/// A failed entry strands nothing: once the interface was released from `held`,
/// an entry that fails ends with handing it back to exactly those services, and,
/// where the switch to monitor mode was done, with switching it back before that.
pub proof fn a_failed_entry_hands_back(
    iface: InterfaceView,
    held: Holders,
    e: ErrorView,
    replies: Seq<LinuxReplyView>,
)
    requires
        iface.mode != InterfaceMode::Monitor,
        crate::program::outcome(crate::handover::release_program(iface.name), replies) == Some(
            Ok::<Holders, ErrorView>(held),
        ),
        crate::program::outcome(crate::enter::enter_program(iface), replies) == Some(
            Err::<Holders, ErrorView>(e),
        ),
    ensures
        replies[release_questions(iface.name, held).len() as int]->Done_0 is Ok ==> ends_with(
            crate::enter::enter_program(iface),
            crate::rollback::switch_back(iface, held, e),
            replies,
        ),
        ends_with(
            crate::enter::enter_program(iface),
            crate::handover::reclaim_program(iface.name, held),
            replies,
        ),
{
    let release = crate::handover::release_program(iface.name);
    let f = crate::enter::after_release(iface);
    let r = Ok::<Holders, ErrorView>(held);
    crate::program::bind_runs_in_sequence(release, f, replies);
    release_records_what_it_took(iface.name, held, replies);
    let rest = replies.skip(crate::program::asked(release, replies).len() as int);
    let p = crate::enter::switch_in(iface, held);
    assert(f(r) == p);
    let last = crate::handover::reclaim_program(iface.name, held);
    assert(rest.len() > 0);
    let tail = rest.drop_first();
    match rest[0]->Done_0 {
        Ok(u) => {
            let q = crate::enter::confirm(iface, held);
            assert((p->Ask_1)(rest[0]) == q);
            assert(crate::program::outcome(p, rest) == crate::program::outcome(q, tail));
            assert(tail.len() > 0);
            let next = (q->Ask_1)(tail[0]);
            assert(crate::program::outcome(q, tail) == crate::program::outcome(
                next,
                tail.drop_first(),
            ));
            if tail[0]->Mode_0 == Ok::<InterfaceMode, ErrorView>(InterfaceMode::Monitor) {
                assert(next is Return);
            }
            let x = crate::enter::unconfirmed(iface, tail[0]->Mode_0);
            let undo = crate::rollback::switch_back(iface, held, x);
            assert((q->Ask_1)(tail[0]) == crate::program::bind(
                undo,
                crate::enter::failing::<Holders>(),
            ));
            switching_back_hands_back(iface, held, x, e, tail.drop_first());
            ask_ends_with(q->Ask_0, q->Ask_1, last, tail);
            ask_ends_with(q->Ask_0, q->Ask_1, undo, tail);
            ask_ends_with(p->Ask_0, p->Ask_1, undo, rest);
            bind_ends_with(release, f, undo, replies, r);
        },
        Err(x) => {
            assert((p->Ask_1)(rest[0]) == crate::program::bind(
                crate::rollback::hand_back(iface.name, held, x),
                crate::enter::failing::<Holders>(),
            ));
            handing_back_hands_back::<Holders>(iface.name, held, x, tail);
        },
    }
    ask_ends_with(p->Ask_0, p->Ask_1, last, rest);
    bind_ends_with(release, f, last, replies, r);
}

/// Whether a run of an entry ends with the hand-back to exactly the services that
/// let go of the interface in it.
pub open spec fn handed_back(iface: InterfaceView, replies: Seq<LinuxReplyView>) -> bool {
    let entry = crate::enter::enter_program(iface);
    let held = let_go(iface.name, crate::program::asked(entry, replies), replies);
    ends_with(entry, crate::handover::reclaim_program(iface.name, held), replies)
}

/// Whenever an entry fails, and wherever it does, its run ends with the hand-back
/// to exactly the services that had let go of the interface.
pub proof fn a_failed_entry_leaves_no_service_out(
    iface: InterfaceView,
    e: ErrorView,
    replies: Seq<LinuxReplyView>,
)
    requires
        crate::program::outcome(crate::enter::enter_program(iface), replies) == Some(
            Err::<Holders, ErrorView>(e),
        ),
    ensures
        handed_back(iface, replies),
{
    let entry = crate::enter::enter_program(iface);
    let asked = crate::program::asked(entry, replies);
    let held = let_go(iface.name, asked, replies);
    let reclaim = crate::handover::reclaim_program(iface.name, held);
    if iface.mode == InterfaceMode::Monitor {
        ends_with_nothing(entry, reclaim, replies);
    } else {
        let release = crate::handover::release_program(iface.name);
        let f = crate::enter::after_release(iface);
        crate::program::bind_runs_in_sequence(release, f, replies);
        a_release_is_complete_or_undone(iface.name, replies);
        let first = crate::program::asked(release, replies);
        let rest = replies.skip(first.len() as int);
        let r = crate::program::outcome(release, replies)->0;
        match r {
            Ok(h) => {
                let p = crate::enter::switch_in(iface, h);
                assert(f(r) == p);
                let second = crate::program::asked(p, rest);
                let past = past_the_release();
                switching_asks_only(iface, h, past);
                assert forall|i: int| 0 <= i < second.len() implies past(#[trigger] second[i]) by {
                    crate::program::runs_ask_only(p, past, rest, i);
                }
                done_before(LinuxOpView::NmRelease { iface: iface.name }, first, second, replies);
                done_before(LinuxOpView::WpaRelease { iface: iface.name }, first, second, replies);
                assert(held == h);
                a_failed_entry_hands_back(iface, h, e, replies);
            },
            Err(x) => {
                assert(f(r) is Return);
                assert(asked =~= first);
                let k = choose|k: int| #[trigger] ends_with_from(release, reclaim, replies, k);
                assert(ends_with_from(entry, reclaim, replies, k));
            },
        }
    }
}

/// What is asked once the release is over: no service is asked to let go.
spec fn past_the_release() -> spec_fn(LinuxOpView) -> bool {
    |o: LinuxOpView| !(o is NmRelease) && !(o is WpaRelease)
}

/// What the second part of a run does not ask for was done in the first, or not.
proof fn done_before(
    o: LinuxOpView,
    first: Seq<LinuxOpView>,
    second: Seq<LinuxOpView>,
    replies: Seq<LinuxReplyView>,
)
    requires
        forall|i: int| 0 <= i < second.len() ==> #[trigger] second[i] != o,
    ensures
        was_done(o, first + second, replies) == was_done(o, first, replies),
{
    let all = first + second;
    if was_done(o, all, replies) {
        let i = choose|i: int|
            0 <= i < all.len() && #[trigger] all[i] == o && replies[i]->Done_0 is Ok;
        if i >= first.len() {
            assert(second[i - first.len()] == o);
        }
        assert(first[i] == o);
    }
    if was_done(o, first, replies) {
        let i = choose|i: int|
            0 <= i < first.len() && #[trigger] first[i] == o && replies[i]->Done_0 is Ok;
        assert(all[i] == o);
    }
}

/// Where a service refuses to let go, the entry fails with that refusal and no
/// switch of the mode is asked for.
pub proof fn a_refused_release_switches_nothing(
    iface: InterfaceView,
    e: ErrorView,
    replies: Seq<LinuxReplyView>,
)
    requires
        iface.mode != InterfaceMode::Monitor,
        crate::program::outcome(crate::handover::release_program(iface.name), replies) == Some(
            Err::<Holders, ErrorView>(e),
        ),
    ensures
        crate::program::outcome(crate::enter::enter_program(iface), replies) == Some(
            Err::<Holders, ErrorView>(e),
        ),
        forall|i: int|
            0 <= i < crate::program::asked(crate::enter::enter_program(iface), replies).len()
                ==> !(#[trigger] crate::program::asked(
                crate::enter::enter_program(iface),
                replies,
            )[i] is SetMode),
{
    let entry = crate::enter::enter_program(iface);
    let release = crate::handover::release_program(iface.name);
    let f = crate::enter::after_release(iface);
    let allowed = |o: LinuxOpView| !(o is SetMode);
    crate::program::bind_runs_in_sequence(release, f, replies);
    assert(f(Err(e)) is Return);
    let asked = crate::program::asked(entry, replies);
    assert(asked =~= crate::program::asked(release, replies));
    release_asks_only(iface.name, allowed);
    assert forall|i: int| 0 <= i < asked.len() implies !(#[trigger] asked[i] is SetMode) by {
        crate::program::runs_ask_only(release, allowed, replies, i);
    }
}

proof fn handing_back_hands_back<T>(
    iface: Seq<char>,
    held: Holders,
    e: ErrorView,
    replies: Seq<LinuxReplyView>,
)
    requires
        crate::program::outcome(
            crate::program::bind(
                crate::rollback::hand_back(iface, held, e),
                crate::enter::failing::<T>(),
            ),
            replies,
        ) is Some,
    ensures
        ends_with(
            crate::program::bind(
                crate::rollback::hand_back(iface, held, e),
                crate::enter::failing::<T>(),
            ),
            crate::handover::reclaim_program(iface, held),
            replies,
        ),
{
    let last = crate::handover::reclaim_program(iface, held);
    let inner = crate::rollback::after_hand_back(e);
    let middle = crate::program::bind(last, inner);
    crate::program::bind_runs_in_sequence(last, inner, replies);
    crate::program::bind_runs_in_sequence(middle, crate::enter::failing::<T>(), replies);
    ends_with_itself(last, replies);
    bind_return_ends_with(last, inner, last, replies);
    bind_return_ends_with(middle, crate::enter::failing::<T>(), last, replies);
}

proof fn switching_back_hands_back(
    iface: InterfaceView,
    held: Holders,
    x: ErrorView,
    e: ErrorView,
    replies: Seq<LinuxReplyView>,
)
    requires
        crate::program::outcome(
            crate::program::bind(
                crate::rollback::switch_back(iface, held, x),
                crate::enter::failing::<Holders>(),
            ),
            replies,
        ) == Some(Err::<Holders, ErrorView>(e)),
    ensures
        x == e,
        ends_with(
            crate::program::bind(
                crate::rollback::switch_back(iface, held, x),
                crate::enter::failing::<Holders>(),
            ),
            crate::rollback::switch_back(iface, held, x),
            replies,
        ),
        ends_with(
            crate::program::bind(
                crate::rollback::switch_back(iface, held, x),
                crate::enter::failing::<Holders>(),
            ),
            crate::handover::reclaim_program(iface.name, held),
            replies,
        ),
{
    let f = crate::enter::failing::<Holders>();
    let p = crate::rollback::switch_back(iface, held, x);
    let b = crate::program::bind(p, f);
    let inner = crate::rollback::hand_back(iface.name, held, x);
    let next = crate::program::bind(inner, f);
    let reclaim = crate::handover::reclaim_program(iface.name, held);
    assert(replies.len() > 0);
    let tail = replies.drop_first();
    assert((p->Ask_1)(replies[0]) == inner);
    assert((b->Ask_1)(replies[0]) == next);
    crate::program::bind_runs_in_sequence(inner, f, tail);
    crate::program::bind_runs_in_sequence(
        reclaim,
        crate::rollback::after_hand_back(x),
        tail,
    );
    assert(crate::program::outcome(inner, tail) == Some(x));
    assert(f(x) is Return);
    handing_back_hands_back::<Holders>(iface.name, held, x, tail);
    ask_ends_with(b->Ask_0, b->Ask_1, reclaim, replies);
    crate::program::bind_runs_in_sequence(p, f, replies);
    ends_with_itself(p, replies);
    bind_return_ends_with(p, f, p, replies);
}

/// Taking a session back goes in the reverse order of bringing it up: the name,
/// the mode, then the hand-back. The result is the error that made it necessary.
pub proof fn a_rollback_goes_in_reverse(
    iface: InterfaceView,
    new_name: Seq<char>,
    held: Holders,
    e: ErrorView,
    replies: Seq<LinuxReplyView>,
)
    requires
        crate::program::outcome(
            crate::rollback::rename_back(iface, new_name, held, e),
            replies,
        ) is Some,
    ensures
        crate::program::outcome(
            crate::rollback::rename_back(iface, new_name, held, e),
            replies,
        ) == Some(e),
        crate::program::asked(crate::rollback::rename_back(iface, new_name, held, e), replies)
            == seq![
            LinuxOpView::Rename { index: iface.index, old: new_name, new: iface.name },
            LinuxOpView::SetMode {
                index: iface.index,
                name: iface.name,
                mode: InterfaceMode::Managed,
            },
        ] + crate::program::asked(
            crate::handover::reclaim_program(iface.name, held),
            replies.skip(2),
        ),
        crate::program::outcome(
            crate::handover::reclaim_program(iface.name, held),
            replies.skip(2),
        ) is Some,
{
    let p = crate::rollback::rename_back(iface, new_name, held, e);
    let q = crate::rollback::switch_back(iface, held, e);
    let last = crate::handover::reclaim_program(iface.name, held);
    let f = crate::rollback::after_hand_back(e);
    assert(replies.len() > 0);
    let tail = replies.drop_first();
    crate::program::one_reply(p->Ask_0, p->Ask_1, replies);
    assert((p->Ask_1)(replies[0]) == q);
    assert(tail.len() > 0);
    crate::program::one_reply(q->Ask_0, q->Ask_1, tail);
    assert((q->Ask_1)(tail[0]) == crate::program::bind(last, f));
    assert(tail.drop_first() =~= replies.skip(2));
    crate::program::bind_runs_in_sequence(last, f, replies.skip(2));
    let t = crate::program::outcome(last, replies.skip(2))->0;
    assert(f(t) is Return);
    assert(crate::program::asked(p, replies) =~= seq![
        LinuxOpView::Rename { index: iface.index, old: new_name, new: iface.name },
        LinuxOpView::SetMode {
                index: iface.index,
                name: iface.name,
                mode: InterfaceMode::Managed,
            },
    ] + crate::program::asked(last, replies.skip(2)));
}

/// A start under a new name that fails after the entry ends with taking the whole
/// session back, whether the rename itself failed or the renamed interface could
/// not be found.
pub proof fn a_failed_start_as_takes_everything_back(
    name: Seq<char>,
    new_name: Seq<char>,
    iface: InterfaceView,
    held: Holders,
    e: ErrorView,
    replies: Seq<LinuxReplyView>,
)
    requires
        replies.len() > 0,
        crate::leave::looked_up(replies[0]->Interfaces_0, name) == Ok::<InterfaceView, ErrorView>(
            iface,
        ),
        crate::program::outcome(crate::enter::enter_program(iface), replies.drop_first()) == Some(
            Ok::<Holders, ErrorView>(held),
        ),
        crate::program::outcome(crate::start::start_as_program(name, new_name), replies) == Some(
            Err::<InterfaceView, ErrorView>(e),
        ),
    ensures
        ends_with(
            crate::start::start_as_program(name, new_name),
            crate::rollback::rename_back(iface, new_name, held, e),
            replies,
        ),
{
    let p = crate::start::start_as_program(name, new_name);
    let tail = replies.drop_first();
    let entry = crate::enter::enter_program(iface);
    let f = crate::start::then_rename(iface, new_name);
    let r = Ok::<Holders, ErrorView>(held);
    let last = crate::rollback::rename_back(iface, new_name, held, e);
    crate::program::one_reply(p->Ask_0, p->Ask_1, replies);
    assert((p->Ask_1)(replies[0]) == crate::program::bind(entry, f));
    crate::program::bind_runs_in_sequence(entry, f, tail);
    let rest = tail.skip(crate::program::asked(entry, tail).len() as int);
    assert(f(r) == crate::start::rename_in(iface, new_name, held));
    a_failed_rename_takes_everything_back(iface, new_name, held, e, rest);
    bind_ends_with(entry, f, last, tail, r);
    ask_ends_with(p->Ask_0, p->Ask_1, last, replies);
}

/// The same, from the rename on.
proof fn a_failed_rename_takes_everything_back(
    iface: InterfaceView,
    new_name: Seq<char>,
    held: Holders,
    e: ErrorView,
    replies: Seq<LinuxReplyView>,
)
    requires
        crate::program::outcome(crate::start::rename_in(iface, new_name, held), replies) == Some(
            Err::<InterfaceView, ErrorView>(e),
        ),
    ensures
        ends_with(
            crate::start::rename_in(iface, new_name, held),
            crate::rollback::rename_back(iface, new_name, held, e),
            replies,
        ),
{
    let p = crate::start::rename_in(iface, new_name, held);
    let last = crate::rollback::rename_back(iface, new_name, held, e);
    assert(replies.len() > 0);
    let tail = replies.drop_first();
    crate::program::one_reply(p->Ask_0, p->Ask_1, replies);
    match replies[0]->Done_0 {
        Ok(u) => {
            let q = crate::start::find_renamed(iface, new_name, held);
            assert((p->Ask_1)(replies[0]) == q);
            assert(tail.len() > 0);
            crate::program::one_reply(q->Ask_0, q->Ask_1, tail);
            match crate::leave::looked_up(tail[0]->Interfaces_0, new_name) {
                Ok(renamed) => {
                    assert((q->Ask_1)(tail[0]) is Return);
                },
                Err(x) => {
                    assert((q->Ask_1)(tail[0]) == crate::start::take_back(
                        iface,
                        new_name,
                        held,
                        x,
                    ));
                    taking_back_ends_with_it(iface, new_name, held, x, e, tail.drop_first());
                },
            }
            ask_ends_with(q->Ask_0, q->Ask_1, last, tail);
        },
        Err(x) => {
            assert((p->Ask_1)(replies[0]) == crate::start::take_back(iface, new_name, held, x));
            taking_back_ends_with_it(iface, new_name, held, x, e, tail);
        },
    }
    ask_ends_with(p->Ask_0, p->Ask_1, last, replies);
}

proof fn taking_back_ends_with_it(
    iface: InterfaceView,
    new_name: Seq<char>,
    held: Holders,
    x: ErrorView,
    e: ErrorView,
    replies: Seq<LinuxReplyView>,
)
    requires
        crate::program::outcome(crate::start::take_back(iface, new_name, held, x), replies) == Some(
            Err::<InterfaceView, ErrorView>(e),
        ),
    ensures
        x == e,
        ends_with(
            crate::start::take_back(iface, new_name, held, x),
            crate::rollback::rename_back(iface, new_name, held, e),
            replies,
        ),
{
    let last = crate::rollback::rename_back(iface, new_name, held, x);
    let f = crate::enter::failing::<InterfaceView>();
    crate::program::bind_runs_in_sequence(last, f, replies);
    a_rollback_goes_in_reverse(iface, new_name, held, x, replies);
    assert(f(x) is Return);
    ends_with_itself(last, replies);
    bind_return_ends_with(last, f, last, replies);
}

/// Whether an operation leaves the mode and the name of every interface alone.
pub open spec fn harmless() -> spec_fn(LinuxOpView) -> bool {
    |o: LinuxOpView|
        !(o is SetMode) && !(o is Rename) && !(o is SetFreq) && !(o is NmRelease) && !(
        o is WpaRelease)
}

/// Whether a result is a success.
pub open spec fn success<T>() -> spec_fn(Result<T, ErrorView>) -> bool {
    |r: Result<T, ErrorView>| r is Ok
}

/// Offering an interface to the services changes no mode and no name, and is a
/// success whatever they say.
proof fn an_offer_is_harmless(name: Seq<char>)
    ensures
        crate::program::asks_only(crate::leave::offer(name), harmless()),
        crate::program::yields_only(crate::leave::offer(name), success()),
{
    let p = crate::leave::offer(name);
    assert forall|r: LinuxReplyView|
        crate::program::asks_only(#[trigger] (p->Ask_1)(r), harmless())
            && crate::program::yields_only((p->Ask_1)(r), success()) by {
        let q = crate::leave::offer_supplicant(name, r->Present_0);
        assert((p->Ask_1)(r) == q);
        assert forall|s: LinuxReplyView|
            crate::program::asks_only(#[trigger] (q->Ask_1)(s), harmless())
                && crate::program::yields_only((q->Ask_1)(s), success()) by {
            let held = Holders { network_manager: r->Present_0, supplicant: s->Present_0 };
            let reclaim = crate::handover::reclaim_program(name, held);
            let f = crate::leave::tolerant();
            assert((q->Ask_1)(s) == crate::program::bind(reclaim, f));
            reclaim_spares_the_others(name, held);
            asks_less(reclaim, to_a_holder(name, held), harmless());
            assert forall|t: Result<(), ErrorView>|
                crate::program::asks_only(#[trigger] f(t), harmless())
                    && crate::program::yields_only(f(t), success()) by {
                assert(f(t) is Return);
            }
            crate::program::bind_asks_only(reclaim, f, harmless());
            crate::program::bind_yields_only(reclaim, f, success());
        }
    }
}

/// What asks only this asks only that, where this is that.
proof fn asks_less<O, R, T>(
    p: Program<O, R, T>,
    few: spec_fn(O) -> bool,
    more: spec_fn(O) -> bool,
)
    requires
        crate::program::asks_only(p, few),
        forall|o: O| #[trigger] few(o) ==> more(o),
    ensures
        crate::program::asks_only(p, more),
    decreases p,
{
    if let Program::Ask(o, k) = p {
        assert(few(o));
        assert forall|r| crate::program::asks_only(#[trigger] k(r), more) by {
            assert(crate::program::asks_only(k(r), few));
            asks_less(k(r), few, more);
        }
    }
}

/// Leaving is harmless to an interface that is not in monitor mode: nothing is
/// switched, tuned, renamed or released, and the call succeeds.
pub proof fn leaving_spares_a_managed_interface(
    name: Seq<char>,
    iface: InterfaceView,
    replies: Seq<LinuxReplyView>,
    i: int,
)
    requires
        replies.len() > 0,
        crate::leave::looked_up(replies[0]->Interfaces_0, name) == Ok::<InterfaceView, ErrorView>(
            iface,
        ),
        iface.mode != InterfaceMode::Monitor,
    ensures
        0 <= i < crate::program::asked(crate::leave::leave_program(name), replies).len()
            ==> harmless()(crate::program::asked(crate::leave::leave_program(name), replies)[i]),
        crate::program::outcome(crate::leave::leave_program(name), replies) matches Some(r)
            ==> r is Ok,
{
    let p = crate::leave::leave_program(name);
    let offer = crate::leave::offer(name);
    crate::program::one_reply(p->Ask_0, p->Ask_1, replies);
    assert((p->Ask_1)(replies[0]) == offer);
    an_offer_is_harmless(name);
    let rest = crate::program::asked(offer, replies.drop_first());
    if 0 < i <= rest.len() {
        crate::program::runs_ask_only(offer, harmless(), replies.drop_first(), i - 1);
    }
    crate::program::runs_yield_only(offer, success(), replies.drop_first());
}

/// Leaving monitor mode succeeds exactly when the switch back was made and read
/// back as managed mode. What the services say afterwards changes nothing, and
/// before that confirmation none of them is asked.
pub proof fn leaving_is_confirmed(
    name: Seq<char>,
    iface: InterfaceView,
    replies: Seq<LinuxReplyView>,
)
    requires
        replies.len() > 0,
        crate::leave::looked_up(replies[0]->Interfaces_0, name) == Ok::<InterfaceView, ErrorView>(
            iface,
        ),
        iface.mode == InterfaceMode::Monitor,
        crate::program::outcome(crate::leave::leave_program(name), replies) is Some,
    ensures
        ({
            let confirmed = replies.len() >= 3 && replies[1]->Done_0 is Ok && replies[2]->Mode_0
                == Ok::<InterfaceMode, ErrorView>(InterfaceMode::Managed);
            let asked = crate::program::asked(crate::leave::leave_program(name), replies);
            &&& crate::program::outcome(crate::leave::leave_program(name), replies)->0 is Ok
                <==> confirmed
            &&& !confirmed ==> asked.len() <= 3
            &&& asked.len() >= 2 && asked[1] == LinuxOpView::SetMode {
                index: iface.index,
                name: iface.name,
                mode: InterfaceMode::Managed,
            }
            &&& asked.len() >= 3 ==> asked[2] == LinuxOpView::ReadMode { index: iface.index }
        }),
{
    let p = crate::leave::leave_program(name);
    crate::program::one_reply(p->Ask_0, p->Ask_1, replies);
    let q = crate::leave::switch_out(iface);
    assert((p->Ask_1)(replies[0]) == q);
    let tail = replies.drop_first();
    assert(tail.len() > 0);
    crate::program::one_reply(q->Ask_0, q->Ask_1, tail);
    assert(tail[0] == replies[1]);
    let next = (q->Ask_1)(tail[0]);
    let rest = tail.drop_first();
    match tail[0]->Done_0 {
        Ok(u) => {
            assert(next == crate::leave::confirm_out(iface));
            assert(rest.len() > 0);
            crate::program::one_reply(next->Ask_0, next->Ask_1, rest);
            assert(rest[0] == replies[2]);
            if rest[0]->Mode_0 == Ok::<InterfaceMode, ErrorView>(InterfaceMode::Managed) {
                let offer = crate::leave::offer(iface.name);
                assert((next->Ask_1)(rest[0]) == offer);
                an_offer_is_harmless(iface.name);
                crate::program::runs_yield_only(offer, success(), rest.drop_first());
            } else {
                assert((next->Ask_1)(rest[0]) is Return);
            }
        },
        Err(e) => {
            assert(next is Return);
        },
    }
}

/// Whoever runs on the host when an interface has left monitor mode is offered it:
/// a leave that succeeds ends with asking who is there and handing it back to
/// exactly those.
pub proof fn leaving_offers_the_interface(
    name: Seq<char>,
    iface: InterfaceView,
    replies: Seq<LinuxReplyView>,
)
    requires
        replies.len() > 0,
        crate::leave::looked_up(replies[0]->Interfaces_0, name) == Ok::<InterfaceView, ErrorView>(
            iface,
        ),
        crate::program::outcome(crate::leave::leave_program(name), replies) == Some(
            Ok::<(), ErrorView>(()),
        ),
    ensures
        ends_with(crate::leave::leave_program(name), crate::leave::offer(name), replies),
{
    let p = crate::leave::leave_program(name);
    let offer = crate::leave::offer(name);
    named_as_looked_up(replies[0]->Interfaces_0, name);
    crate::program::one_reply(p->Ask_0, p->Ask_1, replies);
    let tail = replies.drop_first();
    if iface.mode == InterfaceMode::Monitor {
        let q = crate::leave::switch_out(iface);
        assert((p->Ask_1)(replies[0]) == q);
        assert(tail.len() > 0);
        crate::program::one_reply(q->Ask_0, q->Ask_1, tail);
        let next = (q->Ask_1)(tail[0]);
        let rest = tail.drop_first();
        if tail[0]->Done_0 is Err {
            assert(next is Return);
        }
        assert(next == crate::leave::confirm_out(iface));
        assert(rest.len() > 0);
        crate::program::one_reply(next->Ask_0, next->Ask_1, rest);
        if rest[0]->Mode_0 != Ok::<InterfaceMode, ErrorView>(InterfaceMode::Managed) {
            assert((next->Ask_1)(rest[0]) is Return);
        }
        assert((next->Ask_1)(rest[0]) == offer);
        ends_with_itself(offer, rest.drop_first());
        ask_ends_with(next->Ask_0, next->Ask_1, offer, rest);
        ask_ends_with(q->Ask_0, q->Ask_1, offer, tail);
    } else {
        assert((p->Ask_1)(replies[0]) == offer);
        ends_with_itself(offer, tail);
    }
    ask_ends_with(p->Ask_0, p->Ask_1, offer, replies);
}

/// An offer asks who is there, and hands the interface back to exactly those.
pub proof fn an_offer_goes_to_who_is_there(name: Seq<char>, replies: Seq<LinuxReplyView>)
    requires
        crate::program::outcome(crate::leave::offer(name), replies) is Some,
    ensures
        replies.len() >= 2,
        crate::program::asked(crate::leave::offer(name), replies) == seq![
            LinuxOpView::NmPresent,
            LinuxOpView::WpaPresent,
        ] + crate::program::asked(
            crate::handover::reclaim_program(
                name,
                Holders {
                    network_manager: replies[0]->Present_0,
                    supplicant: replies[1]->Present_0,
                },
            ),
            replies.skip(2),
        ),
{
    let p = crate::leave::offer(name);
    assert(replies.len() > 0);
    crate::program::one_reply(p->Ask_0, p->Ask_1, replies);
    let tail = replies.drop_first();
    let q = crate::leave::offer_supplicant(name, replies[0]->Present_0);
    assert((p->Ask_1)(replies[0]) == q);
    assert(tail.len() > 0);
    crate::program::one_reply(q->Ask_0, q->Ask_1, tail);
    assert(tail[0] == replies[1]);
    let held = Holders {
        network_manager: replies[0]->Present_0,
        supplicant: replies[1]->Present_0,
    };
    let reclaim = crate::handover::reclaim_program(name, held);
    let f = crate::leave::tolerant();
    assert((q->Ask_1)(tail[0]) == crate::program::bind(reclaim, f));
    assert(tail.drop_first() =~= replies.skip(2));
    crate::program::bind_runs_in_sequence(reclaim, f, replies.skip(2));
    if let Some(t) = crate::program::outcome(reclaim, replies.skip(2)) {
        assert(f(t) is Return);
    }
    assert(crate::program::asked(p, replies) =~= seq![
        LinuxOpView::NmPresent,
        LinuxOpView::WpaPresent,
    ] + crate::program::asked(reclaim, replies.skip(2)));
}

/// Whether an operation is about an interface, or asks only who is there.
pub open spec fn about(c: InterfaceView, o: LinuxOpView) -> bool {
    match o {
        LinuxOpView::NmPresent | LinuxOpView::WpaPresent => true,
        LinuxOpView::SetMode { index, name, mode } => index == c.index && name == c.name,
        LinuxOpView::ReadMode { index } => index == c.index,
        LinuxOpView::NmRelease { iface } => iface == c.name,
        LinuxOpView::NmReclaim { iface } => iface == c.name,
        LinuxOpView::WpaRelease { iface } => iface == c.name,
        LinuxOpView::WpaReclaim { iface } => iface == c.name,
        _ => false,
    }
}

/// The operations about an interface.
pub open spec fn about_it(c: InterfaceView) -> spec_fn(LinuxOpView) -> bool {
    |o: LinuxOpView| about(c, o)
}

/// The operations about one of several interfaces.
pub open spec fn about_one_of(v: Seq<InterfaceView>) -> spec_fn(LinuxOpView) -> bool {
    |o: LinuxOpView| exists|i: int| 0 <= i < v.len() && about(#[trigger] v[i], o)
}

/// Entering monitor mode on an interface touches no other.
pub proof fn an_entry_touches_no_other(iface: InterfaceView)
    ensures
        crate::program::asks_only(crate::enter::enter_program(iface), about_it(iface)),
{
    let allowed = about_it(iface);
    if iface.mode != InterfaceMode::Monitor {
        let release = crate::handover::release_program(iface.name);
        let f = crate::enter::after_release(iface);
        release_asks_only(iface.name, allowed);
        assert forall|r: Result<Holders, ErrorView>|
            crate::program::asks_only(#[trigger] f(r), allowed) by {
            match r {
                Ok(held) => {
                    assert(f(r) == crate::enter::switch_in(iface, held));
                    switching_asks_only(iface, held, allowed);
                },
                Err(e) => {
                    assert(f(r) is Return);
                },
            }
        }
        crate::program::bind_asks_only(release, f, allowed);
    }
}

/// A release asks who is there, for the interface, and for its return.
proof fn release_asks_only(iface: Seq<char>, allowed: spec_fn(LinuxOpView) -> bool)
    requires
        allowed(LinuxOpView::NmPresent),
        allowed(LinuxOpView::WpaPresent),
        allowed(LinuxOpView::NmRelease { iface }),
        allowed(LinuxOpView::WpaRelease { iface }),
        allowed(LinuxOpView::NmReclaim { iface }),
        allowed(LinuxOpView::WpaReclaim { iface }),
    ensures
        crate::program::asks_only(crate::handover::release_program(iface), allowed),
{
    assert forall|nm: bool|
        crate::program::asks_only(
            #[trigger] crate::handover::release_supplicant(iface, nm),
            allowed,
        ) by {
        let p = crate::handover::release_supplicant(iface, nm);
        assert forall|r: LinuxReplyView|
            crate::program::asks_only(#[trigger] (p->Ask_1)(r), allowed) by {
            let q = (p->Ask_1)(r);
            if r->Present_0 {
                assert forall|s: LinuxReplyView|
                    crate::program::asks_only(#[trigger] (q->Ask_1)(s), allowed) by {
                    if let Err(e) = s->Done_0 {
                        let held = Holders { network_manager: nm, supplicant: false };
                        let reclaim = crate::handover::reclaim_program(iface, held);
                        let f = crate::handover::refusal(e);
                        reclaim_spares_the_others(iface, held);
                        asks_less(reclaim, to_a_holder(iface, held), allowed);
                        assert forall|t: Result<(), ErrorView>|
                            crate::program::asks_only(#[trigger] f(t), allowed) by {
                            assert(f(t) is Return);
                        }
                        crate::program::bind_asks_only(reclaim, f, allowed);
                        assert((q->Ask_1)(s) == crate::program::bind(reclaim, f));
                    } else {
                        assert((q->Ask_1)(s) is Return);
                    }
                }
            } else {
                assert(q is Return);
            }
        }
    }
    let p = crate::handover::release_program(iface);
    assert forall|r: LinuxReplyView|
        crate::program::asks_only(#[trigger] (p->Ask_1)(r), allowed) by {
        let q = (p->Ask_1)(r);
        if r->Present_0 {
            assert forall|s: LinuxReplyView|
                crate::program::asks_only(#[trigger] (q->Ask_1)(s), allowed) by {
                assert((q->Ask_1)(s) is Return || (q->Ask_1)(s)
                    == crate::handover::release_supplicant(iface, true));
            }
        } else {
            assert(q == crate::handover::release_supplicant(iface, false));
        }
    }
}

/// A rollback of the hand-over asks for the return of the interface.
proof fn handing_back_asks_only(
    iface: InterfaceView,
    held: Holders,
    e: ErrorView,
    allowed: spec_fn(LinuxOpView) -> bool,
)
    requires
        allowed(LinuxOpView::NmReclaim { iface: iface.name }),
        allowed(LinuxOpView::WpaReclaim { iface: iface.name }),
    ensures
        crate::program::asks_only(
            crate::program::bind(
                crate::rollback::hand_back(iface.name, held, e),
                crate::enter::failing::<Holders>(),
            ),
            allowed,
        ),
        crate::program::asks_only(crate::rollback::hand_back(iface.name, held, e), allowed),
{
    let reclaim = crate::handover::reclaim_program(iface.name, held);
    let f = crate::rollback::after_hand_back(e);
    let g = crate::enter::failing::<Holders>();
    reclaim_spares_the_others(iface.name, held);
    asks_less(reclaim, to_a_holder(iface.name, held), allowed);
    assert forall|r: Result<(), ErrorView>| crate::program::asks_only(#[trigger] f(r), allowed) by {
        assert(f(r) is Return);
    }
    crate::program::bind_asks_only(reclaim, f, allowed);
    assert forall|x: ErrorView| crate::program::asks_only(#[trigger] g(x), allowed) by {
        assert(g(x) is Return);
    }
    crate::program::bind_asks_only(crate::rollback::hand_back(iface.name, held, e), g, allowed);
}

/// After the release an entry asks for the switch, the readback, the way back and
/// the return of the interface.
proof fn switching_asks_only(
    iface: InterfaceView,
    held: Holders,
    allowed: spec_fn(LinuxOpView) -> bool,
)
    requires
        forall|mode: InterfaceMode| allowed(#[trigger] crate::rollback::switch(iface, mode)),
        allowed(LinuxOpView::ReadMode { index: iface.index }),
        allowed(LinuxOpView::NmReclaim { iface: iface.name }),
        allowed(LinuxOpView::WpaReclaim { iface: iface.name }),
    ensures
        crate::program::asks_only(crate::enter::switch_in(iface, held), allowed),
{
    let g = crate::enter::failing::<Holders>();
    let p = crate::enter::switch_in(iface, held);
    let q = crate::enter::confirm(iface, held);
    assert forall|x: ErrorView| crate::program::asks_only(#[trigger] g(x), allowed) by {
        assert(g(x) is Return);
    }
    assert forall|r: LinuxReplyView| crate::program::asks_only(
        #[trigger] (q->Ask_1)(r),
        allowed,
    ) by {
        if r->Mode_0 == Ok::<InterfaceMode, ErrorView>(InterfaceMode::Monitor) {
            assert((q->Ask_1)(r) is Return);
        } else {
            let e = crate::enter::unconfirmed(iface, r->Mode_0);
            let undo = crate::rollback::switch_back(iface, held, e);
            assert forall|s: LinuxReplyView|
                crate::program::asks_only(#[trigger] (undo->Ask_1)(s), allowed) by {
                assert((undo->Ask_1)(s) == crate::rollback::hand_back(iface.name, held, e));
                handing_back_asks_only(iface, held, e, allowed);
            }
            crate::program::bind_asks_only(undo, g, allowed);
            assert((q->Ask_1)(r) == crate::program::bind(undo, g));
        }
    }
    assert forall|r: LinuxReplyView| crate::program::asks_only(
        #[trigger] (p->Ask_1)(r),
        allowed,
    ) by {
        match r->Done_0 {
            Ok(u) => {
                assert((p->Ask_1)(r) == q);
            },
            Err(e) => {
                assert((p->Ask_1)(r) == crate::program::bind(
                    crate::rollback::hand_back(iface.name, held, e),
                    g,
                ));
                handing_back_asks_only(iface, held, e, allowed);
            },
        }
    }
}

/// Trying candidates touches only candidates.
proof fn attempts_touch_only_candidates(ranked: Seq<InterfaceView>, all: Seq<InterfaceView>)
    requires
        ranked.len() > 0,
        forall|i: int| 0 <= i < ranked.len() ==> all.contains(#[trigger] ranked[i]),
    ensures
        crate::program::asks_only(crate::start::attempts(ranked), about_one_of(all)),
    decreases ranked.len(),
{
    let allowed = about_one_of(all);
    let entry = crate::enter::enter_program(ranked[0]);
    let f = crate::start::after_attempt(ranked);
    crate::start::attempts_unfold(ranked);
    an_entry_touches_no_other(ranked[0]);
    assert forall|o: LinuxOpView| #[trigger] about_it(ranked[0])(o) implies allowed(o) by {
        assert(all.contains(ranked[0]));
        let i = choose|i: int| 0 <= i < all.len() && all[i] == ranked[0];
        assert(about(all[i], o));
    }
    asks_less(entry, about_it(ranked[0]), allowed);
    assert forall|r: Result<Holders, ErrorView>| crate::program::asks_only(
        #[trigger] f(r),
        allowed,
    ) by {
        if r is Err && ranked.len() > 1 {
            assert(f(r) == crate::start::attempts(ranked.drop_first()));
            attempts_touch_only_candidates(ranked.drop_first(), all);
        } else {
            assert(f(r) is Return);
        }
    }
    crate::program::bind_asks_only(entry, f, allowed);
}

/// Starting on a radio of the library's choice never touches a radio that is
/// already in monitor mode, nor one that is not a plausible candidate: after the
/// enumeration, every operation is about an interface that selection offers.
pub proof fn auto_start_touches_only_candidates(
    interfaces: Seq<InterfaceView>,
    replies: Seq<LinuxReplyView>,
    i: int,
)
    requires
        replies.len() > 0,
        replies[0] == LinuxReplyView::Interfaces(Ok(interfaces)),
        0 < i < crate::program::asked(crate::start::start_auto_program(), replies).len(),
    ensures
        exists|c: InterfaceView|
            interfaces.contains(c) && crate::select_laws::is_candidate(c) && #[trigger] about(
                c,
                crate::program::asked(crate::start::start_auto_program(), replies)[i],
            ),
{
    let p = crate::start::start_auto_program();
    crate::program::one_reply(p->Ask_0, p->Ask_1, replies);
    let asked = crate::program::asked(p, replies);
    match crate::select::selection(interfaces) {
        Ok(ranked) => {
            let q = crate::start::attempts(ranked);
            assert((p->Ask_1)(replies[0]) == q);
            crate::select::selection_is_never_empty(interfaces);
            attempts_touch_only_candidates(ranked, ranked);
            crate::program::runs_ask_only(
                q,
                about_one_of(ranked),
                replies.drop_first(),
                i - 1,
            );
            let o = asked[i];
            let k = choose|k: int| 0 <= k < ranked.len() && about(#[trigger] ranked[k], o);
            crate::select::selection_offers_idle_radios(interfaces, ranked[k]);
            crate::select_laws::plausible_means_advertised_or_known(ranked[k]);
            assert(about(ranked[k], o));
        },
        Err(e) => {
            assert((p->Ask_1)(replies[0]) is Return);
        },
    }
}

/// Where the attempt on the `i`-th candidate begins: after the questions of those
/// before it.
pub open spec fn attempt_from(
    ranked: Seq<InterfaceView>,
    replies: Seq<LinuxReplyView>,
    i: int,
) -> int
    decreases i,
{
    if i <= 0 {
        0
    } else {
        let n = attempt_from(ranked, replies, i - 1);
        n + crate::program::asked(
            crate::enter::enter_program(ranked[i - 1]),
            replies.skip(n),
        ).len()
    }
}

/// How the attempt on the `i`-th candidate ended.
pub open spec fn attempt_outcome(
    ranked: Seq<InterfaceView>,
    replies: Seq<LinuxReplyView>,
    i: int,
) -> Option<Result<Holders, ErrorView>> {
    crate::program::outcome(
        crate::enter::enter_program(ranked[i]),
        replies.skip(attempt_from(ranked, replies, i)),
    )
}

/// Whether a run holds, in its place, the attempt on the `i`-th candidate.
pub open spec fn attempted(
    ranked: Seq<InterfaceView>,
    replies: Seq<LinuxReplyView>,
    i: int,
) -> bool {
    let asked = crate::program::asked(crate::start::attempts(ranked), replies);
    let n = attempt_from(ranked, replies, i);
    let m = attempt_from(ranked, replies, i + 1);
    &&& 0 <= n <= m <= asked.len()
    &&& asked.subrange(n, m) == crate::program::asked(
        crate::enter::enter_program(ranked[i]),
        replies.skip(n),
    )
}

/// Whether the attempt on the `i`-th candidate failed and was rolled back.
pub open spec fn refused(
    ranked: Seq<InterfaceView>,
    replies: Seq<LinuxReplyView>,
    i: int,
) -> bool {
    &&& attempt_outcome(ranked, replies, i) matches Some(Err(e))
    &&& handed_back(ranked[i], replies.skip(attempt_from(ranked, replies, i)))
}

/// Whether a run consists of the attempts on the first `k` candidates, one after
/// the other, all refused but the last, and results in what that one came to.
pub open spec fn worked_down(
    ranked: Seq<InterfaceView>,
    replies: Seq<LinuxReplyView>,
    r: Result<InterfaceView, ErrorView>,
    k: int,
) -> bool {
    &&& 0 < k <= ranked.len()
    &&& crate::program::asked(crate::start::attempts(ranked), replies).len() == attempt_from(
        ranked,
        replies,
        k,
    )
    &&& forall|i: int| 0 <= i < k ==> #[trigger] attempted(ranked, replies, i)
    &&& forall|i: int| 0 <= i < k - 1 ==> #[trigger] refused(ranked, replies, i)
    &&& match r {
        Ok(iface) => {
            &&& iface == ranked[k - 1]
            &&& attempt_outcome(ranked, replies, k - 1) matches Some(Ok(held))
        },
        Err(e) => {
            &&& k == ranked.len()
            &&& attempt_outcome(ranked, replies, k - 1) == Some(Err::<Holders, ErrorView>(e))
            &&& refused(ranked, replies, k - 1)
        },
    }
}

/// Working down the ranked candidates activates the first whose entry was
/// confirmed: every better one was tried, refused, and rolled back before the next.
/// Where it fails, all of them refused, and the error is the last one's.
pub proof fn auto_start_works_down_the_list(
    ranked: Seq<InterfaceView>,
    replies: Seq<LinuxReplyView>,
    r: Result<InterfaceView, ErrorView>,
)
    requires
        ranked.len() > 0,
        crate::program::outcome(crate::start::attempts(ranked), replies) == Some(r),
    ensures
        exists|k: int| #[trigger] worked_down(ranked, replies, r, k),
    decreases ranked.len(),
{
    let entry = crate::enter::enter_program(ranked[0]);
    let f = crate::start::after_attempt(ranked);
    crate::start::attempts_unfold(ranked);
    crate::program::bind_runs_in_sequence(entry, f, replies);
    let h = crate::program::outcome(entry, replies)->0;
    let first = crate::program::asked(entry, replies);
    let asked = crate::program::asked(crate::start::attempts(ranked), replies);
    let m = first.len() as int;
    assert(replies.skip(0) =~= replies);
    assert(attempt_from(ranked, replies, 0) == 0);
    assert(attempt_from(ranked, replies, 1) == m);
    assert(attempt_outcome(ranked, replies, 0) == Some(h));
    assert(asked.subrange(0, m) =~= first);
    assert(attempted(ranked, replies, 0));
    if let Err(e) = h {
        a_failed_entry_leaves_no_service_out(ranked[0], e, replies);
        assert(refused(ranked, replies, 0));
    }
    if h is Err && ranked.len() > 1 {
        let rest = replies.skip(m);
        let fewer = ranked.drop_first();
        assert(f(h) == crate::start::attempts(fewer));
        auto_start_works_down_the_list(fewer, rest, r);
        let k = choose|k: int| #[trigger] worked_down(fewer, rest, r, k);
        let later = crate::program::asked(crate::start::attempts(fewer), rest);
        assert(asked == first + later);
        assert forall|i: int| 0 <= i <= k implies #[trigger] attempt_from(ranked, replies, i + 1)
            == m + attempt_from(fewer, rest, i) && 0 <= attempt_from(fewer, rest, i)
            <= rest.len() by {
            attempts_move_up(ranked, replies, i);
        }
        assert forall|i: int| 0 <= i < k implies attempt_outcome(ranked, replies, i + 1)
            == attempt_outcome(fewer, rest, i) && #[trigger] replies.skip(
            attempt_from(ranked, replies, i + 1),
        ) == rest.skip(attempt_from(fewer, rest, i)) by {
            let n = attempt_from(fewer, rest, i);
            assert(attempt_from(ranked, replies, i + 1) == m + n);
            assert(rest.skip(n) =~= replies.skip(m + n));
        }
        assert forall|i: int| 0 <= i < k + 1 implies #[trigger] attempted(ranked, replies, i) by {
            if i > 0 {
                assert(attempted(fewer, rest, i - 1));
                let n = attempt_from(fewer, rest, i - 1);
                let o = attempt_from(fewer, rest, i);
                assert(attempt_from(ranked, replies, (i - 1) + 1) == m + n);
                assert(attempt_from(ranked, replies, i + 1) == m + o);
                assert(replies.skip(attempt_from(ranked, replies, (i - 1) + 1)) == rest.skip(n));
                assert(asked.subrange(m + n, m + o) =~= later.subrange(n, o));
            }
        }
        assert forall|i: int| 0 <= i < k && refused(fewer, rest, i) implies #[trigger] refused(
            ranked,
            replies,
            i + 1,
        ) by {
            assert(replies.skip(attempt_from(ranked, replies, i + 1)) == rest.skip(
                attempt_from(fewer, rest, i),
            ));
        }
        assert forall|i: int| 0 <= i < k implies #[trigger] refused(ranked, replies, i) by {
            if i > 0 {
                assert(refused(fewer, rest, i - 1));
                assert(refused(ranked, replies, (i - 1) + 1));
            }
        }
        assert(replies.skip(attempt_from(ranked, replies, (k - 1) + 1)) == rest.skip(
            attempt_from(fewer, rest, k - 1),
        ));
        assert(attempt_from(ranked, replies, k + 1) == m + attempt_from(fewer, rest, k));
        if r is Err {
            assert(refused(ranked, replies, (k - 1) + 1));
        }
        assert(worked_down(ranked, replies, r, k + 1));
    } else {
        assert(f(h) is Return);
        assert(asked =~= first);
        assert(worked_down(ranked, replies, r, 1));
    }
}

/// The attempts after the first, seen from the second candidate on.
proof fn attempts_move_up(ranked: Seq<InterfaceView>, replies: Seq<LinuxReplyView>, i: int)
    requires
        0 <= i < ranked.len(),
    ensures
        ({
            let m = crate::program::asked(
                crate::enter::enter_program(ranked[0]),
                replies,
            ).len() as int;
            let n = attempt_from(ranked.drop_first(), replies.skip(m), i);
            &&& attempt_from(ranked, replies, i + 1) == m + n
            &&& 0 <= n <= replies.skip(m).len()
        }),
    decreases i,
{
    let entry = crate::enter::enter_program(ranked[0]);
    crate::program::bind_runs_in_sequence(entry, crate::start::after_attempt(ranked), replies);
    let m = crate::program::asked(entry, replies).len() as int;
    let rest = replies.skip(m);
    assert(replies.skip(0) =~= replies);
    assert(attempt_from(ranked, replies, 0) == 0);
    if i > 0 {
        attempts_move_up(ranked, replies, i - 1);
        let n = attempt_from(ranked.drop_first(), rest, i - 1);
        assert(rest.skip(n) =~= replies.skip(m + n));
        crate::program::bind_runs_in_sequence(
            crate::enter::enter_program(ranked[i]),
            crate::start::after_attempt(ranked),
            rest.skip(n),
        );
    }
}

/// A channel set succeeds exactly when it was made and read back as the requested
/// frequency at the requested width.
pub proof fn a_tuning_is_confirmed(
    index: u32,
    name: Seq<char>,
    freq_mhz: u32,
    width: ChannelWidth,
    replies: Seq<LinuxReplyView>,
)
    requires
        crate::program::outcome(
            crate::tune::tune_program(index, name, freq_mhz, width),
            replies,
        ) is Some,
    ensures
        crate::program::outcome(
            crate::tune::tune_program(index, name, freq_mhz, width),
            replies,
        )->0 is Ok <==> replies.len() >= 2 && replies[0]->Done_0 is Ok && (
        replies[1]->Channel_0 matches Ok(actual) && actual.freq_mhz == Some(freq_mhz)
            && actual.requested_width() == Some(width)),
{
    let p = crate::tune::tune_program(index, name, freq_mhz, width);
    let q = crate::tune::confirm_tuning(index, name, freq_mhz, width);
    assert(replies.len() > 0);
    let tail = replies.drop_first();
    crate::program::one_reply(p->Ask_0, p->Ask_1, replies);
    match replies[0]->Done_0 {
        Ok(u) => {
            assert((p->Ask_1)(replies[0]) == q);
            assert(tail.len() > 0);
            crate::program::one_reply(q->Ask_0, q->Ask_1, tail);
            assert(tail[0] == replies[1]);
            assert((q->Ask_1)(tail[0]) is Return);
            if let Ok(actual) = tail[0]->Channel_0 {
                crate::channel::a_confirmed_tuning_is_the_requested_one(
                    name,
                    freq_mhz,
                    width,
                    actual,
                );
            }
        },
        Err(e) => {
            assert((p->Ask_1)(replies[0]) is Return);
        },
    }
}

/// A start by name activates the interface of that name, and a start under a new
/// name yields the interface under the new one.
pub proof fn a_named_start_keeps_to_the_name(
    name: Seq<char>,
    new_name: Seq<char>,
    iface: InterfaceView,
    replies: Seq<LinuxReplyView>,
)
    ensures
        crate::program::outcome(crate::start::start_on_program(name), replies) == Some(
            Ok::<InterfaceView, ErrorView>(iface),
        ) ==> iface.name == name,
        crate::program::outcome(crate::start::start_as_program(name, new_name), replies) == Some(
            Ok::<InterfaceView, ErrorView>(iface),
        ) ==> iface.name == new_name,
{
    let on = crate::start::start_on_program(name);
    let is_name = |r: Result<InterfaceView, ErrorView>| r matches Ok(i) ==> i.name == name;
    assert forall|r: LinuxReplyView| crate::program::yields_only(
        #[trigger] (on->Ask_1)(r),
        is_name,
    ) by {
        match crate::leave::looked_up(r->Interfaces_0, name) {
            Ok(found) => {
                named_as_looked_up(r->Interfaces_0, name);
                let f = crate::start::entered(found);
                assert forall|h: Result<Holders, ErrorView>|
                    crate::program::yields_only(#[trigger] f(h), is_name) by {
                    assert(f(h) is Return);
                }
                crate::program::bind_yields_only(crate::enter::enter_program(found), f, is_name);
            },
            Err(e) => {
                assert((on->Ask_1)(r) is Return);
            },
        }
    }
    crate::program::runs_yield_only(on, is_name, replies);

    let renamed = crate::start::start_as_program(name, new_name);
    let is_new = |r: Result<InterfaceView, ErrorView>| r matches Ok(i) ==> i.name == new_name;
    assert forall|r: LinuxReplyView| crate::program::yields_only(
        #[trigger] (renamed->Ask_1)(r),
        is_new,
    ) by {
        match crate::leave::looked_up(r->Interfaces_0, name) {
            Ok(found) => {
                let f = crate::start::then_rename(found, new_name);
                assert forall|h: Result<Holders, ErrorView>|
                    crate::program::yields_only(#[trigger] f(h), is_new) by {
                    match h {
                        Ok(held) => {
                            assert(f(h) == crate::start::rename_in(found, new_name, held));
                            a_rename_yields_the_new_name(found, new_name, held);
                        },
                        Err(e) => {
                            assert(f(h) is Return);
                        },
                    }
                }
                crate::program::bind_yields_only(crate::enter::enter_program(found), f, is_new);
            },
            Err(e) => {
                assert((renamed->Ask_1)(r) is Return);
            },
        }
    }
    crate::program::runs_yield_only(renamed, is_new, replies);
}

proof fn named_as_looked_up(detected: Result<Seq<InterfaceView>, ErrorView>, name: Seq<char>)
    ensures
        crate::leave::looked_up(detected, name) matches Ok(i) ==> i.name == name,
{
    if let Ok(interfaces) = detected {
        crate::names::lookup_yields_the_name(interfaces, name);
    }
}

proof fn a_rename_yields_the_new_name(iface: InterfaceView, new_name: Seq<char>, held: Holders)
    ensures
        crate::program::yields_only(
            crate::start::rename_in(iface, new_name, held),
            |r: Result<InterfaceView, ErrorView>| r matches Ok(i) ==> i.name == new_name,
        ),
{
    let is_new = |r: Result<InterfaceView, ErrorView>| r matches Ok(i) ==> i.name == new_name;
    let f = crate::enter::failing::<InterfaceView>();
    assert forall|e: ErrorView| crate::program::yields_only(
        #[trigger] crate::start::take_back(iface, new_name, held, e),
        is_new,
    ) by {
        assert forall|x: ErrorView| crate::program::yields_only(#[trigger] f(x), is_new) by {
            assert(f(x) is Return);
        }
        crate::program::bind_yields_only(
            crate::rollback::rename_back(iface, new_name, held, e),
            f,
            is_new,
        );
    }
    let q = crate::start::find_renamed(iface, new_name, held);
    assert forall|r: LinuxReplyView| crate::program::yields_only(
        #[trigger] (q->Ask_1)(r),
        is_new,
    ) by {
        named_as_looked_up(r->Interfaces_0, new_name);
        match crate::leave::looked_up(r->Interfaces_0, new_name) {
            Ok(renamed) => {
                assert((q->Ask_1)(r) is Return);
            },
            Err(e) => {
                assert((q->Ask_1)(r) == crate::start::take_back(iface, new_name, held, e));
            },
        }
    }
    let p = crate::start::rename_in(iface, new_name, held);
    assert forall|r: LinuxReplyView| crate::program::yields_only(
        #[trigger] (p->Ask_1)(r),
        is_new,
    ) by {
        match r->Done_0 {
            Ok(u) => {
                assert((p->Ask_1)(r) == q);
            },
            Err(e) => {
                assert((p->Ask_1)(r) == crate::start::take_back(iface, new_name, held, e));
            },
        }
    }
}

} // verus!
