//! What a start, a stop and a channel set ask of the kernel and the services, reply
//! by reply.

use vstd::prelude::*;

use crate::backend::{BackendOpView, BackendReplyView};
use crate::channel::Tuning;
use crate::errors::{ErrorView, FrequencyReadback, LinuxErrorView, WidthReadback};
use crate::handover::Holders;
use crate::interface::{ChannelWidth, InterfaceMode, InterfaceView};
use crate::ops::{LinuxOpView, LinuxReplyView};

verus! {

/// A hand-back goes to the services that held the interface, NetworkManager first,
/// and ends with the first refusal.
pub proof fn a_hand_back_ends_with_the_first_refusal(
    iface: Seq<char>,
    held: Holders,
    replies: Seq<LinuxReplyView>,
)
    requires
        crate::program::outcome(crate::handover::reclaim_program(iface, held), replies) is Some,
    ensures
        ({
            let asked = crate::program::asked(
                crate::handover::reclaim_program(iface, held),
                replies,
            );
            let r = crate::program::outcome(
                crate::handover::reclaim_program(iface, held),
                replies,
            )->0;
            let k: int = if held.network_manager {
                1
            } else {
                0
            };
            let went_on = !held.network_manager || replies[0]->Done_0 is Ok;
            &&& held.network_manager ==> asked.len() > 0 && asked[0] == LinuxOpView::NmReclaim {
                iface,
            }
            &&& !went_on ==> asked.len() == 1 && r == replies[0]->Done_0
            &&& went_on && held.supplicant ==> asked.len() == k + 1 && asked[k]
                == LinuxOpView::WpaReclaim { iface } && r == replies[k]->Done_0
            &&& went_on && !held.supplicant ==> asked.len() == k && r is Ok
        }),
{
    reveal_with_fuel(crate::program::asked, 4);
    reveal_with_fuel(crate::program::outcome, 4);
}

/// A release asks each service whether it is there and, where it is, to let go. It
/// succeeds with those that were there; where one refuses, it fails with that
/// refusal, and NetworkManager gets the interface back if it had let go.
pub proof fn a_release_asks_whoever_is_there(iface: Seq<char>, replies: Seq<LinuxReplyView>)
    requires
        crate::program::outcome(crate::handover::release_program(iface), replies) is Some,
    ensures
        ({
            let asked = crate::program::asked(crate::handover::release_program(iface), replies);
            let r = crate::program::outcome(crate::handover::release_program(iface), replies)->0;
            let nm = replies[0]->Present_0;
            let k: int = if nm {
                2
            } else {
                1
            };
            let wpa = replies[k]->Present_0;
            &&& asked.len() > 0 && asked[0] == LinuxOpView::NmPresent
            &&& nm ==> asked.len() > 1 && asked[1] == LinuxOpView::NmRelease { iface }
            &&& if nm && replies[1]->Done_0 is Err {
                asked.len() == 2 && r == Err::<Holders, ErrorView>(replies[1]->Done_0->Err_0)
            } else {
                &&& asked.len() > k && asked[k] == LinuxOpView::WpaPresent
                &&& if !wpa {
                    &&& asked.len() == k + 1
                    &&& r == Ok::<Holders, ErrorView>(
                        Holders { network_manager: nm, supplicant: false },
                    )
                } else {
                    &&& asked.len() > k + 1 && asked[k + 1] == LinuxOpView::WpaRelease { iface }
                    &&& match replies[k + 1]->Done_0 {
                        Ok(u) => {
                            &&& asked.len() == k + 2
                            &&& r == Ok::<Holders, ErrorView>(
                                Holders { network_manager: nm, supplicant: true },
                            )
                        },
                        Err(e) => {
                            &&& r == Err::<Holders, ErrorView>(e)
                            &&& asked.len() == if nm {
                                k + 3
                            } else {
                                k + 2
                            }
                            &&& nm ==> asked[k + 2] == LinuxOpView::NmReclaim { iface }
                        },
                    }
                }
            }
        }),
{
    let p = crate::handover::release_program(iface);
    assert(replies.len() > 0);
    crate::program::one_reply(p->Ask_0, p->Ask_1, replies);
    let tail = replies.drop_first();
    if replies[0]->Present_0 {
        let q = (p->Ask_1)(replies[0]);
        assert(tail.len() > 0);
        crate::program::one_reply(q->Ask_0, q->Ask_1, tail);
        assert(tail[0] == replies[1]);
        if tail[0]->Done_0 is Ok {
            assert((q->Ask_1)(tail[0]) == crate::handover::release_supplicant(iface, true));
            the_second_service_is_asked(iface, true, tail.drop_first());
        } else {
            assert((q->Ask_1)(tail[0]) is Return);
        }
    } else {
        assert((p->Ask_1)(replies[0]) == crate::handover::release_supplicant(iface, false));
        the_second_service_is_asked(iface, false, tail);
    }
}

/// The same, from wpa_supplicant on.
proof fn the_second_service_is_asked(iface: Seq<char>, nm: bool, replies: Seq<LinuxReplyView>)
    requires
        crate::program::outcome(crate::handover::release_supplicant(iface, nm), replies) is Some,
    ensures
        ({
            let asked = crate::program::asked(
                crate::handover::release_supplicant(iface, nm),
                replies,
            );
            let r = crate::program::outcome(
                crate::handover::release_supplicant(iface, nm),
                replies,
            )->0;
            &&& replies.len() > 0
            &&& asked.len() > 0 && asked[0] == LinuxOpView::WpaPresent
            &&& if !replies[0]->Present_0 {
                &&& asked.len() == 1
                &&& r == Ok::<Holders, ErrorView>(
                    Holders { network_manager: nm, supplicant: false },
                )
            } else {
                &&& replies.len() > 1
                &&& asked.len() > 1 && asked[1] == LinuxOpView::WpaRelease { iface }
                &&& match replies[1]->Done_0 {
                    Ok(u) => {
                        &&& asked.len() == 2
                        &&& r == Ok::<Holders, ErrorView>(
                            Holders { network_manager: nm, supplicant: true },
                        )
                    },
                    Err(e) => {
                        &&& r == Err::<Holders, ErrorView>(e)
                        &&& asked.len() == if nm {
                            3int
                        } else {
                            2
                        }
                        &&& nm ==> asked[2] == LinuxOpView::NmReclaim { iface }
                    },
                }
            }
        }),
{
    let p = crate::handover::release_supplicant(iface, nm);
    assert(replies.len() > 0);
    crate::program::one_reply(p->Ask_0, p->Ask_1, replies);
    let tail = replies.drop_first();
    let q = (p->Ask_1)(replies[0]);
    if replies[0]->Present_0 {
        assert(tail.len() > 0);
        crate::program::one_reply(q->Ask_0, q->Ask_1, tail);
        assert(tail[0] == replies[1]);
        let last = (q->Ask_1)(tail[0]);
        let rest = tail.drop_first();
        match tail[0]->Done_0 {
            Ok(u) => {
                assert(last is Return);
            },
            Err(e) => {
                let held = Holders { network_manager: nm, supplicant: false };
                let reclaim = crate::handover::reclaim_program(iface, held);
                let f = crate::handover::refusal(e);
                assert(last == crate::program::bind(reclaim, f));
                crate::program::bind_runs_in_sequence(reclaim, f, rest);
                a_hand_back_ends_with_the_first_refusal(iface, held, rest);
                let t = crate::program::outcome(reclaim, rest)->0;
                assert(f(t) is Return);
            },
        }
    } else {
        assert(q is Return);
    }
}

/// An entry ends as it was reported. A switch that was not made is its error, and
/// the interface is handed back. A switch that reads back as monitor mode is its
/// success. One that does not is switched back, and the error says which interface
/// did not follow, or why it could not be read.
pub proof fn an_entry_ends_as_reported(
    iface: InterfaceView,
    held: Holders,
    replies: Seq<LinuxReplyView>,
)
    requires
        iface.mode != InterfaceMode::Monitor,
        crate::program::outcome(crate::handover::release_program(iface.name), replies) == Some(
            Ok::<Holders, ErrorView>(held),
        ),
        crate::program::outcome(crate::enter::enter_program(iface), replies) is Some,
    ensures
        ({
            let asked = crate::program::asked(crate::enter::enter_program(iface), replies);
            let r = crate::program::outcome(crate::enter::enter_program(iface), replies)->0;
            let n = crate::program::asked(
                crate::handover::release_program(iface.name),
                replies,
            ).len() as int;
            &&& n < asked.len() <= replies.len()
            &&& asked.take(n) == crate::program::asked(
                crate::handover::release_program(iface.name),
                replies,
            )
            &&& asked[n] == LinuxOpView::SetMode {
                index: iface.index,
                name: iface.name,
                mode: InterfaceMode::Monitor,
            }
            &&& match replies[n]->Done_0 {
                Err(e) => {
                    &&& r == Err::<Holders, ErrorView>(e)
                    &&& asked.skip(n + 1) == crate::program::asked(
                        crate::handover::reclaim_program(iface.name, held),
                        replies.skip(n + 1),
                    )
                },
                Ok(u) => {
                    &&& n + 1 < asked.len()
                    &&& asked[n + 1] == LinuxOpView::ReadMode { index: iface.index }
                    &&& if replies[n + 1]->Mode_0 == Ok::<InterfaceMode, ErrorView>(
                        InterfaceMode::Monitor,
                    ) {
                        r == Ok::<Holders, ErrorView>(held) && asked.len() == n + 2
                    } else {
                        &&& r == Err::<Holders, ErrorView>(
                            match replies[n + 1]->Mode_0 {
                                Ok(mode) => ErrorView::Linux(
                                    LinuxErrorView::MonitorVerifyFailed { iface: iface.name },
                                ),
                                Err(e) => e,
                            },
                        )
                        &&& n + 2 < asked.len()
                        &&& asked[n + 2] == LinuxOpView::SetMode {
                            index: iface.index,
                            name: iface.name,
                            mode: InterfaceMode::Managed,
                        }
                        &&& asked.skip(n + 3) == crate::program::asked(
                            crate::handover::reclaim_program(iface.name, held),
                            replies.skip(n + 3),
                        )
                    }
                },
            }
        }),
{
    let entry = crate::enter::enter_program(iface);
    let release = crate::handover::release_program(iface.name);
    let f = crate::enter::after_release(iface);
    let h = Ok::<Holders, ErrorView>(held);
    crate::program::bind_runs_in_sequence(release, f, replies);
    crate::program::bind_runs_in_sequence(entry, crate::enter::after_release(iface), replies);
    let first = crate::program::asked(release, replies);
    let n = first.len() as int;
    let rest = replies.skip(n);
    let p = crate::enter::switch_in(iface, held);
    assert(f(h) == p);
    let asked = crate::program::asked(entry, replies);
    assert(asked == first + crate::program::asked(p, rest));
    assert(asked.take(n) =~= first);
    assert(rest.len() > 0);
    crate::program::one_reply(p->Ask_0, p->Ask_1, rest);
    assert(rest[0] == replies[n]);
    let tail = rest.drop_first();
    assert(tail =~= replies.skip(n + 1));
    let reclaim = crate::handover::reclaim_program(iface.name, held);
    match rest[0]->Done_0 {
        Err(e) => {
            let undo = crate::rollback::hand_back(iface.name, held, e);
            assert((p->Ask_1)(rest[0]) == crate::program::bind(
                undo,
                crate::enter::failing::<Holders>(),
            ));
            a_hand_back_reports(iface.name, held, e, tail);
            assert(asked.skip(n + 1) =~= crate::program::asked(reclaim, tail));
        },
        Ok(u) => {
            let q = crate::enter::confirm(iface, held);
            assert((p->Ask_1)(rest[0]) == q);
            assert(tail.len() > 0);
            crate::program::one_reply(q->Ask_0, q->Ask_1, tail);
            assert(tail[0] == replies[n + 1]);
            let last = (q->Ask_1)(tail[0]);
            let after = tail.drop_first();
            if tail[0]->Mode_0 == Ok::<InterfaceMode, ErrorView>(InterfaceMode::Monitor) {
                assert(last is Return);
            } else {
                let e = crate::enter::unconfirmed(iface, tail[0]->Mode_0);
                let undo = crate::rollback::switch_back(iface, held, e);
                let g = crate::enter::failing::<Holders>();
                assert(last == crate::program::bind(undo, g));
                assert(after.len() > 0);
                let inner = crate::rollback::hand_back(iface.name, held, e);
                assert((undo->Ask_1)(after[0]) == inner);
                assert((last->Ask_1)(after[0]) == crate::program::bind(inner, g));
                crate::program::one_reply(last->Ask_0, last->Ask_1, after);
                a_hand_back_reports(iface.name, held, e, after.drop_first());
                assert(after.drop_first() =~= replies.skip(n + 3));
                assert(asked.skip(n + 3) =~= crate::program::asked(reclaim, replies.skip(n + 3)));
            }
        },
    }
}

/// A hand-back in a rollback ends with the error that made it necessary.
proof fn a_hand_back_reports(
    iface: Seq<char>,
    held: Holders,
    e: ErrorView,
    replies: Seq<LinuxReplyView>,
)
    requires
        crate::program::outcome(
            crate::program::bind(
                crate::rollback::hand_back(iface, held, e),
                crate::enter::failing::<Holders>(),
            ),
            replies,
        ) is Some,
    ensures
        crate::program::outcome(
            crate::program::bind(
                crate::rollback::hand_back(iface, held, e),
                crate::enter::failing::<Holders>(),
            ),
            replies,
        ) == Some(Err::<Holders, ErrorView>(e)),
        crate::program::asked(
            crate::program::bind(
                crate::rollback::hand_back(iface, held, e),
                crate::enter::failing::<Holders>(),
            ),
            replies,
        ) == crate::program::asked(crate::handover::reclaim_program(iface, held), replies),
        crate::program::asked(crate::handover::reclaim_program(iface, held), replies).len()
            <= replies.len(),
{
    let reclaim = crate::handover::reclaim_program(iface, held);
    let f = crate::rollback::after_hand_back(e);
    let g = crate::enter::failing::<Holders>();
    let middle = crate::program::bind(reclaim, f);
    crate::program::bind_runs_in_sequence(reclaim, f, replies);
    crate::program::bind_runs_in_sequence(middle, g, replies);
    let t = crate::program::outcome(reclaim, replies)->0;
    assert(f(t) is Return);
    assert(crate::program::asked(middle, replies) =~= crate::program::asked(reclaim, replies));
    assert(g(e) is Return);
    assert(crate::program::asked(crate::program::bind(middle, g), replies)
        =~= crate::program::asked(reclaim, replies));
}

/// Whether the first interface of that name is at `k`.
pub open spec fn first_with(interfaces: Seq<InterfaceView>, name: Seq<char>, k: int) -> bool {
    &&& 0 <= k < interfaces.len()
    &&& interfaces[k].name == name
    &&& forall|j: int| 0 <= j < k ==> (#[trigger] interfaces[j]).name != name
}

/// A lookup finds the first interface of the name. Where there is none of that
/// name, it says which name was asked for and which there are; where there is none
/// at all, it says so.
pub proof fn a_lookup_finds_the_first(interfaces: Seq<InterfaceView>, name: Seq<char>)
    ensures
        forall|k: int| #[trigger]
            first_with(interfaces, name, k) ==> crate::names::found(interfaces, name) == Ok::<
                InterfaceView,
                ErrorView,
            >(interfaces[k]) && crate::names::selected(interfaces, name) == Ok::<
                InterfaceView,
                ErrorView,
            >(interfaces[k]),
        crate::names::found(interfaces, name) is Ok ==> exists|k: int| #[trigger]
            first_with(interfaces, name, k),
        crate::names::selected(interfaces, name) is Ok ==> exists|k: int| #[trigger]
            first_with(interfaces, name, k),
        interfaces.len() == 0 ==> crate::names::found(interfaces, name) == Err::<
            InterfaceView,
            ErrorView,
        >(ErrorView::NoInterfaces),
        interfaces.len() > 0 && crate::names::found(interfaces, name) is Err ==> {
            &&& crate::names::found(interfaces, name)->Err_0 matches ErrorView::NotFound {
                name: wanted,
                available,
            }
            &&& wanted == name
            &&& available == crate::text::joined(
                Seq::new(interfaces.len(), |i: int| interfaces[i].name),
                ", "@,
            )
        },
        crate::names::selected(interfaces, name) matches Err(e) ==> {
            &&& e matches ErrorView::NotFound { name: wanted, available }
            &&& wanted == name
            &&& available == crate::text::joined(
                Seq::new(interfaces.len(), |i: int| interfaces[i].name),
                ", "@,
            )
        },
{
    assert forall|k: int| #[trigger]
        first_with(interfaces, name, k) implies crate::names::found(interfaces, name) == Ok::<
        InterfaceView,
        ErrorView,
    >(interfaces[k]) && crate::names::selected(interfaces, name) == Ok::<InterfaceView, ErrorView>(
        interfaces[k],
    ) by {
        assert(crate::names::first_named(interfaces, name, k));
        let c = choose|i: int| #[trigger] crate::names::first_named(interfaces, name, i);
        if c < k {
            assert(interfaces[c].name != name);
        } else if k < c {
            assert(interfaces[k].name != name);
        }
    }
    if crate::names::selected(interfaces, name) is Ok {
        let c = choose|i: int| #[trigger] crate::names::first_named(interfaces, name, i);
        assert(first_with(interfaces, name, c));
    }
    assert(crate::names::names_of(interfaces) =~= Seq::new(
        interfaces.len(),
        |i: int| interfaces[i].name,
    ));
}

/// A start on a named interface enumerates, and enters monitor mode on the first
/// interface of that name and no other: the rest of the run is that entry, and its
/// result is that interface, or the entry's error.
pub proof fn a_named_start_is_the_entry_on_it(
    name: Seq<char>,
    interfaces: Seq<InterfaceView>,
    k: int,
    replies: Seq<LinuxReplyView>,
)
    requires
        replies.len() > 0,
        replies[0]->Interfaces_0 == Ok::<Seq<InterfaceView>, ErrorView>(interfaces),
        first_with(interfaces, name, k),
    ensures
        ({
            let entry = crate::enter::enter_program(interfaces[k]);
            let rest = replies.drop_first();
            &&& crate::program::asked(crate::start::start_on_program(name), replies) == seq![
                LinuxOpView::Detect,
            ] + crate::program::asked(entry, rest)
            &&& crate::program::outcome(crate::start::start_on_program(name), replies)
                == match crate::program::outcome(entry, rest) {
                Some(Ok(held)) => Some(Ok::<InterfaceView, ErrorView>(interfaces[k])),
                Some(Err(e)) => Some(Err(e)),
                None => None,
            }
        }),
{
    a_lookup_finds_the_first(interfaces, name);
    let p = crate::start::start_on_program(name);
    let entry = crate::enter::enter_program(interfaces[k]);
    let f = crate::start::entered(interfaces[k]);
    let rest = replies.drop_first();
    crate::program::one_reply(p->Ask_0, p->Ask_1, replies);
    assert((p->Ask_1)(replies[0]) == crate::program::bind(entry, f));
    crate::program::bind_runs_in_sequence(entry, f, rest);
    if let Some(r) = crate::program::outcome(entry, rest) {
        assert(f(r) is Return);
        assert(crate::program::asked(crate::program::bind(entry, f), rest)
            =~= crate::program::asked(entry, rest));
    }
}

/// A start under a new name enumerates and enters monitor mode on the first
/// interface of the name. Once the entry is confirmed, the next question is the
/// rename of the link with that interface's own index, from the name it has to the
/// new one. Where that is done, the interfaces are enumerated again, and the result
/// is the first one under the new name.
pub proof fn a_renamed_start_renames_what_it_entered(
    name: Seq<char>,
    new_name: Seq<char>,
    interfaces: Seq<InterfaceView>,
    k: int,
    held: Holders,
    replies: Seq<LinuxReplyView>,
)
    requires
        replies.len() > 0,
        replies[0]->Interfaces_0 == Ok::<Seq<InterfaceView>, ErrorView>(interfaces),
        first_with(interfaces, name, k),
        crate::program::outcome(
            crate::enter::enter_program(interfaces[k]),
            replies.drop_first(),
        ) == Some(Ok::<Holders, ErrorView>(held)),
    ensures
        ({
            let p = crate::start::start_as_program(name, new_name);
            let asked = crate::program::asked(p, replies);
            let entry = crate::program::asked(
                crate::enter::enter_program(interfaces[k]),
                replies.drop_first(),
            );
            let n = entry.len() as int + 1;
            &&& n <= asked.len() <= replies.len()
            &&& asked.take(n) == seq![LinuxOpView::Detect] + entry
            &&& asked.len() == n ==> replies.len() == n && crate::program::outcome(p, replies) is None
            &&& asked.len() > n ==> {
                &&& asked[n] == LinuxOpView::Rename {
                    index: interfaces[k].index,
                    old: interfaces[k].name,
                    new: new_name,
                }
                &&& replies[n]->Done_0 is Ok && asked.len() > n + 1 ==> {
                    &&& asked[n + 1] == LinuxOpView::Detect
                    &&& forall|found: Seq<InterfaceView>, j: int|
                        replies[n + 1]->Interfaces_0 == Ok::<Seq<InterfaceView>, ErrorView>(found)
                            && #[trigger] first_with(found, new_name, j) ==> {
                            &&& asked.len() == n + 2
                            &&& crate::program::outcome(p, replies) == Some(
                                Ok::<InterfaceView, ErrorView>(found[j]),
                            )
                        }
                }
            }
        }),
{
    a_lookup_finds_the_first(interfaces, name);
    let iface = interfaces[k];
    let p = crate::start::start_as_program(name, new_name);
    let entry = crate::enter::enter_program(iface);
    let f = crate::start::then_rename(iface, new_name);
    let h = Ok::<Holders, ErrorView>(held);
    let rest = replies.drop_first();
    crate::program::one_reply(p->Ask_0, p->Ask_1, replies);
    assert((p->Ask_1)(replies[0]) == crate::program::bind(entry, f));
    crate::program::bind_runs_in_sequence(entry, f, rest);
    crate::program::bind_runs_in_sequence(p, crate::backend::as_interface(), replies);
    let first = crate::program::asked(entry, rest);
    let after = rest.skip(first.len() as int);
    let q = crate::start::rename_in(iface, new_name, held);
    assert(f(h) == q);
    let asked = crate::program::asked(p, replies);
    let n = first.len() as int + 1;
    assert(asked =~= (seq![LinuxOpView::Detect] + first) + crate::program::asked(q, after));
    assert(asked.take(n) =~= seq![LinuxOpView::Detect] + first);
    assert(after =~= replies.skip(n));
    if after.len() > 0 {
        crate::program::one_reply(q->Ask_0, q->Ask_1, after);
        assert(after[0] == replies[n]);
        if after[0]->Done_0 is Ok {
            let s = crate::start::find_renamed(iface, new_name, held);
            assert((q->Ask_1)(after[0]) == s);
            let later = after.drop_first();
            if later.len() > 0 {
                crate::program::one_reply(s->Ask_0, s->Ask_1, later);
                assert(later[0] == replies[n + 1]);
                assert forall|found: Seq<InterfaceView>, j: int|
                    replies[n + 1]->Interfaces_0 == Ok::<Seq<InterfaceView>, ErrorView>(found)
                        && #[trigger] first_with(found, new_name, j) implies asked.len() == n + 2
                    && crate::program::outcome(p, replies) == Some(
                    Ok::<InterfaceView, ErrorView>(found[j]),
                ) by {
                    a_lookup_finds_the_first(found, new_name);
                    assert((s->Ask_1)(later[0]) is Return);
                }
            }
        }
    }
}

/// A start under a new name whose entry fails is that failure: nothing is asked
/// after the entry.
pub proof fn a_renamed_start_stops_with_the_entry(
    name: Seq<char>,
    new_name: Seq<char>,
    interfaces: Seq<InterfaceView>,
    k: int,
    e: ErrorView,
    replies: Seq<LinuxReplyView>,
)
    requires
        replies.len() > 0,
        replies[0]->Interfaces_0 == Ok::<Seq<InterfaceView>, ErrorView>(interfaces),
        first_with(interfaces, name, k),
        crate::program::outcome(
            crate::enter::enter_program(interfaces[k]),
            replies.drop_first(),
        ) == Some(Err::<Holders, ErrorView>(e)),
    ensures
        crate::program::asked(crate::start::start_as_program(name, new_name), replies) == seq![
            LinuxOpView::Detect,
        ] + crate::program::asked(
            crate::enter::enter_program(interfaces[k]),
            replies.drop_first(),
        ),
        crate::program::outcome(crate::start::start_as_program(name, new_name), replies) == Some(
            Err::<InterfaceView, ErrorView>(e),
        ),
{
    a_lookup_finds_the_first(interfaces, name);
    let p = crate::start::start_as_program(name, new_name);
    let entry = crate::enter::enter_program(interfaces[k]);
    let f = crate::start::then_rename(interfaces[k], new_name);
    let rest = replies.drop_first();
    crate::program::one_reply(p->Ask_0, p->Ask_1, replies);
    assert((p->Ask_1)(replies[0]) == crate::program::bind(entry, f));
    crate::program::bind_runs_in_sequence(entry, f, rest);
    assert(f(Err(e)) is Return);
    assert(crate::program::asked(crate::program::bind(entry, f), rest) =~= crate::program::asked(
        entry,
        rest,
    ));
}

/// A rename that was refused is the error of a start under a new name, and so is a
/// second enumeration that failed or does not show the new name.
pub proof fn a_renamed_start_reports_the_rename(
    name: Seq<char>,
    new_name: Seq<char>,
    interfaces: Seq<InterfaceView>,
    k: int,
    held: Holders,
    replies: Seq<LinuxReplyView>,
)
    requires
        replies.len() > 0,
        replies[0]->Interfaces_0 == Ok::<Seq<InterfaceView>, ErrorView>(interfaces),
        first_with(interfaces, name, k),
        crate::program::outcome(
            crate::enter::enter_program(interfaces[k]),
            replies.drop_first(),
        ) == Some(Ok::<Holders, ErrorView>(held)),
        crate::program::outcome(crate::start::start_as_program(name, new_name), replies) is Some,
    ensures
        ({
            let p = crate::start::start_as_program(name, new_name);
            let r = crate::program::outcome(p, replies)->0;
            let n = crate::program::asked(
                crate::enter::enter_program(interfaces[k]),
                replies.drop_first(),
            ).len() as int + 1;
            &&& replies.len() > n
            &&& match replies[n]->Done_0 {
                Err(e) => r == Err::<InterfaceView, ErrorView>(e),
                Ok(u) => {
                    &&& replies.len() > n + 1
                    &&& match replies[n + 1]->Interfaces_0 {
                        Err(e) => r == Err::<InterfaceView, ErrorView>(e),
                        Ok(found) => {
                            &&& r is Ok <==> exists|j: int| #[trigger]
                                first_with(found, new_name, j)
                            &&& found.len() == 0 ==> r == Err::<InterfaceView, ErrorView>(
                                ErrorView::NoInterfaces,
                            )
                            &&& found.len() > 0 && r is Err ==> (r->Err_0 matches ErrorView::NotFound {
                                name: wanted,
                                ..
                            } && wanted == new_name)
                        },
                    }
                },
            }
        }),
{
    a_lookup_finds_the_first(interfaces, name);
    let iface = interfaces[k];
    let p = crate::start::start_as_program(name, new_name);
    let entry = crate::enter::enter_program(iface);
    let f = crate::start::then_rename(iface, new_name);
    let h = Ok::<Holders, ErrorView>(held);
    let rest = replies.drop_first();
    crate::program::one_reply(p->Ask_0, p->Ask_1, replies);
    assert((p->Ask_1)(replies[0]) == crate::program::bind(entry, f));
    crate::program::bind_runs_in_sequence(entry, f, rest);
    let first = crate::program::asked(entry, rest);
    let after = rest.skip(first.len() as int);
    let q = crate::start::rename_in(iface, new_name, held);
    assert(f(h) == q);
    let n = first.len() as int + 1;
    assert(after =~= replies.skip(n));
    assert(after.len() > 0);
    crate::program::one_reply(q->Ask_0, q->Ask_1, after);
    assert(after[0] == replies[n]);
    match after[0]->Done_0 {
        Err(e) => {
            assert((q->Ask_1)(after[0]) == crate::start::take_back(iface, new_name, held, e));
            taking_back_reports(iface, new_name, held, e, after.drop_first());
        },
        Ok(u) => {
            let s = crate::start::find_renamed(iface, new_name, held);
            assert((q->Ask_1)(after[0]) == s);
            let later = after.drop_first();
            assert(later.len() > 0);
            crate::program::one_reply(s->Ask_0, s->Ask_1, later);
            assert(later[0] == replies[n + 1]);
            if let Ok(found) = later[0]->Interfaces_0 {
                a_lookup_finds_the_first(found, new_name);
            }
            match crate::leave::looked_up(later[0]->Interfaces_0, new_name) {
                Ok(renamed) => {
                    assert((s->Ask_1)(later[0]) is Return);
                },
                Err(e) => {
                    assert((s->Ask_1)(later[0]) == crate::start::take_back(
                        iface,
                        new_name,
                        held,
                        e,
                    ));
                    taking_back_reports(iface, new_name, held, e, later.drop_first());
                },
            }
        },
    }
}

proof fn taking_back_reports(
    iface: InterfaceView,
    new_name: Seq<char>,
    held: Holders,
    e: ErrorView,
    replies: Seq<LinuxReplyView>,
)
    ensures
        crate::program::outcome(
            crate::start::take_back(iface, new_name, held, e),
            replies,
        ) matches Some(r) ==> r == Err::<InterfaceView, ErrorView>(e),
{
    let last = crate::rollback::rename_back(iface, new_name, held, e);
    let f = crate::enter::failing::<InterfaceView>();
    crate::program::bind_runs_in_sequence(last, f, replies);
    if let Some(x) = crate::program::outcome(last, replies) {
        crate::laws::a_rollback_goes_in_reverse(iface, new_name, held, e, replies);
        assert(f(x) is Return);
    }
}

/// A start, a stop or a rename by name that finds no interface of that name is the
/// failure of the lookup, and nothing is asked after the enumeration.
pub proof fn nothing_is_done_to_what_is_not_found(
    name: Seq<char>,
    new_name: Seq<char>,
    replies: Seq<LinuxReplyView>,
)
    requires
        replies.len() > 0,
        replies[0]->Interfaces_0 matches Ok(interfaces) ==> forall|j: int|
            0 <= j < interfaces.len() ==> (#[trigger] interfaces[j]).name != name,
    ensures
        ({
            let e = match replies[0]->Interfaces_0 {
                Err(e) => e,
                Ok(interfaces) => if interfaces.len() == 0 {
                    ErrorView::NoInterfaces
                } else {
                    ErrorView::NotFound {
                        name,
                        available: crate::text::joined(
                            Seq::new(interfaces.len(), |i: int| interfaces[i].name),
                            ", "@,
                        ),
                    }
                },
            };
            let only = seq![LinuxOpView::Detect];
            &&& crate::program::asked(crate::start::start_on_program(name), replies) == only
            &&& crate::program::outcome(crate::start::start_on_program(name), replies) == Some(
                Err::<InterfaceView, ErrorView>(e),
            )
            &&& crate::program::asked(crate::start::start_as_program(name, new_name), replies)
                == only
            &&& crate::program::outcome(crate::start::start_as_program(name, new_name), replies)
                == Some(Err::<InterfaceView, ErrorView>(e))
            &&& crate::program::asked(crate::leave::leave_program(name), replies) == only
            &&& crate::program::outcome(crate::leave::leave_program(name), replies) == Some(
                Err::<(), ErrorView>(e),
            )
            &&& crate::program::asked(crate::backend::rename_program(name, new_name), replies)
                == only
            &&& crate::program::outcome(crate::backend::rename_program(name, new_name), replies)
                == Some(BackendReplyView::Done(Err(e)))
        }),
{
    if let Ok(interfaces) = replies[0]->Interfaces_0 {
        a_lookup_finds_the_first(interfaces, name);
    }
    let on = crate::start::start_on_program(name);
    crate::program::one_reply(on->Ask_0, on->Ask_1, replies);
    assert((on->Ask_1)(replies[0]) is Return);
    let renamed = crate::start::start_as_program(name, new_name);
    crate::program::one_reply(renamed->Ask_0, renamed->Ask_1, replies);
    assert((renamed->Ask_1)(replies[0]) is Return);
    let leave = crate::leave::leave_program(name);
    crate::program::one_reply(leave->Ask_0, leave->Ask_1, replies);
    assert((leave->Ask_1)(replies[0]) is Return);
    let rename = crate::backend::rename_program(name, new_name);
    crate::program::one_reply(rename->Ask_0, rename->Ask_1, replies);
    assert((rename->Ask_1)(replies[0]) is Return);
    let only = seq![LinuxOpView::Detect];
    assert(crate::program::asked(on, replies) =~= only);
    assert(crate::program::asked(renamed, replies) =~= only);
    assert(crate::program::asked(leave, replies) =~= only);
    assert(crate::program::asked(rename, replies) =~= only);
}

/// A start on a radio of the library's choice enumerates, and then works down what
/// selection offers of what was found. Where nothing could be enumerated or
/// selected, that is its failure, and nothing else is asked.
pub proof fn an_automatic_start_tries_what_selection_offers(replies: Seq<LinuxReplyView>)
    requires
        replies.len() > 0,
    ensures
        ({
            let p = crate::start::start_auto_program();
            let asked = crate::program::asked(p, replies);
            let r = crate::program::outcome(p, replies);
            let rest = replies.drop_first();
            match replies[0]->Interfaces_0 {
                Err(e) => {
                    &&& asked == seq![LinuxOpView::Detect]
                    &&& r == Some(Err::<InterfaceView, ErrorView>(e))
                },
                Ok(interfaces) => match crate::select::selection(interfaces) {
                    Err(e) => {
                        &&& asked == seq![LinuxOpView::Detect]
                        &&& r == Some(Err::<InterfaceView, ErrorView>(e))
                    },
                    Ok(ranked) => {
                        let first = crate::enter::enter_program(ranked[0]);
                        &&& asked == seq![LinuxOpView::Detect] + crate::program::asked(
                            crate::start::attempts(ranked),
                            rest,
                        )
                        &&& r == crate::program::outcome(crate::start::attempts(ranked), rest)
                        &&& crate::program::outcome(first, rest) matches Some(Ok(held)) ==> {
                            &&& asked == seq![LinuxOpView::Detect] + crate::program::asked(
                                first,
                                rest,
                            )
                            &&& r == Some(Ok::<InterfaceView, ErrorView>(ranked[0]))
                        }
                    },
                },
            }
        }),
{
    let p = crate::start::start_auto_program();
    crate::program::one_reply(p->Ask_0, p->Ask_1, replies);
    let rest = replies.drop_first();
    match replies[0]->Interfaces_0 {
        Err(e) => {
            assert((p->Ask_1)(replies[0]) is Return);
            assert(crate::program::asked(p, replies) =~= seq![LinuxOpView::Detect]);
        },
        Ok(interfaces) => match crate::select::selection(interfaces) {
            Err(e) => {
                assert((p->Ask_1)(replies[0]) is Return);
                assert(crate::program::asked(p, replies) =~= seq![LinuxOpView::Detect]);
            },
            Ok(ranked) => {
                crate::select::selection_is_never_empty(interfaces);
                assert((p->Ask_1)(replies[0]) == crate::start::attempts(ranked));
                let first = crate::enter::enter_program(ranked[0]);
                let f = crate::start::after_attempt(ranked);
                crate::start::attempts_unfold(ranked);
                crate::program::bind_runs_in_sequence(first, f, rest);
                if let Some(Ok(held)) = crate::program::outcome(first, rest) {
                    assert(f(Ok(held)) is Return);
                    assert(crate::program::asked(crate::start::attempts(ranked), rest)
                        =~= crate::program::asked(first, rest));
                }
            },
        },
    }
}

/// A stop by name enumerates. An interface that is in monitor mode is switched back
/// to managed mode and read back; where the switch was not made, or the mode could
/// not be read, that is the failure, and where it reads otherwise, the failure says
/// which mode it is in. Otherwise the services that run are asked for, and nothing
/// they say is a failure.
pub proof fn a_stop_ends_as_reported(
    name: Seq<char>,
    interfaces: Seq<InterfaceView>,
    k: int,
    replies: Seq<LinuxReplyView>,
)
    requires
        replies.len() > 0,
        replies[0]->Interfaces_0 == Ok::<Seq<InterfaceView>, ErrorView>(interfaces),
        first_with(interfaces, name, k),
        crate::program::outcome(crate::leave::leave_program(name), replies) is Some,
    ensures
        ({
            let asked = crate::program::asked(crate::leave::leave_program(name), replies);
            let r = crate::program::outcome(crate::leave::leave_program(name), replies)->0;
            let iface = interfaces[k];
            &&& asked.len() > 1 && asked[0] == LinuxOpView::Detect
            &&& if iface.mode == InterfaceMode::Monitor {
                &&& asked[1] == LinuxOpView::SetMode {
                    index: iface.index,
                    name,
                    mode: InterfaceMode::Managed,
                }
                &&& match replies[1]->Done_0 {
                    Err(e) => asked.len() == 2 && r == Err::<(), ErrorView>(e),
                    Ok(u) => {
                        &&& asked.len() > 2 && asked[2] == LinuxOpView::ReadMode {
                            index: iface.index,
                        }
                        &&& match replies[2]->Mode_0 {
                            Err(e) => asked.len() == 3 && r == Err::<(), ErrorView>(e),
                            Ok(actual) => if actual == InterfaceMode::Managed {
                                &&& r is Ok
                                &&& asked.skip(3) == crate::program::asked(
                                    crate::leave::offer(name),
                                    replies.skip(3),
                                )
                            } else {
                                &&& asked.len() == 3
                                &&& r == Err::<(), ErrorView>(
                                    ErrorView::Linux(
                                        LinuxErrorView::ManagedVerifyFailed {
                                            iface: name,
                                            actual,
                                        },
                                    ),
                                )
                            },
                        }
                    },
                }
            } else {
                &&& r is Ok
                &&& asked.skip(1) == crate::program::asked(
                    crate::leave::offer(name),
                    replies.skip(1),
                )
            }
        }),
{
    a_lookup_finds_the_first(interfaces, name);
    let iface = interfaces[k];
    let p = crate::leave::leave_program(name);
    crate::program::one_reply(p->Ask_0, p->Ask_1, replies);
    let tail = replies.drop_first();
    let offer = crate::leave::offer(name);
    let asked = crate::program::asked(p, replies);
    if iface.mode == InterfaceMode::Monitor {
        crate::laws::leaving_is_confirmed(name, iface, replies);
        let q = crate::leave::switch_out(iface);
        assert((p->Ask_1)(replies[0]) == q);
        assert(tail.len() > 0);
        crate::program::one_reply(q->Ask_0, q->Ask_1, tail);
        assert(tail[0] == replies[1]);
        let next = (q->Ask_1)(tail[0]);
        let rest = tail.drop_first();
        match tail[0]->Done_0 {
            Err(e) => {
                assert(next is Return);
            },
            Ok(u) => {
                assert(next == crate::leave::confirm_out(iface));
                assert(rest.len() > 0);
                crate::program::one_reply(next->Ask_0, next->Ask_1, rest);
                assert(rest[0] == replies[2]);
                if rest[0]->Mode_0 == Ok::<InterfaceMode, ErrorView>(InterfaceMode::Managed) {
                    assert((next->Ask_1)(rest[0]) == offer);
                    assert(rest.drop_first() =~= replies.skip(3));
                    assert(asked.skip(3) =~= crate::program::asked(offer, replies.skip(3)));
                } else {
                    assert((next->Ask_1)(rest[0]) is Return);
                }
            },
        }
    } else {
        crate::laws::leaving_spares_a_managed_interface(name, iface, replies, 0);
        assert((p->Ask_1)(replies[0]) == offer);
        assert(tail =~= replies.skip(1));
        assert(asked.skip(1) =~= crate::program::asked(offer, replies.skip(1)));
        crate::laws::an_offer_goes_to_who_is_there(name, tail);
    }
}

/// Whether a readback shows a frequency at a width: 20 MHz wide, or 40 MHz wide with
/// the centre of the segment 10 MHz to the side of the secondary channel.
pub open spec fn reads_as(actual: Tuning, freq_mhz: u32, width: ChannelWidth) -> bool {
    &&& actual.freq_mhz == Some(freq_mhz)
    &&& match width {
        ChannelWidth::Mhz20 => actual.width_mhz == Some(20u32),
        ChannelWidth::Mhz40Above => {
            &&& actual.width_mhz == Some(40u32)
            &&& actual.center_mhz matches Some(center)
            &&& center == freq_mhz + 10
        },
        ChannelWidth::Mhz40Below => {
            &&& actual.width_mhz == Some(40u32)
            &&& actual.center_mhz matches Some(center)
            &&& center == freq_mhz - 10
        },
    }
}

/// A channel set asks for exactly the given frequency and width on the given
/// interface, reads back what the same interface is tuned to, and asks nothing else.
/// It succeeds exactly when that reads as what was asked for. A set that was not
/// made and a readback that failed are its failure; a wrong frequency, and a right
/// one at a wrong width, are told apart.
pub proof fn a_channel_set_asks_for_what_was_given(
    index: u32,
    name: Seq<char>,
    freq_mhz: u32,
    width: ChannelWidth,
    replies: Seq<LinuxReplyView>,
)
    ensures
        ({
            let p = crate::tune::tune_program(index, name, freq_mhz, width);
            let asked = crate::program::asked(p, replies);
            let r = crate::program::outcome(p, replies);
            let set = LinuxOpView::SetFreq { index, name, freq_mhz, width };
            let read = LinuxOpView::ReadChannel { index };
            &&& replies.len() == 0 ==> asked.len() == 0 && r is None
            &&& replies.len() > 0 ==> match replies[0]->Done_0 {
                Err(e) => asked == seq![set] && r == Some(Err::<(), ErrorView>(e)),
                Ok(u) => if replies.len() == 1 {
                    asked == seq![set] && r is None
                } else {
                    &&& asked == seq![set, read]
                    &&& match replies[1]->Channel_0 {
                        Err(e) => r == Some(Err::<(), ErrorView>(e)),
                        Ok(actual) => {
                            &&& r is Some
                            &&& r->0 is Ok <==> reads_as(actual, freq_mhz, width)
                            &&& actual.freq_mhz != Some(freq_mhz) ==> r->0 == Err::<(), ErrorView>(
                                ErrorView::Linux(
                                    LinuxErrorView::ChannelVerifyFailed {
                                        iface: name,
                                        requested_mhz: freq_mhz,
                                        actual: match actual.freq_mhz {
                                            Some(mhz) => FrequencyReadback::Mhz(mhz),
                                            None => FrequencyReadback::Unreported,
                                        },
                                    },
                                ),
                            )
                            &&& actual.freq_mhz == Some(freq_mhz) && r->0 is Err ==> exists|
                                shown: WidthReadback,
                            |
                                r->0 == Err::<(), ErrorView>(
                                    ErrorView::Linux(
                                        LinuxErrorView::WidthVerifyFailed {
                                            iface: name,
                                            primary_mhz: freq_mhz,
                                            requested: width,
                                            actual: shown,
                                        },
                                    ),
                                ) && #[trigger] shows_width(actual, freq_mhz, shown)
                        },
                    }
                },
            }
        }),
{
    let p = crate::tune::tune_program(index, name, freq_mhz, width);
    let q = crate::tune::confirm_tuning(index, name, freq_mhz, width);
    let set = LinuxOpView::SetFreq { index, name, freq_mhz, width };
    let read = LinuxOpView::ReadChannel { index };
    if replies.len() > 0 {
        crate::program::one_reply(p->Ask_0, p->Ask_1, replies);
        let tail = replies.drop_first();
        if replies[0]->Done_0 is Err {
            assert((p->Ask_1)(replies[0]) is Return);
            assert(crate::program::asked(p, replies) =~= seq![set]);
        } else {
            assert((p->Ask_1)(replies[0]) == q);
            if replies.len() == 1 {
                assert(crate::program::asked(p, replies) =~= seq![set]);
            } else {
                crate::program::one_reply(q->Ask_0, q->Ask_1, tail);
                assert(tail[0] == replies[1]);
                assert((q->Ask_1)(tail[0]) is Return);
                assert(crate::program::asked(p, replies) =~= seq![set, read]);
                if let Ok(actual) = replies[1]->Channel_0 {
                    assert(shows_width(
                        actual,
                        freq_mhz,
                        crate::channel::width_readback(actual, freq_mhz),
                    ));
                }
            }
        }
    }
}

/// What a readback at a frequency says of the width: one that can be asked for, 40
/// MHz with its centre where neither secondary channel would put it, another width,
/// or none.
pub open spec fn shows_width(actual: Tuning, freq_mhz: u32, shown: WidthReadback) -> bool {
    let here = Tuning { freq_mhz: Some(freq_mhz), ..actual };
    match shown {
        WidthReadback::Known(width) => reads_as(here, freq_mhz, width),
        WidthReadback::Misaligned { center_mhz } => {
            &&& actual.width_mhz == Some(40u32)
            &&& center_mhz == actual.center_mhz
            &&& !reads_as(here, freq_mhz, ChannelWidth::Mhz40Above)
            &&& !reads_as(here, freq_mhz, ChannelWidth::Mhz40Below)
        },
        WidthReadback::Other { mhz } => actual.width_mhz == Some(mhz) && mhz != 20 && mhz != 40,
        WidthReadback::Unreported => actual.width_mhz is None,
    }
}

/// A width is read out of a tuning exactly as it would be confirmed, and a channel
/// number exactly as the frequency maps to one.
pub proof fn a_tuning_is_read_as_it_is_confirmed(actual: Tuning, width: ChannelWidth)
    ensures
        actual.requested_width() == Some(width) <==> (actual.freq_mhz matches Some(mhz) && reads_as(
            actual,
            mhz,
            width,
        )),
        actual.freq_mhz is None ==> actual.channel_number() is None,
        actual.freq_mhz matches Some(mhz) ==> actual.channel_number()
            == crate::channel::channel_of(mhz as int),
        forall|mhz: u32|
            shows_width(actual, mhz, #[trigger] crate::channel::width_readback(actual, mhz)),
{
}

/// A device that reports back what it was asked for makes every channel set succeed.
pub proof fn an_honest_device_is_tuned(
    index: u32,
    name: Seq<char>,
    freq_mhz: u32,
    width: ChannelWidth,
    actual: Tuning,
    replies: Seq<LinuxReplyView>,
)
    requires
        reads_as(actual, freq_mhz, width),
        replies.len() >= 2,
        replies[0] == LinuxReplyView::Done(Ok(())),
        replies[1] == LinuxReplyView::Channel(Ok(actual)),
    ensures
        crate::program::outcome(
            crate::tune::tune_program(index, name, freq_mhz, width),
            replies,
        ) matches Some(r) && r is Ok,
{
    a_channel_set_asks_for_what_was_given(index, name, freq_mhz, width, replies);
}

/// How Linux performs the operations that are not conversations of their own: an
/// enumeration is passed on, a readback asks for the given index, and a rename asks
/// for the index of the first interface of the name.
pub proof fn linux_performs_plain_operations(
    index: u32,
    name: Seq<char>,
    new: Seq<char>,
    replies: Seq<LinuxReplyView>,
)
    requires
        replies.len() > 0,
    ensures
        ({
            let detect = crate::backend::linux_program(BackendOpView::Detect);
            let read = crate::backend::linux_program(BackendOpView::ReadTuning { index, name });
            let rename = crate::backend::linux_program(
                BackendOpView::Rename { current: name, new },
            );
            &&& crate::program::asked(detect, replies) == seq![LinuxOpView::Detect]
            &&& crate::program::outcome(detect, replies) == Some(
                BackendReplyView::Interfaces(replies[0]->Interfaces_0),
            )
            &&& crate::program::asked(read, replies) == seq![LinuxOpView::ReadChannel { index }]
            &&& crate::program::outcome(read, replies) == Some(
                BackendReplyView::Tuning(replies[0]->Channel_0),
            )
            &&& forall|interfaces: Seq<InterfaceView>, k: int|
                replies[0]->Interfaces_0 == Ok::<Seq<InterfaceView>, ErrorView>(interfaces)
                    && #[trigger] first_with(interfaces, name, k) && replies.len() > 1 ==> {
                    &&& crate::program::asked(rename, replies) == seq![
                        LinuxOpView::Detect,
                        LinuxOpView::Rename { index: interfaces[k].index, old: name, new },
                    ]
                    &&& crate::program::outcome(rename, replies) == Some(
                        BackendReplyView::Done(replies[1]->Done_0),
                    )
                }
        }),
{
    let detect = crate::backend::linux_program(BackendOpView::Detect);
    let read = crate::backend::linux_program(BackendOpView::ReadTuning { index, name });
    let rename = crate::backend::linux_program(BackendOpView::Rename { current: name, new });
    crate::program::one_reply(detect->Ask_0, detect->Ask_1, replies);
    assert((detect->Ask_1)(replies[0]) is Return);
    assert(crate::program::asked(detect, replies) =~= seq![LinuxOpView::Detect]);
    crate::program::one_reply(read->Ask_0, read->Ask_1, replies);
    assert((read->Ask_1)(replies[0]) is Return);
    assert(crate::program::asked(read, replies) =~= seq![LinuxOpView::ReadChannel { index }]);
    assert forall|interfaces: Seq<InterfaceView>, k: int|
        replies[0]->Interfaces_0 == Ok::<Seq<InterfaceView>, ErrorView>(interfaces)
            && #[trigger] first_with(interfaces, name, k) && replies.len() > 1 implies ({
        &&& crate::program::asked(rename, replies) == seq![
            LinuxOpView::Detect,
            LinuxOpView::Rename { index: interfaces[k].index, old: name, new },
        ]
        &&& crate::program::outcome(rename, replies) == Some(
            BackendReplyView::Done(replies[1]->Done_0),
        )
    }) by {
        a_lookup_finds_the_first(interfaces, name);
        let tail = replies.drop_first();
        let q = crate::backend::rename_found(interfaces[k].index, name, new);
        crate::program::one_reply(rename->Ask_0, rename->Ask_1, replies);
        assert((rename->Ask_1)(replies[0]) == q);
        crate::program::one_reply(q->Ask_0, q->Ask_1, tail);
        assert(tail[0] == replies[1]);
        assert((q->Ask_1)(tail[0]) is Return);
        assert(crate::program::asked(rename, replies) =~= seq![
            LinuxOpView::Detect,
            LinuxOpView::Rename { index: interfaces[k].index, old: name, new },
        ]);
    }
}

/// How Linux performs the rest: a start asks and results in what the conversation
/// for that kind of start does, a channel set in what tuning does, and a stop in what
/// leaving does.
pub proof fn linux_performs_an_operation_by_its_conversation(
    name: Seq<char>,
    new_name: Seq<char>,
    index: u32,
    freq_mhz: u32,
    width: ChannelWidth,
    replies: Seq<LinuxReplyView>,
)
    ensures
        ({
            let auto = crate::backend::linux_program(BackendOpView::StartAuto);
            let on = crate::backend::linux_program(BackendOpView::StartOn { name });
            let renamed = crate::backend::linux_program(BackendOpView::StartAs { name, new_name });
            let set = crate::backend::linux_program(
                BackendOpView::SetChannel { index, name, freq_mhz, width },
            );
            let stop = crate::backend::linux_program(BackendOpView::Stop { name });
            &&& activates(auto, crate::start::start_auto_program(), replies)
            &&& activates(on, crate::start::start_on_program(name), replies)
            &&& activates(renamed, crate::start::start_as_program(name, new_name), replies)
            &&& changes(
                set,
                crate::tune::tune_program(index, name, freq_mhz, width),
                replies,
            )
            &&& changes(stop, crate::leave::leave_program(name), replies)
        }),
{
    activation_by_conversation(crate::start::start_auto_program(), replies);
    activation_by_conversation(crate::start::start_on_program(name), replies);
    activation_by_conversation(crate::start::start_as_program(name, new_name), replies);
    change_by_conversation(crate::tune::tune_program(index, name, freq_mhz, width), replies);
    change_by_conversation(crate::leave::leave_program(name), replies);
}

/// Whether an operation asks what a conversation asks, and replies with the
/// interface that is its result.
pub open spec fn activates(
    p: crate::ops::LinuxProgram<BackendReplyView>,
    q: crate::ops::LinuxProgram<Result<InterfaceView, ErrorView>>,
    replies: Seq<LinuxReplyView>,
) -> bool {
    &&& crate::program::asked(p, replies) == crate::program::asked(q, replies)
    &&& crate::program::outcome(p, replies) == match crate::program::outcome(q, replies) {
        Some(r) => Some(BackendReplyView::Interface(r)),
        None => None,
    }
}

/// Whether an operation asks what a conversation asks, and replies with how that
/// went.
pub open spec fn changes(
    p: crate::ops::LinuxProgram<BackendReplyView>,
    q: crate::ops::LinuxProgram<Result<(), ErrorView>>,
    replies: Seq<LinuxReplyView>,
) -> bool {
    &&& crate::program::asked(p, replies) == crate::program::asked(q, replies)
    &&& crate::program::outcome(p, replies) == match crate::program::outcome(q, replies) {
        Some(r) => Some(BackendReplyView::Done(r)),
        None => None,
    }
}

proof fn activation_by_conversation(
    q: crate::ops::LinuxProgram<Result<InterfaceView, ErrorView>>,
    replies: Seq<LinuxReplyView>,
)
    ensures
        activates(crate::program::bind(q, crate::backend::as_interface()), q, replies),
{
    let f = crate::backend::as_interface();
    crate::program::bind_runs_in_sequence(q, f, replies);
    if let Some(r) = crate::program::outcome(q, replies) {
        assert(f(r) is Return);
        assert(crate::program::asked(crate::program::bind(q, f), replies)
            =~= crate::program::asked(q, replies));
    }
}

proof fn change_by_conversation(
    q: crate::ops::LinuxProgram<Result<(), ErrorView>>,
    replies: Seq<LinuxReplyView>,
)
    ensures
        changes(crate::program::bind(q, crate::backend::as_done()), q, replies),
{
    let f = crate::backend::as_done();
    crate::program::bind_runs_in_sequence(q, f, replies);
    if let Some(r) = crate::program::outcome(q, replies) {
        assert(f(r) is Return);
        assert(crate::program::asked(crate::program::bind(q, f), replies)
            =~= crate::program::asked(q, replies));
    }
}

} // verus!
