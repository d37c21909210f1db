//! What holds of whole sessions, and of what carries them out.

use vstd::prelude::*;

use crate::backend::{BackendOpView, BackendReplyView};
use crate::channel::BandScope;
use crate::cleanup::GuardView;
use crate::errors::{ErrorView, LinuxErrorView};
use crate::interface::{ChannelWidth, InterfaceMode, InterfaceView};
use crate::link::{LinkOpView, LinkReplyView};
use crate::monitor::{BuilderView, SetChannelView, StartTargetView, TargetView};
use crate::ops::LinuxReplyView;
use crate::services::{BusOpView, BusReplyView, ServiceAction};

verus! {

/// A session under a malformed new name is refused without asking the backend for
/// anything.
pub proof fn a_malformed_name_touches_nothing(
    request: BuilderView,
    name: Seq<char>,
    new_name: Seq<char>,
    replies: Seq<BackendReplyView>,
)
    requires
        request.target == (StartTargetView::Renamed { name, new_name }),
        crate::names::name_fault(new_name) is Some,
    ensures
        crate::program::asked(crate::monitor::start_program(request), replies).len() == 0,
        crate::program::outcome(crate::monitor::start_program(request), replies) == Some(
            Err::<GuardView, ErrorView>(
                ErrorView::InvalidInterfaceName {
                    name: new_name,
                    reason: crate::names::name_fault(new_name)->0,
                },
            ),
        ),
{
}

/// The name a session on `iface` is to be restored under.
pub open spec fn original_name(request: BuilderView, iface: InterfaceView) -> Seq<char> {
    match request.target {
        StartTargetView::Renamed { name, new_name } => name,
        _ => iface.name,
    }
}

/// The operation that activates the interface of a session.
pub open spec fn activation(request: BuilderView) -> BackendOpView {
    match request.target {
        StartTargetView::Auto => BackendOpView::StartAuto,
        StartTargetView::Named(name) => BackendOpView::StartOn { name },
        StartTargetView::Renamed { name, new_name } => BackendOpView::StartAs { name, new_name },
    }
}

/// A start that asks at all asks for the activation, and goes on with the
/// interface that was activated.
proof fn start_begins_with_activation(request: BuilderView, replies: Seq<BackendReplyView>)
    requires
        crate::monitor::start_program(request) is Ask,
        replies.len() > 0,
    ensures
        crate::monitor::start_program(request)->Ask_0 == activation(request),
        match replies[0]->Interface_0 {
            Ok(iface) => (crate::monitor::start_program(request)->Ask_1)(replies[0])
                == crate::monitor::park(
                crate::cleanup::session(original_name(request, iface), iface),
                request,
            ),
            Err(e) => (crate::monitor::start_program(request)->Ask_1)(replies[0])
                == crate::backend::BackendProgram::<Result<GuardView, ErrorView>>::Return(Err(e)),
        },
{
}

/// A session that starts is the one asked for: on the activated interface, armed,
/// to be restored under its own name, and, where a channel was named, on the
/// frequency that the channel resolves to, at the requested width, as the last
/// thing that was done.
pub proof fn a_session_is_what_was_asked_for(
    request: BuilderView,
    guard: GuardView,
    replies: Seq<BackendReplyView>,
)
    requires
        crate::program::outcome(crate::monitor::start_program(request), replies) == Some(
            Ok::<GuardView, ErrorView>(guard),
        ),
    ensures
        replies.len() > 0,
        replies[0]->Interface_0 == Ok::<InterfaceView, ErrorView>(guard.iface),
        guard.original == original_name(request, guard.iface),
        guard.current == guard.iface.name,
        guard.armed,
        ({
            let asked = crate::program::asked(crate::monitor::start_program(request), replies);
            match request.channel {
                Some((channel, scope)) => {
                    &&& crate::channel::resolved(guard.iface, channel, scope) is Ok
                    &&& asked == seq![
                        activation(request),
                        BackendOpView::SetChannel {
                            index: guard.iface.index,
                            name: guard.iface.name,
                            freq_mhz: crate::channel::resolved(guard.iface, channel, scope)->Ok_0,
                            width: request.width,
                        },
                    ]
                    &&& replies[1]->Done_0 is Ok
                },
                None => asked == seq![activation(request)],
            }
        }),
{
    let p = crate::monitor::start_program(request);
    assert(p is Ask);
    assert(replies.len() > 0);
    crate::program::one_reply(p->Ask_0, p->Ask_1, replies);
    start_begins_with_activation(request, replies);
    let tail = replies.drop_first();
    let asked = crate::program::asked(p, replies);
    match replies[0]->Interface_0 {
        Ok(iface) => {
            let g = crate::cleanup::session(original_name(request, iface), iface);
            let park = crate::monitor::park(g, request);
            match request.channel {
                Some((channel, scope)) => {
                    let tuning = crate::monitor::set_channel_program(
                        SetChannelView {
                            target: TargetView::Resolved(iface),
                            channel,
                            width: request.width,
                            scope,
                        },
                    );
                    let f = crate::monitor::after_tuning(g);
                    crate::program::bind_runs_in_sequence(tuning, f, tail);
                    let r = crate::program::outcome(tuning, tail)->0;
                    match r {
                        Ok(name) => {
                            assert(f(r) is Return);
                            assert(tuning == crate::monitor::tune_to(
                                iface,
                                channel,
                                scope,
                                request.width,
                            ));
                            assert(tuning is Ask);
                            assert(tail.len() > 0);
                            crate::program::one_reply(tuning->Ask_0, tuning->Ask_1, tail);
                            assert((tuning->Ask_1)(tail[0]) is Return);
                            assert(tail[0] == replies[1]);
                            assert(asked =~= seq![
                                activation(request),
                                BackendOpView::SetChannel {
                                    index: iface.index,
                                    name: iface.name,
                                    freq_mhz: crate::channel::resolved(
                                        iface,
                                        channel,
                                        scope,
                                    )->Ok_0,
                                    width: request.width,
                                },
                            ]);
                        },
                        Err(e) => {
                            teardown_never_succeeds(g, e, tail.skip(
                                crate::program::asked(tuning, tail).len() as int,
                            ));
                        },
                    }
                },
                None => {
                    assert(asked =~= seq![activation(request)]);
                },
            }
        },
        Err(e) => {},
    }
}

proof fn teardown_never_succeeds(g: GuardView, e: ErrorView, replies: Seq<BackendReplyView>)
    ensures
        crate::program::outcome(
            crate::monitor::after_tuning(g)(Err(e)),
            replies,
        ) matches Some(r) ==> r == Err::<GuardView, ErrorView>(e),
{
    let restore = crate::monitor::restore_program(g.current, g.original);
    let f = crate::monitor::after_teardown(e);
    let allowed = |r: Result<GuardView, ErrorView>| r == Err::<GuardView, ErrorView>(e);
    assert forall|t: Result<Seq<char>, ErrorView>|
        crate::program::yields_only(#[trigger] f(t), allowed) by {}
    crate::program::bind_yields_only(restore, f, allowed);
    assert(crate::monitor::after_tuning(g)(Err(e)) == crate::program::bind(restore, f));
    crate::program::runs_yield_only(crate::program::bind(restore, f), allowed, replies);
}

/// No session is handed out on the wrong channel: where the activation succeeded
/// and the start fails nonetheless, the run ends with a complete restoration of
/// the interface, under its own name.
pub proof fn a_session_that_cannot_be_tuned_is_torn_down(
    request: BuilderView,
    iface: InterfaceView,
    e: ErrorView,
    replies: Seq<BackendReplyView>,
)
    requires
        replies.len() > 0,
        crate::monitor::start_program(request) is Ask,
        replies[0]->Interface_0 == Ok::<InterfaceView, ErrorView>(iface),
        crate::program::outcome(crate::monitor::start_program(request), replies) == Some(
            Err::<GuardView, ErrorView>(e),
        ),
    ensures
        request.channel is Some,
        crate::laws::ends_with(
            crate::monitor::start_program(request),
            crate::monitor::restore_program(iface.name, original_name(request, iface)),
            replies,
        ),
{
    let p = crate::monitor::start_program(request);
    crate::program::one_reply(p->Ask_0, p->Ask_1, replies);
    start_begins_with_activation(request, replies);
    let tail = replies.drop_first();
    let g = crate::cleanup::session(original_name(request, iface), iface);
    let last = crate::monitor::restore_program(iface.name, original_name(request, iface));
    let (channel, scope) = request.channel->0;
    let tuning = crate::monitor::set_channel_program(
        SetChannelView {
            target: TargetView::Resolved(iface),
            channel,
            width: request.width,
            scope,
        },
    );
    let f = crate::monitor::after_tuning(g);
    assert(crate::monitor::park(g, request) == crate::program::bind(tuning, f));
    crate::program::bind_runs_in_sequence(tuning, f, tail);
    let r = crate::program::outcome(tuning, tail)->0;
    let rest = tail.skip(crate::program::asked(tuning, tail).len() as int);
    match r {
        Ok(name) => {
            assert(f(r) is Return);
        },
        Err(x) => {
            let h = crate::monitor::after_teardown(x);
            assert(f(r) == crate::program::bind(last, h));
            crate::program::bind_runs_in_sequence(last, h, rest);
            crate::laws::ends_with_itself(last, rest);
            crate::laws::bind_return_ends_with(last, h, last, rest);
            crate::laws::bind_ends_with(tuning, f, last, tail, r);
        },
    }
    crate::laws::ask_ends_with(p->Ask_0, p->Ask_1, last, replies);
}

/// A restoration renames before it stops: the interface carries its original name
/// again before it is handed to anyone, and it is that name which is restored.
pub proof fn a_restoration_renames_first(
    current: Seq<char>,
    original: Seq<char>,
    name: Seq<char>,
    replies: Seq<BackendReplyView>,
)
    requires
        crate::program::outcome(
            crate::monitor::restore_program(current, original),
            replies,
        ) == Some(Ok::<Seq<char>, ErrorView>(name)),
    ensures
        name == original,
        crate::program::asked(crate::monitor::restore_program(current, original), replies) == if
            current == original {
            seq![BackendOpView::Stop { name: original }]
        } else {
            seq![
                BackendOpView::Rename { current, new: original },
                BackendOpView::Stop { name: original },
            ]
        },
{
    let p = crate::monitor::restore_program(current, original);
    let stop = crate::monitor::stop_program(original);
    let asked = crate::program::asked(p, replies);
    assert(replies.len() > 0);
    crate::program::one_reply(p->Ask_0, p->Ask_1, replies);
    if current == original {
        assert((p->Ask_1)(replies[0]) is Return);
        assert(asked =~= seq![BackendOpView::Stop { name: original }]);
    } else {
        let tail = replies.drop_first();
        match replies[0]->Done_0 {
            Ok(u) => {
                assert((p->Ask_1)(replies[0]) == stop);
                assert(tail.len() > 0);
                crate::program::one_reply(stop->Ask_0, stop->Ask_1, tail);
                assert((stop->Ask_1)(tail[0]) is Return);
                assert(asked =~= seq![
                    BackendOpView::Rename { current, new: original },
                    BackendOpView::Stop { name: original },
                ]);
            },
            Err(e) => {
                assert((p->Ask_1)(replies[0]) is Return);
            },
        }
    }
}

/// The stops of a sweep.
pub open spec fn stops(names: Seq<Seq<char>>) -> Seq<BackendOpView> {
    names.map_values(|name: Seq<char>| BackendOpView::Stop { name })
}

/// The names whose stop was done.
pub open spec fn stopped(names: Seq<Seq<char>>, replies: Seq<BackendReplyView>) -> Seq<Seq<char>>
    decreases names.len(),
{
    if names.len() == 0 {
        Seq::empty()
    } else {
        (if replies[0]->Done_0 is Ok {
            seq![names[0]]
        } else {
            Seq::empty()
        }) + stopped(names.drop_first(), replies.drop_first())
    }
}

/// A sweep stops every interface that is in monitor mode, once and in order, and
/// no other; a failure on one does not keep it from the next. Its result is the
/// names whose stop was done.
pub proof fn a_sweep_stops_what_is_in_monitor_mode(
    interfaces: Seq<InterfaceView>,
    replies: Seq<BackendReplyView>,
)
    requires
        replies.len() > 0,
        replies[0]->Interfaces_0 == Ok::<Seq<InterfaceView>, ErrorView>(interfaces),
        crate::program::outcome(crate::monitor::stop_all_program(), replies) is Some,
    ensures
        crate::program::asked(crate::monitor::stop_all_program(), replies) == seq![
            BackendOpView::Detect,
        ] + stops(crate::select::in_monitor_names(interfaces)),
        crate::program::outcome(crate::monitor::stop_all_program(), replies) == Some(
            Ok::<Seq<Seq<char>>, ErrorView>(
                stopped(crate::select::in_monitor_names(interfaces), replies.drop_first()),
            ),
        ),
{
    let p = crate::monitor::stop_all_program();
    let names = crate::select::in_monitor_names(interfaces);
    crate::program::one_reply(p->Ask_0, p->Ask_1, replies);
    assert((p->Ask_1)(replies[0]) == crate::monitor::sweep(names, Seq::empty()));
    sweeping(names, Seq::empty(), replies.drop_first());
    assert(Seq::empty() + stopped(names, replies.drop_first()) =~= stopped(
        names,
        replies.drop_first(),
    ));
}

proof fn sweeping(
    names: Seq<Seq<char>>,
    restored: Seq<Seq<char>>,
    replies: Seq<BackendReplyView>,
)
    requires
        crate::program::outcome(crate::monitor::sweep(names, restored), replies) is Some,
    ensures
        crate::program::asked(crate::monitor::sweep(names, restored), replies) == stops(names),
        crate::program::outcome(crate::monitor::sweep(names, restored), replies) == Some(
            Ok::<Seq<Seq<char>>, ErrorView>(restored + stopped(names, replies)),
        ),
    decreases names.len(),
{
    let p = crate::monitor::sweep(names, restored);
    if names.len() == 0 {
        assert(stops(names) =~= Seq::empty());
        assert(restored + Seq::empty() =~= restored);
    } else {
        assert(replies.len() > 0);
        crate::program::one_reply(p->Ask_0, p->Ask_1, replies);
        let fewer = names.drop_first();
        let tail = replies.drop_first();
        assert(stops(names) =~= seq![BackendOpView::Stop { name: names[0] }] + stops(fewer));
        match replies[0]->Done_0 {
            Ok(u) => {
                assert((p->Ask_1)(replies[0]) == crate::monitor::sweep(
                    fewer,
                    restored.push(names[0]),
                ));
                sweeping(fewer, restored.push(names[0]), tail);
                assert(restored.push(names[0]) + stopped(fewer, tail) =~= restored + (seq![
                    names[0],
                ] + stopped(fewer, tail)));
            },
            Err(e) => {
                assert((p->Ask_1)(replies[0]) == crate::monitor::sweep(fewer, restored));
                sweeping(fewer, restored, tail);
                assert(restored + stopped(fewer, tail) =~= restored + (Seq::empty() + stopped(
                    fewer,
                    tail,
                )));
            },
        }
    }
}

/// A name is stopped in a sweep exactly when some detected interface of that name is
/// in monitor mode: the stops after the enumeration are those of the interfaces in
/// monitor mode, one each and in the order of detection, whatever becomes of the
/// others. A sweep that cannot enumerate stops nothing, and that is its failure.
pub proof fn a_sweep_stops_exactly_the_monitors(
    interfaces: Seq<InterfaceView>,
    replies: Seq<BackendReplyView>,
)
    requires
        replies.len() > 0,
        crate::program::outcome(crate::monitor::stop_all_program(), replies) is Some,
    ensures
        ({
            let asked = crate::program::asked(crate::monitor::stop_all_program(), replies);
            let r = crate::program::outcome(crate::monitor::stop_all_program(), replies)->0;
            &&& asked.len() > 0 && asked[0] == BackendOpView::Detect
            &&& replies[0]->Interfaces_0 matches Err(e) ==> asked.len() == 1 && r == Err::<
                Seq<Seq<char>>,
                ErrorView,
            >(e)
            &&& replies[0]->Interfaces_0 == Ok::<Seq<InterfaceView>, ErrorView>(interfaces) ==> {
                let monitors = interfaces.filter(
                    |i: InterfaceView| i.mode == InterfaceMode::Monitor,
                );
                &&& asked.len() == 1 + monitors.len()
                &&& forall|k: int|
                    0 <= k < monitors.len() ==> #[trigger] asked[1 + k] == (BackendOpView::Stop {
                        name: monitors[k].name,
                    })
                &&& forall|i: int|
                    0 <= i < interfaces.len() && (#[trigger] interfaces[i]).mode
                        == InterfaceMode::Monitor ==> asked.contains(
                        BackendOpView::Stop { name: interfaces[i].name },
                    )
                &&& forall|name: Seq<char>| #[trigger]
                    asked.contains(BackendOpView::Stop { name }) ==> exists|i: int|
                        0 <= i < interfaces.len() && (#[trigger] interfaces[i]).name == name
                            && interfaces[i].mode == InterfaceMode::Monitor
                &&& r matches Ok(names)
                &&& forall|name: Seq<char>| #[trigger]
                    names.contains(name) <==> exists|k: int|
                        0 <= k < monitors.len() && (#[trigger] monitors[k]).name == name
                            && replies[1 + k]->Done_0 is Ok
            }
        }),
{
    let p = crate::monitor::stop_all_program();
    crate::program::one_reply(p->Ask_0, p->Ask_1, replies);
    let asked = crate::program::asked(p, replies);
    if replies[0]->Interfaces_0 is Err {
        assert((p->Ask_1)(replies[0]) is Return);
    }
    if replies[0]->Interfaces_0 == Ok::<Seq<InterfaceView>, ErrorView>(interfaces) {
        a_sweep_stops_what_is_in_monitor_mode(interfaces, replies);
        crate::select_laws::busy_means_in_monitor_mode(interfaces);
        let monitors = interfaces.filter(|i: InterfaceView| i.mode == InterfaceMode::Monitor);
        let busy = crate::select::in_monitor_names(interfaces);
        assert forall|i: int|
            0 <= i < interfaces.len() && (#[trigger] interfaces[i]).mode
                == InterfaceMode::Monitor implies asked.contains(
            BackendOpView::Stop { name: interfaces[i].name },
        ) by {
            assert(busy.contains(interfaces[i].name));
            let k = choose|k: int| 0 <= k < busy.len() && busy[k] == interfaces[i].name;
            assert(asked[1 + k] == BackendOpView::Stop { name: busy[k] });
        }
        assert forall|name: Seq<char>| #[trigger]
            asked.contains(BackendOpView::Stop { name }) implies exists|i: int|
            0 <= i < interfaces.len() && (#[trigger] interfaces[i]).name == name
                && interfaces[i].mode == InterfaceMode::Monitor by {
            let k = choose|k: int|
                0 <= k < asked.len() && asked[k] == BackendOpView::Stop { name };
            assert(k > 0);
            assert(asked[k] == stops(busy)[k - 1]);
            assert(busy[k - 1] == name);
            assert(busy.contains(name));
        }
        let done = replies.drop_first();
        let names = stopped(busy, done);
        asked_within_replies(p, replies);
        assert forall|name: Seq<char>| #[trigger]
            names.contains(name) <==> exists|k: int|
                0 <= k < monitors.len() && (#[trigger] monitors[k]).name == name
                    && replies[1 + k]->Done_0 is Ok by {
            what_was_stopped(busy, done, name);
            if names.contains(name) {
                let k = choose|k: int|
                    0 <= k < busy.len() && #[trigger] busy[k] == name && done[k]->Done_0 is Ok;
                assert(monitors[k].name == name);
            }
            if exists|k: int|
                0 <= k < monitors.len() && (#[trigger] monitors[k]).name == name
                    && replies[1 + k]->Done_0 is Ok {
                let k = choose|k: int|
                    0 <= k < monitors.len() && (#[trigger] monitors[k]).name == name
                        && replies[1 + k]->Done_0 is Ok;
                assert(busy[k] == name);
                assert(done[k] == replies[1 + k]);
            }
        }
    }
}

proof fn asked_within_replies<O, R, T>(p: crate::program::Program<O, R, T>, replies: Seq<R>)
    ensures
        crate::program::asked(p, replies).len() <= replies.len(),
    decreases replies.len(),
{
    if let crate::program::Program::Ask(o, k) = p {
        if replies.len() > 0 {
            asked_within_replies(k(replies[0]), replies.drop_first());
        }
    }
}

proof fn what_was_stopped(
    names: Seq<Seq<char>>,
    replies: Seq<BackendReplyView>,
    name: Seq<char>,
)
    requires
        names.len() <= replies.len(),
    ensures
        stopped(names, replies).contains(name) <==> exists|k: int|
            0 <= k < names.len() && #[trigger] names[k] == name && replies[k]->Done_0 is Ok,
    decreases names.len(),
{
    if names.len() > 0 {
        let fewer = names.drop_first();
        let rest = replies.drop_first();
        let all = stopped(names, replies);
        let later = stopped(fewer, rest);
        what_was_stopped(fewer, rest, name);
        let n: int = if replies[0]->Done_0 is Ok {
            1
        } else {
            0
        };
        if later.contains(name) {
            let j = choose|j: int| 0 <= j < later.len() && later[j] == name;
            assert(all[n + j] == name);
            let k = choose|k: int|
                0 <= k < fewer.len() && #[trigger] fewer[k] == name && rest[k]->Done_0 is Ok;
            assert(names[k + 1] == name && replies[k + 1]->Done_0 is Ok);
        }
        if names[0] == name && n == 1 {
            assert(all[0] == name);
        }
        if all.contains(name) {
            let j = choose|j: int| 0 <= j < all.len() && all[j] == name;
            if j >= n {
                assert(later[j - n] == name);
            }
        }
        if exists|k: int|
            0 <= k < names.len() && #[trigger] names[k] == name && replies[k]->Done_0 is Ok {
            let k = choose|k: int|
                0 <= k < names.len() && #[trigger] names[k] == name && replies[k]->Done_0 is Ok;
            if k > 0 {
                assert(fewer[k - 1] == name && rest[k - 1]->Done_0 is Ok);
            }
        }
    }
}

/// A session tunes without enumerating: it holds the interface already.
pub proof fn a_held_interface_is_not_looked_up(
    iface: InterfaceView,
    channel: u32,
    width: ChannelWidth,
    scope: BandScope,
)
    ensures
        crate::program::asks_only(
            crate::monitor::set_channel_program(
                SetChannelView { target: TargetView::Resolved(iface), channel, width, scope },
            ),
            |o: BackendOpView| o is SetChannel,
        ),
{
    let p = crate::monitor::set_channel_program(
        SetChannelView { target: TargetView::Resolved(iface), channel, width, scope },
    );
    if p is Ask {
        assert forall|r: BackendReplyView|
            crate::program::asks_only(
                #[trigger] (p->Ask_1)(r),
                |o: BackendOpView| o is SetChannel,
            ) by {
            assert((p->Ask_1)(r) is Return);
        }
    }
}

/// Whatever Linux makes of an operation, its reply is of the kind the operation
/// has.
pub proof fn linux_replies_in_kind(op: BackendOpView, replies: Seq<LinuxReplyView>)
    ensures
        crate::program::outcome(crate::backend::linux_program(op), replies) matches Some(r)
            ==> op.answered_by(r),
{
    let p = crate::backend::linux_program(op);
    let allowed = |r: BackendReplyView| op.answered_by(r);
    let f = crate::backend::as_interface();
    let g = crate::backend::as_done();
    assert forall|r: Result<InterfaceView, ErrorView>| (#[trigger] f(r)) is Return by {}
    assert forall|r: Result<(), ErrorView>| (#[trigger] g(r)) is Return by {}
    match op {
        BackendOpView::StartAuto => {
            crate::program::bind_yields_only(crate::start::start_auto_program(), f, allowed);
        },
        BackendOpView::StartOn { name } => {
            crate::program::bind_yields_only(crate::start::start_on_program(name), f, allowed);
        },
        BackendOpView::StartAs { name, new_name } => {
            crate::program::bind_yields_only(
                crate::start::start_as_program(name, new_name),
                f,
                allowed,
            );
        },
        BackendOpView::SetChannel { index, name, freq_mhz, width } => {
            crate::program::bind_yields_only(
                crate::tune::tune_program(index, name, freq_mhz, width),
                g,
                allowed,
            );
        },
        BackendOpView::Stop { name } => {
            crate::program::bind_yields_only(crate::leave::leave_program(name), g, allowed);
        },
        BackendOpView::Rename { current, new } => {
            assert forall|r: LinuxReplyView|
                crate::program::yields_only(#[trigger] (p->Ask_1)(r), allowed) by {
                let q = (p->Ask_1)(r);
                if q is Ask {
                    assert forall|s: LinuxReplyView|
                        crate::program::yields_only(#[trigger] (q->Ask_1)(s), allowed) by {
                        assert((q->Ask_1)(s) is Return);
                    }
                }
            }
        },
        _ => {
            assert forall|r: LinuxReplyView|
                crate::program::yields_only(#[trigger] (p->Ask_1)(r), allowed) by {
                assert((p->Ask_1)(r) is Return);
            }
        },
    }
    crate::program::runs_yield_only(p, allowed, replies);
}

/// A switch never leaves the link down: once it was brought down, the last thing
/// that is done is to bring it up, whatever failed in between.
pub proof fn a_switch_brings_the_link_up(
    index: u32,
    name: Seq<char>,
    mode: InterfaceMode,
    replies: Seq<LinkReplyView>,
)
    requires
        crate::program::outcome(crate::link::switch_program(index, name, mode), replies) is Some,
        replies.len() >= 2,
        replies[0] is Ok,
        replies[1] is Ok,
    ensures
        ({
            let asked = crate::program::asked(
                crate::link::switch_program(index, name, mode),
                replies,
            );
            &&& asked.len() >= 3
            &&& asked[1] == LinkOpView::SetLink { index, up: false }
            &&& asked.last() == LinkOpView::SetLink { index, up: true }
        }),
{
    reveal_with_fuel(crate::program::asked, 6);
    reveal_with_fuel(crate::program::outcome, 6);
}

/// A rename never leaves the link down, and reports a name that was not set before
/// a link that was not brought up.
pub proof fn a_rename_brings_the_link_up(
    index: u32,
    old_name: Seq<char>,
    new_name: Seq<char>,
    replies: Seq<LinkReplyView>,
)
    requires
        crate::program::outcome(
            crate::link::rename_program(index, old_name, new_name),
            replies,
        ) is Some,
        replies.len() >= 2,
        replies[0] is Ok,
        replies[1] is Ok,
    ensures
        crate::program::asked(crate::link::rename_program(index, old_name, new_name), replies)
            == seq![
            LinkOpView::OpenRoute,
            LinkOpView::SetLink { index, up: false },
            LinkOpView::SetName { index, name: new_name },
            LinkOpView::SetLink { index, up: true },
        ],
        replies[2] matches Err(source) ==> crate::program::outcome(
            crate::link::rename_program(index, old_name, new_name),
            replies,
        ) == Some(
            Err::<(), ErrorView>(
                ErrorView::Linux(
                    LinuxErrorView::Rename { old: old_name, new: new_name, source },
                ),
            ),
        ),
{
    reveal_with_fuel(crate::program::asked, 6);
    reveal_with_fuel(crate::program::outcome, 6);
    assert(crate::program::asked(crate::link::rename_program(index, old_name, new_name), replies)
        =~= seq![
        LinkOpView::OpenRoute,
        LinkOpView::SetLink { index, up: false },
        LinkOpView::SetName { index, name: new_name },
        LinkOpView::SetLink { index, up: true },
    ]);
}

/// An interface that NetworkManager does not track has nothing to be released or
/// taken back: the action succeeds and sets nothing. Any other failure of the
/// lookup is reported.
pub proof fn only_an_untracked_interface_is_skipped(
    action: ServiceAction,
    iface: Seq<char>,
    replies: Seq<BusReplyView>,
)
    requires
        action == ServiceAction::NmRelease || action == ServiceAction::NmReclaim,
        replies.len() >= 3,
        replies[0] is Ok,
        replies[1] is Ok,
        replies[2] is Err,
    ensures
        crate::program::asked(crate::services::service_program(action, iface), replies) == seq![
            BusOpView::Connect,
            BusOpView::Manager,
            BusOpView::GetDevice { iface },
        ],
        crate::program::outcome(crate::services::service_program(action, iface), replies) == Some(
            if crate::services::untracked(replies[2]->Err_0) {
                Ok::<(), ErrorView>(())
            } else {
                Err(crate::services::nm_error("get_device"@, iface, replies[2]))
            },
        ),
{
    reveal_with_fuel(crate::program::asked, 6);
    reveal_with_fuel(crate::program::outcome, 6);
    assert(crate::program::asked(crate::services::service_program(action, iface), replies)
        =~= seq![
        BusOpView::Connect,
        BusOpView::Manager,
        BusOpView::GetDevice { iface },
    ]);
}

/// wpa_supplicant is not disturbed over an interface that is where it should be: a
/// release of one it does not know, and a reclaim of one it already has, succeed
/// after the lookup and change nothing. In the other case it is asked to drop the
/// interface, or to take it up.
pub proof fn the_supplicant_is_asked_only_for_a_change(
    action: ServiceAction,
    iface: Seq<char>,
    replies: Seq<BusReplyView>,
)
    requires
        action == ServiceAction::WpaRelease || action == ServiceAction::WpaReclaim,
        replies.len() >= 4,
        replies[0] is Ok,
        replies[1] is Ok,
    ensures
        ({
            let settled = (replies[2] is Ok) == (action == ServiceAction::WpaReclaim);
            let asked = crate::program::asked(
                crate::services::service_program(action, iface),
                replies,
            );
            let outcome = crate::program::outcome(
                crate::services::service_program(action, iface),
                replies,
            );
            let lookup = seq![
                BusOpView::Connect,
                BusOpView::Supplicant,
                BusOpView::GetInterface { iface },
            ];
            if settled {
                asked == lookup && outcome == Some(Ok::<(), ErrorView>(()))
            } else {
                &&& asked == lookup.push(
                    if action == ServiceAction::WpaRelease {
                        BusOpView::RemoveInterface
                    } else {
                        BusOpView::CreateInterface { iface }
                    },
                )
                &&& outcome matches Some(r)
                &&& r is Ok <==> replies[3] is Ok
            }
        }),
{
    reveal_with_fuel(crate::program::asked, 6);
    reveal_with_fuel(crate::program::outcome, 6);
    let asked = crate::program::asked(crate::services::service_program(action, iface), replies);
    let lookup = seq![
        BusOpView::Connect,
        BusOpView::Supplicant,
        BusOpView::GetInterface { iface },
    ];
    if (replies[2] is Ok) == (action == ServiceAction::WpaReclaim) {
        assert(asked =~= lookup);
    } else if action == ServiceAction::WpaRelease {
        assert(asked =~= lookup.push(BusOpView::RemoveInterface));
    } else {
        assert(asked =~= lookup.push(BusOpView::CreateInterface { iface }));
    }
}

/// A stop asks for the stop of that name, once, and its result is that name or the
/// failure.
pub proof fn a_stop_is_of_the_name_given(name: Seq<char>, replies: Seq<BackendReplyView>)
    requires
        replies.len() > 0,
    ensures
        crate::program::asked(crate::monitor::stop_program(name), replies) == seq![
            BackendOpView::Stop { name },
        ],
        crate::program::outcome(crate::monitor::stop_program(name), replies) == Some(
            match replies[0]->Done_0 {
                Ok(u) => Ok::<Seq<char>, ErrorView>(name),
                Err(e) => Err(e),
            },
        ),
{
    let p = crate::monitor::stop_program(name);
    crate::program::one_reply(p->Ask_0, p->Ask_1, replies);
    assert((p->Ask_1)(replies[0]) is Return);
    assert(crate::program::asked(p, replies) =~= seq![BackendOpView::Stop { name }]);
}

/// A restoration that fails says why: a name that could not be put back ends it before
/// anything is stopped, and a stop that failed is its failure.
pub proof fn a_restoration_ends_as_reported(
    current: Seq<char>,
    original: Seq<char>,
    replies: Seq<BackendReplyView>,
)
    requires
        replies.len() >= 2,
    ensures
        ({
            let p = crate::monitor::restore_program(current, original);
            let asked = crate::program::asked(p, replies);
            let r = crate::program::outcome(p, replies);
            let stop = BackendOpView::Stop { name: original };
            let rename = BackendOpView::Rename { current, new: original };
            if current == original {
                &&& asked == seq![stop]
                &&& r == Some(
                    match replies[0]->Done_0 {
                        Ok(u) => Ok::<Seq<char>, ErrorView>(original),
                        Err(e) => Err(e),
                    },
                )
            } else {
                match replies[0]->Done_0 {
                    Err(e) => asked == seq![rename] && r == Some(Err::<Seq<char>, ErrorView>(e)),
                    Ok(u) => {
                        &&& asked == seq![rename, stop]
                        &&& r == Some(
                            match replies[1]->Done_0 {
                                Ok(u) => Ok::<Seq<char>, ErrorView>(original),
                                Err(e) => Err(e),
                            },
                        )
                    },
                }
            }
        }),
{
    let p = crate::monitor::restore_program(current, original);
    let stop = BackendOpView::Stop { name: original };
    let rename = BackendOpView::Rename { current, new: original };
    let asked = crate::program::asked(p, replies);
    if current == original {
        a_stop_is_of_the_name_given(original, replies);
    } else {
        crate::program::one_reply(p->Ask_0, p->Ask_1, replies);
        let rest = replies.drop_first();
        if replies[0]->Done_0 is Err {
            assert((p->Ask_1)(replies[0]) is Return);
            assert(asked =~= seq![rename]);
        } else {
            assert((p->Ask_1)(replies[0]) == crate::monitor::stop_program(original));
            a_stop_is_of_the_name_given(original, rest);
            assert(rest[0] == replies[1]);
            assert(asked =~= seq![rename, stop]);
        }
    }
}

/// Whether a channel set on an interface runs as it should: the channel is resolved on
/// that interface, and where it resolves, exactly that frequency is set at the given
/// width on the interface of that index and name. The result is the name, or the
/// failure to resolve or to set.
pub open spec fn sets_channel_on(
    iface: InterfaceView,
    channel: u32,
    scope: BandScope,
    width: ChannelWidth,
    asked: Seq<BackendOpView>,
    r: Option<Result<Seq<char>, ErrorView>>,
    replies: Seq<BackendReplyView>,
) -> bool {
    match crate::channel::resolved(iface, channel, scope) {
        Err(e) => asked.len() == 0 && r == Some(Err::<Seq<char>, ErrorView>(e)),
        Ok(mhz) => {
            &&& replies.len() == 0 ==> asked.len() == 0 && r is None
            &&& replies.len() > 0 ==> {
                &&& asked == seq![
                    BackendOpView::SetChannel {
                        index: iface.index,
                        name: iface.name,
                        freq_mhz: mhz,
                        width,
                    },
                ]
                &&& r == Some(
                    match replies[0]->Done_0 {
                        Ok(u) => Ok::<Seq<char>, ErrorView>(iface.name),
                        Err(e) => Err(e),
                    },
                )
            }
        },
    }
}

/// A channel set on an interface at hand is made on that interface.
pub proof fn a_channel_set_is_on_the_interface_held(
    iface: InterfaceView,
    channel: u32,
    scope: BandScope,
    width: ChannelWidth,
    replies: Seq<BackendReplyView>,
)
    ensures
        ({
            let p = crate::monitor::set_channel_program(
                SetChannelView { target: TargetView::Resolved(iface), channel, width, scope },
            );
            sets_channel_on(
                iface,
                channel,
                scope,
                width,
                crate::program::asked(p, replies),
                crate::program::outcome(p, replies),
                replies,
            )
        }),
{
    let p = crate::monitor::set_channel_program(
        SetChannelView { target: TargetView::Resolved(iface), channel, width, scope },
    );
    if crate::channel::resolved(iface, channel, scope) is Ok && replies.len() > 0 {
        crate::program::one_reply(p->Ask_0, p->Ask_1, replies);
        assert((p->Ask_1)(replies[0]) is Return);
        assert(crate::program::asked(p, replies) =~= seq![p->Ask_0]);
    }
}

/// A channel set by name enumerates and is made on the first interface of that name.
/// Where there is none, or nothing could be enumerated, that is its failure and nothing
/// is set.
pub proof fn a_channel_set_by_name_is_on_the_first_of_it(
    name: Seq<char>,
    channel: u32,
    scope: BandScope,
    width: ChannelWidth,
    replies: Seq<BackendReplyView>,
)
    requires
        replies.len() > 0,
    ensures
        ({
            let p = crate::monitor::set_channel_program(
                SetChannelView { target: TargetView::ByName(name), channel, width, scope },
            );
            let asked = crate::program::asked(p, replies);
            let r = crate::program::outcome(p, replies);
            &&& asked.len() > 0 && asked[0] == BackendOpView::Detect
            &&& match replies[0]->Interfaces_0 {
                Err(e) => asked.len() == 1 && r == Some(Err::<Seq<char>, ErrorView>(e)),
                Ok(interfaces) => {
                    &&& forall|k: int| #[trigger]
                        crate::start_laws::first_with(interfaces, name, k) ==> sets_channel_on(
                            interfaces[k],
                            channel,
                            scope,
                            width,
                            asked.skip(1),
                            r,
                            replies.skip(1),
                        )
                    &&& (forall|j: int|
                        0 <= j < interfaces.len() ==> (#[trigger] interfaces[j]).name != name)
                        ==> asked.len() == 1 && (r matches Some(Err(ErrorView::NotFound {
                        name: wanted,
                        ..
                    })) && wanted == name)
                },
            }
        }),
{
    let p = crate::monitor::set_channel_program(
        SetChannelView { target: TargetView::ByName(name), channel, width, scope },
    );
    crate::program::one_reply(p->Ask_0, p->Ask_1, replies);
    let asked = crate::program::asked(p, replies);
    let rest = replies.drop_first();
    assert(rest =~= replies.skip(1));
    match replies[0]->Interfaces_0 {
        Err(e) => {
            assert((p->Ask_1)(replies[0]) is Return);
        },
        Ok(interfaces) => {
            crate::start_laws::a_lookup_finds_the_first(interfaces, name);
            match crate::names::selected(interfaces, name) {
                Ok(iface) => {
                    let q = crate::monitor::set_channel_program(
                        SetChannelView {
                            target: TargetView::Resolved(iface),
                            channel,
                            width,
                            scope,
                        },
                    );
                    assert((p->Ask_1)(replies[0]) == q);
                    a_channel_set_is_on_the_interface_held(iface, channel, scope, width, rest);
                    assert(asked.skip(1) =~= crate::program::asked(q, rest));
                },
                Err(e) => {
                    assert((p->Ask_1)(replies[0]) is Return);
                },
            }
        },
    }
}

/// A session whose interface could not be activated is that failure, and nothing else
/// is asked. One whose channel does not resolve or could not be set is torn down: the
/// failure is that of the channel.
pub proof fn a_session_fails_as_reported(request: BuilderView, replies: Seq<BackendReplyView>)
    requires
        crate::monitor::start_program(request) is Ask,
        replies.len() > 0,
    ensures
        ({
            let p = crate::monitor::start_program(request);
            let asked = crate::program::asked(p, replies);
            let r = crate::program::outcome(p, replies);
            &&& asked.len() > 0 && asked[0] == activation(request)
            &&& match replies[0]->Interface_0 {
                Err(e) => asked.len() == 1 && r == Some(Err::<GuardView, ErrorView>(e)),
                Ok(iface) => match request.channel {
                    None => asked.len() == 1 && (r matches Some(Ok(guard)) && guard.iface == iface),
                    Some((channel, scope)) => match crate::channel::resolved(
                        iface,
                        channel,
                        scope,
                    ) {
                        Err(e) => r matches Some(x) ==> x == Err::<GuardView, ErrorView>(e),
                        Ok(mhz) => replies.len() > 1 ==> match replies[1]->Done_0 {
                            Err(e) => r matches Some(x) ==> x == Err::<GuardView, ErrorView>(e),
                            Ok(u) => asked.len() == 2 && (r matches Some(Ok(guard)) && guard.iface
                                == iface),
                        },
                    },
                },
            }
        }),
{
    let p = crate::monitor::start_program(request);
    crate::program::one_reply(p->Ask_0, p->Ask_1, replies);
    start_begins_with_activation(request, replies);
    let tail = replies.drop_first();
    if let Ok(iface) = replies[0]->Interface_0 {
        let g = crate::cleanup::session(original_name(request, iface), iface);
        if let Some((channel, scope)) = request.channel {
            let tuning = crate::monitor::set_channel_program(
                SetChannelView {
                    target: TargetView::Resolved(iface),
                    channel,
                    width: request.width,
                    scope,
                },
            );
            let f = crate::monitor::after_tuning(g);
            assert(crate::monitor::park(g, request) == crate::program::bind(tuning, f));
            crate::program::bind_runs_in_sequence(tuning, f, tail);
            a_channel_set_is_on_the_interface_held(iface, channel, scope, request.width, tail);
            if replies.len() > 1 {
                assert(tail[0] == replies[1]);
            }
            if let Some(x) = crate::program::outcome(tuning, tail) {
                match x {
                    Ok(name) => {
                        assert(f(x) is Return);
                    },
                    Err(e) => {
                        teardown_never_succeeds(
                            g,
                            e,
                            tail.skip(crate::program::asked(tuning, tail).len() as int),
                        );
                    },
                }
            }
        }
    }
}

/// Only a malformed new name keeps a session from asking at all.
pub proof fn a_session_begins_unless_the_name_is_malformed(request: BuilderView)
    ensures
        crate::monitor::start_program(request) is Ask <==> (request.target matches
            StartTargetView::Renamed { name, new_name } ==> crate::names::name_fault(
            new_name,
        ) is None),
{
}

} // verus!
