//! What each command does, and what the operator is told of it.

use vstd::prelude::*;

use crate::cli::{CliErrorView, CommandView};
use crate::dispatch::{CommandOpView, CommandReplyView, EventView, ExitView};
use crate::errors::ErrorView;
use crate::interface::ChannelWidth;
use crate::monitor::{BuilderView, StartTargetView};

verus! {

/// The session that a command starts, if it starts one.
pub open spec fn session_of(command: CommandView) -> Option<BuilderView> {
    let target = match command {
        CommandView::Start => Some(StartTargetView::Auto),
        CommandView::StartOn { iface } => Some(StartTargetView::Named(iface)),
        CommandView::StartAs { iface, new_name } => Some(
            StartTargetView::Renamed { name: iface, new_name },
        ),
        _ => None,
    };
    match target {
        Some(target) => Some(BuilderView { target, channel: None, width: ChannelWidth::Mhz20 }),
        None => None,
    }
}

/// A command that starts a session starts the one that it names, on no channel, leaves it
/// behind, and tells which interface is in monitor mode. A failure is passed on.
pub proof fn a_start_command_starts_what_it_names(
    command: CommandView,
    builder: BuilderView,
    replies: Seq<CommandReplyView>,
)
    requires
        session_of(command) == Some(builder),
        replies.len() >= 2,
    ensures
        ({
            let p = crate::dispatch::command_program(command);
            let asked = crate::program::asked(p, replies);
            let r = crate::program::outcome(p, replies);
            match replies[0]->Name_0 {
                Err(e) => asked == seq![CommandOpView::Start(builder)] && r == Some(
                    Err::<(), CliErrorView>(CliErrorView::Rfmon(e)),
                ),
                Ok(iface) => {
                    &&& asked == seq![
                        CommandOpView::Start(builder),
                        CommandOpView::Log(EventView::Monitor { iface }),
                    ]
                    &&& r matches Some(x) && x is Ok
                },
            }
        }),
{
    let p = crate::dispatch::command_program(command);
    crate::program::one_reply(p->Ask_0, p->Ask_1, replies);
    let rest = replies.drop_first();
    match replies[0]->Name_0 {
        Err(e) => {
            assert((p->Ask_1)(replies[0]) is Return);
            assert(crate::program::asked(p, replies) =~= seq![CommandOpView::Start(builder)]);
        },
        Ok(iface) => {
            let event = EventView::Monitor { iface };
            assert((p->Ask_1)(replies[0]) == crate::dispatch::logs(seq![event], 2));
            telling_ends_it(seq![event], rest);
            assert(crate::program::asked(p, replies) =~= seq![
                CommandOpView::Start(builder),
                CommandOpView::Log(event),
            ]);
        },
    }
}

/// Events are told in order; with no service left to restart, that is all.
proof fn telling_ends_it(events: Seq<EventView>, replies: Seq<CommandReplyView>)
    requires
        replies.len() >= events.len(),
    ensures
        ({
            let p = crate::dispatch::logs(events, 2);
            let asked = crate::program::asked(p, replies);
            &&& asked.len() == events.len()
            &&& forall|k: int|
                0 <= k < events.len() ==> #[trigger] asked[k] == CommandOpView::Log(events[k])
            &&& crate::program::outcome(p, replies) == Some(Ok::<(), CliErrorView>(()))
        }),
    decreases events.len(),
{
    let p = crate::dispatch::logs(events, 2);
    if events.len() > 0 {
        crate::program::one_reply(p->Ask_0, p->Ask_1, replies);
        let fewer = events.drop_first();
        let rest = replies.drop_first();
        assert((p->Ask_1)(replies[0]) == crate::dispatch::logs(fewer, 2));
        telling_ends_it(fewer, rest);
        let asked = crate::program::asked(p, replies);
        let later = crate::program::asked(crate::dispatch::logs(fewer, 2), rest);
        assert forall|k: int| 0 <= k < events.len() implies #[trigger] asked[k]
            == CommandOpView::Log(events[k]) by {
            if k > 0 {
                assert(asked[k] == later[k - 1]);
                assert(later[k - 1] == CommandOpView::Log(fewer[k - 1]));
            }
        }
    } else {
        assert(p == crate::dispatch::services_from(2));
    }
}

/// The command that stops one interface stops that one, and tells which it was. A failure
/// is passed on.
pub proof fn a_stop_command_stops_what_it_names(iface: Seq<char>, replies: Seq<CommandReplyView>)
    requires
        replies.len() >= 2,
    ensures
        ({
            let p = crate::dispatch::command_program(CommandView::Stop { iface });
            let asked = crate::program::asked(p, replies);
            let r = crate::program::outcome(p, replies);
            match replies[0]->Name_0 {
                Err(e) => asked == seq![CommandOpView::Stop { iface }] && r == Some(
                    Err::<(), CliErrorView>(CliErrorView::Rfmon(e)),
                ),
                Ok(name) => {
                    &&& asked == seq![
                        CommandOpView::Stop { iface },
                        CommandOpView::Log(EventView::Managed { iface: name }),
                    ]
                    &&& r matches Some(x) && x is Ok
                },
            }
        }),
{
    let p = crate::dispatch::command_program(CommandView::Stop { iface });
    crate::program::one_reply(p->Ask_0, p->Ask_1, replies);
    let rest = replies.drop_first();
    match replies[0]->Name_0 {
        Err(e) => {
            assert((p->Ask_1)(replies[0]) is Return);
            assert(crate::program::asked(p, replies) =~= seq![CommandOpView::Stop { iface }]);
        },
        Ok(name) => {
            let event = EventView::Managed { iface: name };
            assert((p->Ask_1)(replies[0]) == crate::dispatch::logs(seq![event], 2));
            telling_ends_it(seq![event], rest);
            assert(crate::program::asked(p, replies) =~= seq![
                CommandOpView::Stop { iface },
                CommandOpView::Log(event),
            ]);
        },
    }
}

/// The command that stops everything sweeps, tells of each interface that was restored,
/// or that there was none, and restarts nothing. A failure is passed on.
pub proof fn a_sweep_command_tells_what_was_restored(replies: Seq<CommandReplyView>)
    requires
        replies.len() > 0,
        replies[0]->Names_0 matches Ok(names) ==> replies.len() > names.len() + 1,
    ensures
        ({
            let p = crate::dispatch::command_program(CommandView::StopAll);
            let asked = crate::program::asked(p, replies);
            let r = crate::program::outcome(p, replies);
            &&& asked.len() > 0 && asked[0] == CommandOpView::StopAll
            &&& match replies[0]->Names_0 {
                Err(e) => asked.len() == 1 && r == Some(
                    Err::<(), CliErrorView>(CliErrorView::Rfmon(e)),
                ),
                Ok(names) => {
                    &&& r matches Some(x) && x is Ok
                    &&& names.len() == 0 ==> asked == seq![
                        CommandOpView::StopAll,
                        CommandOpView::Log(EventView::NoneInMonitor),
                    ]
                    &&& names.len() > 0 ==> {
                        &&& asked.len() == 1 + names.len()
                        &&& forall|k: int|
                            0 <= k < names.len() ==> #[trigger] asked[1 + k] == CommandOpView::Log(
                                EventView::Managed { iface: names[k] },
                            )
                    }
                },
            }
        }),
{
    let p = crate::dispatch::command_program(CommandView::StopAll);
    crate::program::one_reply(p->Ask_0, p->Ask_1, replies);
    let rest = replies.drop_first();
    let asked = crate::program::asked(p, replies);
    match replies[0]->Names_0 {
        Err(e) => {
            assert((p->Ask_1)(replies[0]) is Return);
        },
        Ok(names) => {
            let events = crate::dispatch::sweep_events(names);
            let q = crate::dispatch::logs(events, 2);
            assert((p->Ask_1)(replies[0]) == q);
            telling_ends_it(events, rest);
            let told = crate::program::asked(q, rest);
            if names.len() == 0 {
                assert(asked =~= seq![
                    CommandOpView::StopAll,
                    CommandOpView::Log(EventView::NoneInMonitor),
                ]);
            } else {
                assert forall|k: int| 0 <= k < names.len() implies #[trigger] asked[1 + k]
                    == CommandOpView::Log(EventView::Managed { iface: names[k] }) by {
                    assert(asked[1 + k] == told[k]);
                    assert(told[k] == CommandOpView::Log(events[k]));
                }
            }
        },
    }
}

/// The command that lists enumerates and prints the report on what was found; the one
/// that helps prints the usage, and does nothing else.
pub proof fn listing_and_helping_only_print(replies: Seq<CommandReplyView>)
    requires
        replies.len() >= 2,
    ensures
        ({
            let list = crate::dispatch::command_program(CommandView::List);
            let help = crate::dispatch::command_program(CommandView::Help);
            &&& crate::program::asked(help, replies) == seq![
                CommandOpView::Print { lines: seq![crate::cli::USAGE@] },
            ]
            &&& crate::program::outcome(help, replies) matches Some(x) && x is Ok
            &&& match replies[0]->Interfaces_0 {
                Err(e) => {
                    &&& crate::program::asked(list, replies) == seq![CommandOpView::Detect]
                    &&& crate::program::outcome(list, replies) == Some(
                        Err::<(), CliErrorView>(CliErrorView::Rfmon(e)),
                    )
                },
                Ok(interfaces) => {
                    &&& crate::program::asked(list, replies) == seq![
                        CommandOpView::Detect,
                        CommandOpView::Print { lines: crate::cli::report(interfaces) },
                    ]
                    &&& crate::program::outcome(list, replies) matches Some(x) && x is Ok
                },
            }
        }),
{
    let list = crate::dispatch::command_program(CommandView::List);
    let help = crate::dispatch::command_program(CommandView::Help);
    crate::program::one_reply(help->Ask_0, help->Ask_1, replies);
    assert((help->Ask_1)(replies[0]) is Return);
    assert(crate::program::asked(help, replies) =~= seq![
        CommandOpView::Print { lines: seq![crate::cli::USAGE@] },
    ]);
    crate::program::one_reply(list->Ask_0, list->Ask_1, replies);
    let rest = replies.drop_first();
    match replies[0]->Interfaces_0 {
        Err(e) => {
            assert((list->Ask_1)(replies[0]) is Return);
            assert(crate::program::asked(list, replies) =~= seq![CommandOpView::Detect]);
        },
        Ok(interfaces) => {
            let q = crate::dispatch::print(crate::cli::report(interfaces));
            assert((list->Ask_1)(replies[0]) == q);
            crate::program::one_reply(q->Ask_0, q->Ask_1, rest);
            assert((q->Ask_1)(rest[0]) is Return);
            assert(crate::program::asked(list, replies) =~= seq![
                CommandOpView::Detect,
                CommandOpView::Print { lines: crate::cli::report(interfaces) },
            ]);
        },
    }
}

/// What is run is the command that was typed; what is no command is reported as a mistake
/// in usage, and nothing is done.
pub proof fn what_was_typed_is_run(args: Seq<Seq<char>>, replies: Seq<CommandReplyView>)
    ensures
        ({
            let p = crate::dispatch::run_program(args);
            match crate::cli::parsed(args) {
                Ok(command) => {
                    let q = crate::dispatch::command_program(command);
                    &&& crate::program::asked(p, replies) == crate::program::asked(q, replies)
                    &&& crate::program::outcome(p, replies) == crate::program::outcome(q, replies)
                },
                Err(message) => {
                    &&& crate::program::asked(p, replies).len() == 0
                    &&& crate::program::outcome(p, replies) == Some(
                        Err::<(), CliErrorView>(CliErrorView::Usage(message)),
                    )
                },
            }
        }),
{
}

/// The services that a reset restarts, in order.
pub open spec fn service(k: int) -> Seq<char> {
    if k == 0 {
        "wpa_supplicant"@
    } else {
        "NetworkManager"@
    }
}

/// The run of `systemctl` with these arguments, by the path where it was found.
pub open spec fn systemctl_run(
    found: bool,
    args: Seq<Seq<char>>,
    quiet: bool,
) -> CommandOpView {
    CommandOpView::Systemctl {
        program: if found {
            "/usr/bin/systemctl"@
        } else {
            "/bin/systemctl"@
        },
        args,
        quiet,
    }
}

/// Each of the two services is looked for and, where its unit exists, restarted; either
/// way the operator is told what became of it, and then the next one is tried. After the
/// second, it is a success.
pub proof fn a_service_that_exists_is_restarted(k: nat, replies: Seq<CommandReplyView>)
    requires
        k < 2,
        replies.len() >= 5,
    ensures
        ({
            let p = crate::dispatch::services_from(k);
            let asked = crate::program::asked(p, replies);
            let name = service(k as int);
            let probe = seq![
                CommandOpView::FindSystemctl,
                systemctl_run(
                    replies[0]->Found_0,
                    seq!["cat"@, "--no-pager"@, name + ".service"@],
                    true,
                ),
            ];
            if replies[1]->Exited_0 is Success {
                let restart = seq![
                    CommandOpView::FindSystemctl,
                    systemctl_run(replies[2]->Found_0, seq!["restart"@, name], false),
                    CommandOpView::Log(
                        match replies[3]->Exited_0 {
                            ExitView::Success => EventView::Restarted { service: name },
                            ExitView::Failure { code } => EventView::RestartFailed {
                                service: name,
                                code,
                            },
                            ExitView::NotRun { error } => EventView::NotRun {
                                service: name,
                                error,
                            },
                        },
                    ),
                ];
                &&& asked == probe + restart + crate::program::asked(
                    crate::dispatch::services_from(k + 1),
                    replies.skip(5),
                )
                &&& crate::program::outcome(p, replies) == crate::program::outcome(
                    crate::dispatch::services_from(k + 1),
                    replies.skip(5),
                )
            } else {
                &&& asked == probe + seq![
                    CommandOpView::Log(EventView::NotPresent { service: name }),
                ] + crate::program::asked(
                    crate::dispatch::services_from(k + 1),
                    replies.skip(3),
                )
                &&& crate::program::outcome(p, replies) == crate::program::outcome(
                    crate::dispatch::services_from(k + 1),
                    replies.skip(3),
                )
            }
        }),
        crate::dispatch::services_from(2) == crate::dispatch::CommandProgram::Return(Ok(())),
{
    let p = crate::dispatch::services_from(k);
    let name = service(k as int);
    assert(crate::cli::SERVICES@[k as int]@ == name);
    let q = crate::dispatch::probe(k, replies[0]->Found_0);
    let one = replies.drop_first();
    let two = one.drop_first();
    crate::program::one_reply(p->Ask_0, p->Ask_1, replies);
    assert((p->Ask_1)(replies[0]) == q);
    crate::program::one_reply(q->Ask_0, q->Ask_1, one);
    assert(one[0] == replies[1]);
    let asked = crate::program::asked(p, replies);
    let next = crate::dispatch::services_from(k + 1);
    let probe = seq![
        CommandOpView::FindSystemctl,
        systemctl_run(
            replies[0]->Found_0,
            seq!["cat"@, "--no-pager"@, name + ".service"@],
            true,
        ),
    ];
    if replies[1]->Exited_0 is Success {
        let again = crate::dispatch::find_again(k);
        assert((q->Ask_1)(one[0]) == again);
        crate::program::one_reply(again->Ask_0, again->Ask_1, two);
        assert(two[0] == replies[2]);
        let three = two.drop_first();
        let s = crate::dispatch::restart(k, replies[2]->Found_0);
        assert((again->Ask_1)(two[0]) == s);
        crate::program::one_reply(s->Ask_0, s->Ask_1, three);
        assert(three[0] == replies[3]);
        let four = three.drop_first();
        let told = seq![crate::dispatch::restart_event(name, replies[3]->Exited_0)];
        let l = crate::dispatch::logs(told, k + 1);
        assert((s->Ask_1)(three[0]) == l);
        crate::program::one_reply(l->Ask_0, l->Ask_1, four);
        assert((l->Ask_1)(four[0]) == crate::dispatch::logs(told.drop_first(), k + 1));
        assert(told.drop_first() =~= Seq::empty());
        assert(crate::dispatch::logs(told.drop_first(), k + 1) == next);
        assert(four.drop_first() =~= replies.skip(5));
        let restart = seq![again->Ask_0, s->Ask_0, l->Ask_0];
        assert(asked =~= probe + restart + crate::program::asked(next, replies.skip(5)));
    } else {
        let told = seq![EventView::NotPresent { service: name }];
        let l = crate::dispatch::logs(told, k + 1);
        assert((q->Ask_1)(one[0]) == l);
        crate::program::one_reply(l->Ask_0, l->Ask_1, two);
        assert((l->Ask_1)(two[0]) == crate::dispatch::logs(told.drop_first(), k + 1));
        assert(told.drop_first() =~= Seq::empty());
        assert(crate::dispatch::logs(told.drop_first(), k + 1) == next);
        assert(two.drop_first() =~= replies.skip(3));
        assert(asked =~= probe + seq![l->Ask_0] + crate::program::asked(next, replies.skip(3)));
    }
}

/// A reset sweeps first, tells what was restored as the sweep does, and then restarts the
/// services from the first on.
pub proof fn a_reset_restarts_the_services(
    names: Seq<Seq<char>>,
    replies: Seq<CommandReplyView>,
)
    requires
        replies.len() > names.len() + 1,
        replies[0]->Names_0 == Ok::<Seq<Seq<char>>, ErrorView>(names),
    ensures
        ({
            let p = crate::dispatch::command_program(CommandView::Reset);
            let sweep = crate::dispatch::command_program(CommandView::StopAll);
            let n: int = if names.len() == 0 {
                2
            } else {
                1 + names.len() as int
            };
            &&& crate::program::asked(p, replies) == crate::program::asked(sweep, replies)
                + crate::program::asked(crate::dispatch::services_from(0), replies.skip(n))
            &&& crate::program::outcome(p, replies) == crate::program::outcome(
                crate::dispatch::services_from(0),
                replies.skip(n),
            )
        }),
{
    let p = crate::dispatch::command_program(CommandView::Reset);
    let sweep = crate::dispatch::command_program(CommandView::StopAll);
    crate::program::one_reply(p->Ask_0, p->Ask_1, replies);
    crate::program::one_reply(sweep->Ask_0, sweep->Ask_1, replies);
    let rest = replies.drop_first();
    let events = crate::dispatch::sweep_events(names);
    assert((p->Ask_1)(replies[0]) == crate::dispatch::logs(events, 0));
    assert((sweep->Ask_1)(replies[0]) == crate::dispatch::logs(events, 2));
    telling_comes_first(events, 0, rest);
    telling_ends_it(events, rest);
    let n: int = 1 + events.len() as int;
    assert(rest.skip(events.len() as int) =~= replies.skip(n));
    assert(crate::program::asked(p, replies) =~= crate::program::asked(sweep, replies)
        + crate::program::asked(crate::dispatch::services_from(0), replies.skip(n)));
}

proof fn telling_comes_first(events: Seq<EventView>, k: nat, replies: Seq<CommandReplyView>)
    requires
        replies.len() >= events.len(),
    ensures
        ({
            let p = crate::dispatch::logs(events, k);
            let next = crate::dispatch::services_from(k);
            let rest = replies.skip(events.len() as int);
            &&& crate::program::asked(p, replies) == crate::program::asked(
                crate::dispatch::logs(events, 2),
                replies,
            ) + crate::program::asked(next, rest)
            &&& crate::program::outcome(p, replies) == crate::program::outcome(next, rest)
        }),
    decreases events.len(),
{
    let p = crate::dispatch::logs(events, k);
    let only = crate::dispatch::logs(events, 2);
    let next = crate::dispatch::services_from(k);
    if events.len() > 0 {
        crate::program::one_reply(p->Ask_0, p->Ask_1, replies);
        crate::program::one_reply(only->Ask_0, only->Ask_1, replies);
        let fewer = events.drop_first();
        let later = replies.drop_first();
        assert((p->Ask_1)(replies[0]) == crate::dispatch::logs(fewer, k));
        assert((only->Ask_1)(replies[0]) == crate::dispatch::logs(fewer, 2));
        telling_comes_first(fewer, k, later);
        assert(later.skip(fewer.len() as int) =~= replies.skip(events.len() as int));
        assert(crate::program::asked(p, replies) =~= crate::program::asked(only, replies)
            + crate::program::asked(next, replies.skip(events.len() as int)));
    } else {
        assert(p == next);
        assert(only == crate::dispatch::services_from(2));
        assert(replies.skip(0) =~= replies);
        assert(crate::program::asked(p, replies) =~= crate::program::asked(only, replies)
            + crate::program::asked(next, replies));
    }
}

} // verus!
