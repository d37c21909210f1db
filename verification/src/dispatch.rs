//! Carrying out a command: what each one does, in which order, and what the
//! operator is told.

use vstd::prelude::*;

use crate::cli::{
    list_report, parse_command, probe_args, restart_args, systemctl, CliError, CliErrorView,
    Command, CommandView, SERVICES, USAGE,
};
use crate::errors::{Error, ErrorView};
use crate::interface::{InterfaceView, WirelessInterface};
use crate::monitor::{
    start_monitor, start_monitor_as, start_monitor_on, BuilderView, MonitorBuilder, StartTargetView,
};
use crate::program::{Program, Progress};

verus! {

/// Something the operator is told through the log.
#[derive(Debug, PartialEq, Eq)]
pub enum Event {
    /// An interface was left in monitor mode.
    Monitor {
        /// The interface.
        iface: String,
    },
    /// An interface was restored to managed mode.
    Managed {
        /// The interface.
        iface: String,
    },
    /// There was no interface in monitor mode.
    NoneInMonitor,
    /// A service does not exist on this host.
    NotPresent {
        /// The service.
        service: &'static str,
    },
    /// A service was restarted.
    Restarted {
        /// The service.
        service: &'static str,
    },
    /// The restart of a service failed.
    RestartFailed {
        /// The service.
        service: &'static str,
        /// The exit code, unless a signal ended it.
        code: Option<i32>,
    },
    /// `systemctl` could not be run.
    NotRun {
        /// The service.
        service: &'static str,
        /// The text of the error.
        error: String,
    },
}

/// The contents of an [`Event`].
pub enum EventView {
    /// An interface was left in monitor mode.
    Monitor { iface: Seq<char> },
    /// An interface was restored to managed mode.
    Managed { iface: Seq<char> },
    /// There was no interface in monitor mode.
    NoneInMonitor,
    /// A service does not exist on this host.
    NotPresent { service: Seq<char> },
    /// A service was restarted.
    Restarted { service: Seq<char> },
    /// The restart of a service failed.
    RestartFailed { service: Seq<char>, code: Option<i32> },
    /// `systemctl` could not be run.
    NotRun { service: Seq<char>, error: Seq<char> },
}

impl View for Event {
    type V = EventView;

    open spec fn view(&self) -> EventView {
        match self {
            Event::Monitor { iface } => EventView::Monitor { iface: iface@ },
            Event::Managed { iface } => EventView::Managed { iface: iface@ },
            Event::NoneInMonitor => EventView::NoneInMonitor,
            Event::NotPresent { service } => EventView::NotPresent { service: service@ },
            Event::Restarted { service } => EventView::Restarted { service: service@ },
            Event::RestartFailed { service, code } => EventView::RestartFailed {
                service: service@,
                code: *code,
            },
            Event::NotRun { service, error } => EventView::NotRun {
                service: service@,
                error: error@,
            },
        }
    }
}

impl Clone for Event {
    fn clone(&self) -> (e: Event)
        ensures
            e@ == self@,
    {
        match self {
            Event::Monitor { iface } => Event::Monitor { iface: iface.clone() },
            Event::Managed { iface } => Event::Managed { iface: iface.clone() },
            Event::NoneInMonitor => Event::NoneInMonitor,
            Event::NotPresent { service } => Event::NotPresent { service: *service },
            Event::Restarted { service } => Event::Restarted { service: *service },
            Event::RestartFailed { service, code } => Event::RestartFailed {
                service: *service,
                code: *code,
            },
            Event::NotRun { service, error } => Event::NotRun {
                service: *service,
                error: error.clone(),
            },
        }
    }
}

/// The contents of a list of events.
pub open spec fn event_views(events: Seq<Event>) -> Seq<EventView> {
    events.map_values(|e: Event| e@)
}

/// One step of a command.
#[derive(Debug)]
pub enum CommandOp {
    /// Start a session and leave it behind.
    Start(MonitorBuilder),
    /// Restore one interface.
    Stop {
        /// The interface.
        iface: String,
    },
    /// Restore every interface in monitor mode.
    StopAll,
    /// Enumerate the interfaces.
    Detect,
    /// See whether `systemctl` is at its canonical place.
    FindSystemctl,
    /// Run `systemctl`.
    Systemctl {
        /// Its path.
        program: &'static str,
        /// Its arguments.
        args: Vec<String>,
        /// Whether its output is discarded.
        quiet: bool,
    },
    /// Print to standard output.
    Print {
        /// The lines.
        lines: Vec<String>,
    },
    /// Tell the operator through the log.
    Log(Event),
}

/// How a run of `systemctl` ended.
#[derive(Debug)]
pub enum Exit {
    /// With success.
    Success,
    /// With failure.
    Failure {
        /// The exit code, unless a signal ended it.
        code: Option<i32>,
    },
    /// It could not be run.
    NotRun {
        /// The text of the error.
        error: String,
    },
}

/// The outcome of a [`CommandOp`].
#[derive(Debug)]
pub enum CommandReply {
    /// The name of the interface.
    Name(Result<String, Error>),
    /// The names of the restored interfaces.
    Names(Result<Vec<String>, Error>),
    /// The interfaces.
    Interfaces(Result<Vec<WirelessInterface>, Error>),
    /// Whether it is there.
    Found(bool),
    /// How the run ended.
    Exited(Exit),
    /// It was done.
    Done,
}

/// The contents of a [`CommandOp`].
pub enum CommandOpView {
    /// Start a session and leave it behind.
    Start(BuilderView),
    /// Restore one interface.
    Stop { iface: Seq<char> },
    /// Restore every interface in monitor mode.
    StopAll,
    /// Enumerate the interfaces.
    Detect,
    /// See whether `systemctl` is at its canonical place.
    FindSystemctl,
    /// Run `systemctl`.
    Systemctl { program: Seq<char>, args: Seq<Seq<char>>, quiet: bool },
    /// Print to standard output.
    Print { lines: Seq<Seq<char>> },
    /// Tell the operator through the log.
    Log(EventView),
}

/// The contents of an [`Exit`].
pub enum ExitView {
    /// With success.
    Success,
    /// With failure.
    Failure { code: Option<i32> },
    /// It could not be run.
    NotRun { error: Seq<char> },
}

/// The contents of a [`CommandReply`].
pub enum CommandReplyView {
    /// The name of the interface.
    Name(Result<Seq<char>, ErrorView>),
    /// The names of the restored interfaces.
    Names(Result<Seq<Seq<char>>, ErrorView>),
    /// The interfaces.
    Interfaces(Result<Seq<InterfaceView>, ErrorView>),
    /// Whether it is there.
    Found(bool),
    /// How the run ended.
    Exited(ExitView),
    /// It was done.
    Done,
}

impl View for CommandOp {
    type V = CommandOpView;

    open spec fn view(&self) -> CommandOpView {
        match self {
            CommandOp::Start(builder) => CommandOpView::Start(builder@),
            CommandOp::Stop { iface } => CommandOpView::Stop { iface: iface@ },
            CommandOp::StopAll => CommandOpView::StopAll,
            CommandOp::Detect => CommandOpView::Detect,
            CommandOp::FindSystemctl => CommandOpView::FindSystemctl,
            CommandOp::Systemctl { program, args, quiet } => CommandOpView::Systemctl {
                program: program@,
                args: crate::text::texts(args@),
                quiet: *quiet,
            },
            CommandOp::Print { lines } => CommandOpView::Print {
                lines: crate::text::texts(lines@),
            },
            CommandOp::Log(event) => CommandOpView::Log(event@),
        }
    }
}

impl View for Exit {
    type V = ExitView;

    open spec fn view(&self) -> ExitView {
        match self {
            Exit::Success => ExitView::Success,
            Exit::Failure { code } => ExitView::Failure { code: *code },
            Exit::NotRun { error } => ExitView::NotRun { error: error@ },
        }
    }
}

impl View for CommandReply {
    type V = CommandReplyView;

    open spec fn view(&self) -> CommandReplyView {
        match self {
            CommandReply::Name(r) => CommandReplyView::Name(
                match r {
                    Ok(name) => Ok(name@),
                    Err(e) => Err(e@),
                },
            ),
            CommandReply::Names(r) => CommandReplyView::Names(
                match r {
                    Ok(names) => Ok(crate::text::texts(names@)),
                    Err(e) => Err(e@),
                },
            ),
            CommandReply::Interfaces(r) => CommandReplyView::Interfaces(
                crate::select::interfaces_result(*r),
            ),
            CommandReply::Found(found) => CommandReplyView::Found(*found),
            CommandReply::Exited(exit) => CommandReplyView::Exited(exit@),
            CommandReply::Done => CommandReplyView::Done,
        }
    }
}

impl CommandOpView {
    /// Whether a reply is of the kind that this step has.
    pub open spec fn answered_by(self, reply: CommandReplyView) -> bool {
        match self {
            CommandOpView::Start(_) | CommandOpView::Stop { .. } => reply is Name,
            CommandOpView::StopAll => reply is Names,
            CommandOpView::Detect => reply is Interfaces,
            CommandOpView::FindSystemctl => reply is Found,
            CommandOpView::Systemctl { .. } => reply is Exited,
            CommandOpView::Print { .. } | CommandOpView::Log(_) => reply is Done,
        }
    }
}

impl CommandOp {
    /// Whether a reply is of the kind that this step has.
    pub fn is_answered_by(&self, reply: &CommandReply) -> (r: bool)
        ensures
            r == self@.answered_by(reply@),
    {
        match (self, reply) {
            (CommandOp::Start(_), CommandReply::Name(_)) => true,
            (CommandOp::Stop { .. }, CommandReply::Name(_)) => true,
            (CommandOp::StopAll, CommandReply::Names(_)) => true,
            (CommandOp::Detect, CommandReply::Interfaces(_)) => true,
            (CommandOp::FindSystemctl, CommandReply::Found(_)) => true,
            (CommandOp::Systemctl { .. }, CommandReply::Exited(_)) => true,
            (CommandOp::Print { .. }, CommandReply::Done) => true,
            (CommandOp::Log(_), CommandReply::Done) => true,
            _ => false,
        }
    }
}

/// A conversation in which a command is carried out.
pub type CommandProgram = Program<CommandOpView, CommandReplyView, Result<(), CliErrorView>>;

/// The end of a command that an error of the library stopped.
pub open spec fn stopped_by(e: ErrorView) -> CommandProgram {
    Program::Return(Err(CliErrorView::Rfmon(e)))
}

/// The path `systemctl` is run by.
pub open spec fn systemctl_path(canonical_exists: bool) -> Seq<char> {
    if canonical_exists {
        "/usr/bin/systemctl"@
    } else {
        "/bin/systemctl"@
    }
}

/// The arguments that ask whether the exact unit of a service exists.
pub open spec fn probing(service: Seq<char>) -> Seq<Seq<char>> {
    seq!["cat"@, "--no-pager"@, service + ".service"@]
}

/// The arguments that restart a service.
pub open spec fn restarting(service: Seq<char>) -> Seq<Seq<char>> {
    seq!["restart"@, service]
}

/// What the operator is told of a restart.
pub open spec fn restart_event(service: Seq<char>, exit: ExitView) -> EventView {
    match exit {
        ExitView::Success => EventView::Restarted { service },
        ExitView::Failure { code } => EventView::RestartFailed { service, code },
        ExitView::NotRun { error } => EventView::NotRun { service, error },
    }
}

/// Log the events in order, then restart the services from the `k`-th on.
pub open spec fn logs(events: Seq<EventView>, k: nat) -> CommandProgram
    decreases 2 - k, 5 + events.len(),
{
    if events.len() == 0 {
        services_from(k)
    } else {
        Program::Ask(
            CommandOpView::Log(events[0]),
            |r: CommandReplyView| logs(events.drop_first(), k),
        )
    }
}

/// Restart the services from the `k`-th on, each if it exists on this host. What
/// becomes of one does not keep the next from being tried.
pub open spec fn services_from(k: nat) -> CommandProgram
    decreases 2 - k, 4nat,
{
    if k >= 2 {
        Program::Return(Ok(()))
    } else {
        Program::Ask(
            CommandOpView::FindSystemctl,
            |r: CommandReplyView| probe(k, r->Found_0),
        )
    }
}

/// Ask whether the `k`-th service exists.
pub open spec fn probe(k: nat, found: bool) -> CommandProgram
    decreases 2 - k, 3nat,
{
    if k >= 2 {
        Program::Return(Ok(()))
    } else {
        Program::Ask(
            CommandOpView::Systemctl {
                program: systemctl_path(found),
                args: probing(SERVICES@[k as int]@),
                quiet: true,
            },
            |r: CommandReplyView|
                if r->Exited_0 is Success {
                    find_again(k)
                } else {
                    logs(seq![EventView::NotPresent { service: SERVICES@[k as int]@ }], k + 1)
                },
        )
    }
}

/// Look for `systemctl` again before the restart.
pub open spec fn find_again(k: nat) -> CommandProgram
    decreases 2 - k, 2nat,
{
    Program::Ask(CommandOpView::FindSystemctl, |r: CommandReplyView| restart(k, r->Found_0))
}

/// Restart the `k`-th service.
pub open spec fn restart(k: nat, found: bool) -> CommandProgram
    decreases 2 - k, 1nat,
{
    if k >= 2 {
        Program::Return(Ok(()))
    } else {
        Program::Ask(
            CommandOpView::Systemctl {
                program: systemctl_path(found),
                args: restarting(SERVICES@[k as int]@),
                quiet: false,
            },
            |r: CommandReplyView|
                logs(seq![restart_event(SERVICES@[k as int]@, r->Exited_0)], k + 1),
        )
    }
}

/// Start a session and leave it behind.
pub open spec fn start_and_leave(builder: BuilderView) -> CommandProgram {
    Program::Ask(
        CommandOpView::Start(builder),
        |r: CommandReplyView|
            match r->Name_0 {
                Ok(iface) => logs(seq![EventView::Monitor { iface }], 2),
                Err(e) => stopped_by(e),
            },
    )
}

/// What the operator is told of a sweep.
pub open spec fn sweep_events(names: Seq<Seq<char>>) -> Seq<EventView> {
    if names.len() == 0 {
        seq![EventView::NoneInMonitor]
    } else {
        names.map_values(|iface: Seq<char>| EventView::Managed { iface })
    }
}

/// Restore every interface in monitor mode, then restart the services from the
/// `k`-th on.
pub open spec fn sweep(k: nat) -> CommandProgram {
    Program::Ask(
        CommandOpView::StopAll,
        |r: CommandReplyView|
            match r->Names_0 {
                Ok(names) => logs(sweep_events(names), k),
                Err(e) => stopped_by(e),
            },
    )
}

/// Print, and be done.
pub open spec fn print(lines: Seq<Seq<char>>) -> CommandProgram {
    Program::Ask(
        CommandOpView::Print { lines },
        |r: CommandReplyView| Program::Return(Ok(())),
    )
}

/// Carrying out a command.
pub open spec fn command_program(command: CommandView) -> CommandProgram {
    match command {
        CommandView::Start => start_and_leave(crate::monitor::plain(StartTargetView::Auto)),
        CommandView::StartOn { iface } => start_and_leave(
            crate::monitor::plain(StartTargetView::Named(iface)),
        ),
        CommandView::StartAs { iface, new_name } => start_and_leave(
            crate::monitor::plain(StartTargetView::Renamed { name: iface, new_name }),
        ),
        CommandView::Stop { iface } => Program::Ask(
            CommandOpView::Stop { iface },
            |r: CommandReplyView|
                match r->Name_0 {
                    Ok(iface) => logs(seq![EventView::Managed { iface }], 2),
                    Err(e) => stopped_by(e),
                },
        ),
        CommandView::StopAll => sweep(2),
        CommandView::Reset => sweep(0),
        CommandView::List => Program::Ask(
            CommandOpView::Detect,
            |r: CommandReplyView|
                match r->Interfaces_0 {
                    Ok(interfaces) => print(crate::cli::report(interfaces)),
                    Err(e) => stopped_by(e),
                },
        ),
        CommandView::Help => print(seq![USAGE@]),
    }
}

/// Carrying out what the arguments ask for.
pub open spec fn run_program(args: Seq<Seq<char>>) -> CommandProgram {
    match crate::cli::parsed(args) {
        Ok(command) => command_program(command),
        Err(message) => Program::Return(Err(CliErrorView::Usage(message))),
    }
}

/// How far a command has come.
#[derive(Debug)]
enum RunStage {
    Asking(Command),
    Printing(Vec<String>),
    // Then the services from `next` on.
    Logging { first: Event, rest: Vec<Event>, next: usize },
    Finding { service: usize },
    Probing { service: usize, found: bool },
    FindingAgain { service: usize },
    Restarting { service: usize, found: bool },
}

/// The conversation that carries out a command.
#[derive(Debug)]
pub struct Run {
    stage: RunStage,
}

/// The contents of the outcome of a command.
pub open spec fn cli_result(r: Result<(), CliError>) -> Result<(), CliErrorView> {
    match r {
        Ok(u) => Ok(u),
        Err(e) => Err(e@),
    }
}

/// The events of a sweep.
fn sweep_log(names: Vec<String>) -> (r: Vec<Event>)
    ensures
        event_views(r@) == sweep_events(crate::text::texts(names@)),
{
    let ghost all = crate::text::texts(names@).map_values(
        |iface: Seq<char>| EventView::Managed { iface },
    );
    let mut events: Vec<Event> = Vec::new();
    if names.len() == 0 {
        events.push(Event::NoneInMonitor);
        assert(event_views(events@) =~= seq![EventView::NoneInMonitor]);
        return events;
    }
    assert(event_views(events@) =~= all.take(0));
    for iface in it: names
        invariant
            it.seq() == names@,
            all == crate::text::texts(names@).map_values(
                |iface: Seq<char>| EventView::Managed { iface },
            ),
            event_views(events@) == all.take(it.index() as int),
    {
        let ghost before = events@;
        let ghost n = it.index() as int;
        events.push(Event::Managed { iface });
        assert(event_views(events@) =~= event_views(before).push(all[n]));
        assert(all.take(n + 1) =~= all.take(n).push(all[n]));
    }
    assert(all.take(all.len() as int) =~= all);
    events
}

impl Run {
    /// Whatever is done about a service is done about one there is.
    #[verifier::type_invariant]
    spec fn speaks_of_a_service(self) -> bool {
        match self.stage {
            RunStage::Finding { service } => service < 2,
            RunStage::Probing { service, found } => service < 2,
            RunStage::FindingAgain { service } => service < 2,
            RunStage::Restarting { service, found } => service < 2,
            _ => true,
        }
    }

    /// What remains of the conversation.
    pub closed spec fn program(self) -> CommandProgram {
        match self.stage {
            RunStage::Asking(command) => command_program(command@),
            RunStage::Printing(lines) => print(crate::text::texts(lines@)),
            RunStage::Logging { first, rest, next } => logs(
                seq![first@] + event_views(rest@),
                next as nat,
            ),
            RunStage::Finding { service } => services_from(service as nat),
            RunStage::Probing { service, found } => probe(service as nat, found),
            RunStage::FindingAgain { service } => find_again(service as nat),
            RunStage::Restarting { service, found } => restart(service as nat, found),
        }
    }

    /// What remains after a step.
    pub open spec fn remaining(p: Progress<Run, Result<(), CliError>>) -> CommandProgram {
        match p {
            Progress::Pending(m) => m.program(),
            Progress::Finished(r) => Program::Return(cli_result(r)),
        }
    }

    /// Start carrying out what the arguments ask for.
    pub fn start(args: &Vec<String>) -> (p: Progress<Run, Result<(), CliError>>)
        ensures
            Self::remaining(p) == run_program(crate::text::texts(args@)),
    {
        match parse_command(args) {
            Ok(command) => Progress::Pending(Run { stage: RunStage::Asking(command) }),
            Err(e) => Progress::Finished(Err(e)),
        }
    }

    /// Go on with the services from `next` on.
    fn services(next: usize) -> (p: Progress<Run, Result<(), CliError>>)
        ensures
            Self::remaining(p) == services_from(next as nat),
    {
        if next < 2 {
            Progress::Pending(Run { stage: RunStage::Finding { service: next } })
        } else {
            Progress::Finished(Ok(()))
        }
    }

    /// Go on with the events, then with the services from `next` on.
    fn logging(events: Vec<Event>, next: usize) -> (p: Progress<Run, Result<(), CliError>>)
        ensures
            Self::remaining(p) == logs(event_views(events@), next as nat),
    {
        if events.len() == 0 {
            return Self::services(next);
        }
        let ghost all = event_views(events@);
        let mut rest = events;
        let first = rest.remove(0);
        assert(seq![first@] + event_views(rest@) =~= all);
        Progress::Pending(Run { stage: RunStage::Logging { first, rest, next } })
    }

    /// Go on with one event, then with the services from `next` on.
    fn log(event: Event, next: usize) -> (p: Progress<Run, Result<(), CliError>>)
        ensures
            Self::remaining(p) == logs(seq![event@], next as nat),
    {
        let events: Vec<Event> = vec![event];
        assert(event_views(events@) =~= seq![event@]);
        Self::logging(events, next)
    }

    /// The step whose outcome is awaited.
    pub fn request(&self) -> (op: CommandOp)
        ensures
            self.program() is Ask,
            op@ == self.program()->Ask_0,
    {
        proof {
            use_type_invariant(self);
        }
        match &self.stage {
            RunStage::Asking(command) => match command {
                Command::Start => CommandOp::Start(start_monitor()),
                Command::StartOn { iface } => CommandOp::Start(start_monitor_on(iface.as_str())),
                Command::StartAs { iface, new_name } => CommandOp::Start(
                    start_monitor_as(iface.as_str(), new_name.as_str()),
                ),
                Command::Stop { iface } => CommandOp::Stop { iface: iface.clone() },
                Command::StopAll => CommandOp::StopAll,
                Command::Reset => CommandOp::StopAll,
                Command::List => CommandOp::Detect,
                Command::Help => {
                    let lines: Vec<String> = vec![USAGE.to_owned()];
                    assert(crate::text::texts(lines@) =~= seq![USAGE@]);
                    CommandOp::Print { lines }
                },
            },
            RunStage::Printing(lines) => CommandOp::Print { lines: copy_texts(lines) },
            RunStage::Logging { first, rest, next } => CommandOp::Log(first.clone()),
            RunStage::Finding { service } => CommandOp::FindSystemctl,
            RunStage::Probing { service, found } => CommandOp::Systemctl {
                program: systemctl(*found),
                args: probe_args(SERVICES[*service]),
                quiet: true,
            },
            RunStage::FindingAgain { service } => CommandOp::FindSystemctl,
            RunStage::Restarting { service, found } => CommandOp::Systemctl {
                program: systemctl(*found),
                args: restart_args(SERVICES[*service]),
                quiet: false,
            },
        }
    }

    /// Go on with the outcome of the requested step.
    pub fn resume(self, reply: CommandReply) -> (p: Progress<Self, Result<(), CliError>>)
        requires
            self.program()->Ask_0.answered_by(reply@),
        ensures
            Self::remaining(p) == (self.program()->Ask_1)(reply@),
    {
        proof {
            use_type_invariant(&self);
        }
        match (self.stage, reply) {
            (RunStage::Asking(command), CommandReply::Name(named)) => match (command, named) {
                (_, Err(e)) => Progress::Finished(Err(CliError::Rfmon(e))),
                (Command::Stop { .. }, Ok(iface)) => Self::log(Event::Managed { iface }, 2),
                (_, Ok(iface)) => Self::log(Event::Monitor { iface }, 2),
            },
            (RunStage::Asking(command), CommandReply::Names(restored)) => match restored {
                Err(e) => Progress::Finished(Err(CliError::Rfmon(e))),
                Ok(names) => match command {
                    Command::Reset => Self::logging(sweep_log(names), 0),
                    _ => Self::logging(sweep_log(names), 2),
                },
            },
            (RunStage::Asking(command), CommandReply::Interfaces(detected)) => match detected {
                Err(e) => Progress::Finished(Err(CliError::Rfmon(e))),
                Ok(interfaces) => Progress::Pending(
                    Run { stage: RunStage::Printing(list_report(&interfaces)) },
                ),
            },
            (RunStage::Logging { first, rest, next }, _) => {
                let ghost all = seq![first@] + event_views(rest@);
                assert(all.drop_first() =~= event_views(rest@));
                Self::logging(rest, next)
            },
            (RunStage::Finding { service }, CommandReply::Found(found)) => Progress::Pending(
                Run { stage: RunStage::Probing { service, found } },
            ),
            (RunStage::Probing { service, found }, CommandReply::Exited(exit)) => match exit {
                Exit::Success => Progress::Pending(
                    Run { stage: RunStage::FindingAgain { service } },
                ),
                _ => Self::log(Event::NotPresent { service: SERVICES[service] }, service + 1),
            },
            (RunStage::FindingAgain { service }, CommandReply::Found(found)) => Progress::Pending(
                Run { stage: RunStage::Restarting { service, found } },
            ),
            (RunStage::Restarting { service, found }, CommandReply::Exited(exit)) => {
                let event = match exit {
                    Exit::Success => Event::Restarted { service: SERVICES[service] },
                    Exit::Failure { code } => Event::RestartFailed {
                        service: SERVICES[service],
                        code,
                    },
                    Exit::NotRun { error } => Event::NotRun { service: SERVICES[service], error },
                };
                Self::log(event, service + 1)
            },
            _ => Progress::Finished(Ok(())),
        }
    }
}

/// A copy of a list of lines.
fn copy_texts(from: &Vec<String>) -> (to: Vec<String>)
    ensures
        crate::text::texts(to@) == crate::text::texts(from@),
{
    let mut to: Vec<String> = Vec::new();
    let ghost all = crate::text::texts(from@);
    let mut i: usize = 0;
    while i < from.len()
        invariant
            i <= from.len(),
            all == crate::text::texts(from@),
            crate::text::texts(to@) == all.take(i as int),
        decreases from.len() - i,
    {
        let ghost before = to@;
        to.push(from[i].clone());
        assert(crate::text::texts(to@) =~= crate::text::texts(before).push(all[i as int]));
        assert(all.take(i + 1) =~= all.take(i as int).push(all[i as int]));
        i += 1;
    }
    assert(all.take(i as int) =~= all);
    to
}

/// Arguments that make no command are answered with what is wrong about them, and
/// nothing is done.
pub proof fn bad_arguments_touch_nothing(args: Seq<Seq<char>>, replies: Seq<CommandReplyView>)
    requires
        crate::cli::parsed(args) is Err,
    ensures
        crate::program::asked(run_program(args), replies).len() == 0,
        crate::program::outcome(run_program(args), replies) == Some(
            Err::<(), CliErrorView>(CliErrorView::Usage(crate::cli::parsed(args)->Err_0)),
        ),
{
}

/// A reset restarts nothing unless every interface was swept for: where the sweep
/// fails, that is its outcome and the last thing done.
pub proof fn a_reset_sweeps_first(replies: Seq<CommandReplyView>, e: ErrorView)
    requires
        replies.len() > 0,
        replies[0]->Names_0 == Err::<Seq<Seq<char>>, ErrorView>(e),
    ensures
        crate::program::asked(command_program(CommandView::Reset), replies) == seq![
            CommandOpView::StopAll,
        ],
        crate::program::outcome(command_program(CommandView::Reset), replies) == Some(
            Err::<(), CliErrorView>(CliErrorView::Rfmon(e)),
        ),
{
    let p = command_program(CommandView::Reset);
    crate::program::one_reply(p->Ask_0, p->Ask_1, replies);
    assert((p->Ask_1)(replies[0]) is Return);
    assert(crate::program::asked(p, replies) =~= seq![CommandOpView::StopAll]);
}

/// Whether a step is about looking for `systemctl`, running it as given for a
/// service, or telling the operator.
pub open spec fn restart_step(o: CommandOpView) -> bool {
    match o {
        CommandOpView::FindSystemctl | CommandOpView::Log(_) => true,
        CommandOpView::Systemctl { program, args, quiet } => {
            &&& exists|found: bool| program == #[trigger] systemctl_path(found)
            &&& exists|k: int|
                0 <= k < 2 && args == if quiet {
                    probing(#[trigger] SERVICES@[k]@)
                } else {
                    restarting(SERVICES@[k]@)
                }
        },
        _ => false,
    }
}

/// The steps of restarting services.
pub open spec fn of_a_restart() -> spec_fn(CommandOpView) -> bool {
    |o: CommandOpView| restart_step(o)
}

/// Restarting services, whatever becomes of each, runs nothing but `systemctl` by
/// an absolute path, on the services there are, and succeeds.
pub proof fn restarting_is_confined(k: nat, events: Seq<EventView>)
    ensures
        crate::program::asks_only(logs(events, k), of_a_restart()),
        crate::program::yields_only(logs(events, k), |r: Result<(), CliErrorView>| r is Ok),
    decreases 2 - k, events.len(),
{
    let allowed = of_a_restart();
    let fine = |r: Result<(), CliErrorView>| r is Ok;
    let p = logs(events, k);
    if events.len() > 0 {
        assert forall|r: CommandReplyView|
            crate::program::asks_only(#[trigger] (p->Ask_1)(r), allowed)
                && crate::program::yields_only((p->Ask_1)(r), fine) by {
            restarting_is_confined(k, events.drop_first());
        }
    } else if k < 2 {
        let service = SERVICES@[k as int]@;
        let again = find_again(k);
        assert forall|found: bool|
            crate::program::asks_only(#[trigger] restart(k, found), allowed)
                && crate::program::yields_only(restart(k, found), fine) by {
            let q = restart(k, found);
            assert(restart_step(q->Ask_0));
            assert forall|r: CommandReplyView|
                crate::program::asks_only(#[trigger] (q->Ask_1)(r), allowed)
                    && crate::program::yields_only((q->Ask_1)(r), fine) by {
                let told = seq![restart_event(service, r->Exited_0)];
                assert((q->Ask_1)(r) == logs(told, k + 1));
                restarting_is_confined(k + 1, told);
            }
        }
        assert forall|r: CommandReplyView|
            crate::program::asks_only(#[trigger] (again->Ask_1)(r), allowed)
                && crate::program::yields_only((again->Ask_1)(r), fine) by {
            assert((again->Ask_1)(r) == restart(k, r->Found_0));
        }
        assert forall|found: bool|
            crate::program::asks_only(#[trigger] probe(k, found), allowed)
                && crate::program::yields_only(probe(k, found), fine) by {
            let q = probe(k, found);
            assert(restart_step(q->Ask_0));
            assert forall|r: CommandReplyView|
                crate::program::asks_only(#[trigger] (q->Ask_1)(r), allowed)
                    && crate::program::yields_only((q->Ask_1)(r), fine) by {
                if r->Exited_0 is Success {
                    assert((q->Ask_1)(r) == again);
                } else {
                    let told = seq![EventView::NotPresent { service }];
                    assert((q->Ask_1)(r) == logs(told, k + 1));
                    restarting_is_confined(k + 1, told);
                }
            }
        }
        assert(p == services_from(k));
        assert forall|r: CommandReplyView|
            crate::program::asks_only(#[trigger] (p->Ask_1)(r), allowed)
                && crate::program::yields_only((p->Ask_1)(r), fine) by {
            assert((p->Ask_1)(r) == probe(k, r->Found_0));
        }
    }
}

/// A service that does not exist on this host is not restarted: the operator is
/// told, and the next one is tried.
pub proof fn an_absent_service_is_skipped(k: nat, replies: Seq<CommandReplyView>)
    requires
        k < 2,
        replies.len() >= 3,
        !(replies[1]->Exited_0 is Success),
    ensures
        crate::program::asked(services_from(k), replies) == seq![
            CommandOpView::FindSystemctl,
            CommandOpView::Systemctl {
                program: systemctl_path(replies[0]->Found_0),
                args: probing(SERVICES@[k as int]@),
                quiet: true,
            },
            CommandOpView::Log(EventView::NotPresent { service: SERVICES@[k as int]@ }),
        ] + crate::program::asked(services_from(k + 1), replies.skip(3)),
        crate::program::outcome(services_from(k), replies) == crate::program::outcome(
            services_from(k + 1),
            replies.skip(3),
        ),
{
    let p = services_from(k);
    let q = probe(k, replies[0]->Found_0);
    let told = seq![EventView::NotPresent { service: SERVICES@[k as int]@ }];
    let s = logs(told, k + 1);
    let one = replies.drop_first();
    let two = one.drop_first();
    crate::program::one_reply(p->Ask_0, p->Ask_1, replies);
    assert((p->Ask_1)(replies[0]) == q);
    crate::program::one_reply(q->Ask_0, q->Ask_1, one);
    assert(one[0] == replies[1]);
    assert((q->Ask_1)(one[0]) == s);
    crate::program::one_reply(s->Ask_0, s->Ask_1, two);
    assert((s->Ask_1)(two[0]) == logs(told.drop_first(), k + 1));
    assert(told.drop_first() =~= Seq::empty());
    assert(logs(told.drop_first(), k + 1) == services_from(k + 1));
    assert(two.drop_first() =~= replies.skip(3));
    assert(crate::program::asked(p, replies) =~= seq![p->Ask_0, q->Ask_0, s->Ask_0]
        + crate::program::asked(services_from(k + 1), replies.skip(3)));
}

} // verus!
