//! Monitor-mode sessions: what callers ask for, and the conversations with the
//! platform backend that carry it out.
//!
//!   * [`start_monitor`]: select the best capable interface and enter monitor
//!     mode.
//!   * [`start_monitor_on`]: enter monitor mode on a named interface.
//!   * [`start_monitor_as`]: enter monitor mode and rename the interface.
//!   * [`stop_monitor`], [`stop_all_monitors`]: the stateless, name-based
//!     recovery path.
//!   * [`set_channel`], [`set_channel_6g`]: tune an interface by name.
//!
//! The builders do nothing by themselves; the conversation that a builder's `run`
//! starts does.

use vstd::prelude::*;

use crate::backend::{BackendOp, BackendOpView, BackendProgram, BackendReply, BackendReplyView};
use crate::channel::{resolve_frequency, BandScope};
use crate::cleanup::{GuardView, MonitorGuard};
use crate::errors::{Error, ErrorView};
use crate::interface::{ChannelWidth, InterfaceInfo, InterfaceView, WirelessInterface};
use crate::names::{find_named, select_named, validate_iface_name};
use crate::program::{Program, Progress};
use crate::select::busy_names;
use crate::text::same_text;

verus! {

/// Which interface a pending session targets, and under what name.
#[derive(Debug)]
enum StartTarget {
    // Score every interface and take the best capture candidate.
    Auto,
    // A named interface, skipping scoring.
    Named(String),
    // A named interface, renamed to `new_name` for the life of the session.
    Renamed { name: String, new_name: String },
}

/// A pending monitor-mode session.
#[derive(Debug)]
#[must_use]
pub struct MonitorBuilder {
    target: StartTarget,
    channel: Option<(u32, BandScope)>,
    width: ChannelWidth,
}

/// How the interface a channel set targets is obtained: by enumeration, or from
/// the session that already holds it.
#[derive(Debug)]
enum Target {
    ByName(String),
    Resolved(Box<InterfaceInfo>),
}

/// A pending channel set.
#[derive(Debug)]
#[must_use]
pub struct SetChannel {
    target: Target,
    channel: u32,
    width: ChannelWidth,
    scope: BandScope,
}

/// Which interface a pending session targets.
pub enum StartTargetView {
    /// The best capture candidate.
    Auto,
    /// A named interface.
    Named(Seq<char>),
    /// A named interface, under a new name.
    Renamed { name: Seq<char>, new_name: Seq<char> },
}

/// The contents of a [`MonitorBuilder`].
pub struct BuilderView {
    /// Which interface.
    pub target: StartTargetView,
    /// The channel to park on, with the bands to search for it.
    pub channel: Option<(u32, BandScope)>,
    /// The width to park at.
    pub width: ChannelWidth,
}

/// How the interface a channel set targets is obtained.
pub enum TargetView {
    /// By enumeration.
    ByName(Seq<char>),
    /// It is at hand.
    Resolved(InterfaceView),
}

/// The contents of a [`SetChannel`].
pub struct SetChannelView {
    /// Which interface.
    pub target: TargetView,
    /// The channel number.
    pub channel: u32,
    /// The width.
    pub width: ChannelWidth,
    /// The bands to search.
    pub scope: BandScope,
}

impl View for MonitorBuilder {
    type V = BuilderView;

    closed spec fn view(&self) -> BuilderView {
        BuilderView {
            target: match self.target {
                StartTarget::Auto => StartTargetView::Auto,
                StartTarget::Named(name) => StartTargetView::Named(name@),
                StartTarget::Renamed { name, new_name } => StartTargetView::Renamed {
                    name: name@,
                    new_name: new_name@,
                },
            },
            channel: self.channel,
            width: self.width,
        }
    }
}

impl View for SetChannel {
    type V = SetChannelView;

    closed spec fn view(&self) -> SetChannelView {
        SetChannelView {
            target: match self.target {
                Target::ByName(name) => TargetView::ByName(name@),
                Target::Resolved(iface) => TargetView::Resolved(iface@),
            },
            channel: self.channel,
            width: self.width,
            scope: self.scope,
        }
    }
}

/// A session that has not been configured further.
pub open spec fn plain(target: StartTargetView) -> BuilderView {
    BuilderView { target, channel: None, width: ChannelWidth::Mhz20 }
}

/// A channel set by name that has not been configured further.
pub open spec fn by_name(name: Seq<char>, channel: u32, scope: BandScope) -> SetChannelView {
    SetChannelView {
        target: TargetView::ByName(name),
        channel,
        width: ChannelWidth::Mhz20,
        scope,
    }
}

/// Automatically select the best monitor-capable interface and enter monitor
/// mode.
pub fn start_monitor() -> (b: MonitorBuilder)
    ensures
        b@ == plain(StartTargetView::Auto),
        b@.target is Auto && b@.channel is None && b@.width == ChannelWidth::Mhz20,
{
    MonitorBuilder::new(StartTarget::Auto)
}

/// Enter monitor mode on a specific interface by name, skipping scoring.
pub fn start_monitor_on(name: &str) -> (b: MonitorBuilder)
    ensures
        b@ == plain(StartTargetView::Named(name@)),
        b@.target == StartTargetView::Named(name@),
        b@.channel is None && b@.width == ChannelWidth::Mhz20,
{
    MonitorBuilder::new(StartTarget::Named(name.to_owned()))
}

/// Enter monitor mode on `name` and rename the interface to `new_name`.
pub fn start_monitor_as(name: &str, new_name: &str) -> (b: MonitorBuilder)
    ensures
        b@ == plain(StartTargetView::Renamed { name: name@, new_name: new_name@ }),
        b@.target == (StartTargetView::Renamed { name: name@, new_name: new_name@ }),
        b@.channel is None && b@.width == ChannelWidth::Mhz20,
{
    MonitorBuilder::new(
        StartTarget::Renamed { name: name.to_owned(), new_name: new_name.to_owned() },
    )
}

/// Set the operating channel of a monitor-mode interface, on 2.4 or 5 GHz.
pub fn set_channel(iface: &str, channel: u32) -> (r: SetChannel)
    ensures
        r@ == by_name(iface@, channel, BandScope::ExceptSixGhz),
        r@.target == TargetView::ByName(iface@),
        r@.channel == channel && r@.width == ChannelWidth::Mhz20 && r@.scope
            == BandScope::ExceptSixGhz,
{
    SetChannel::new(iface, channel, BandScope::ExceptSixGhz)
}

/// Set the operating channel of a monitor-mode interface, on 6 GHz.
pub fn set_channel_6g(iface: &str, channel: u32) -> (r: SetChannel)
    ensures
        r@ == by_name(iface@, channel, BandScope::SixGhzOnly),
        r@.target == TargetView::ByName(iface@),
        r@.channel == channel && r@.width == ChannelWidth::Mhz20 && r@.scope
            == BandScope::SixGhzOnly,
{
    SetChannel::new(iface, channel, BandScope::SixGhzOnly)
}

impl WirelessInterface {
    /// The operation that enumerates every wireless interface with its
    /// capabilities.
    pub fn detect() -> (op: BackendOp)
        ensures
            op@ == BackendOpView::Detect,
    {
        BackendOp::Detect
    }

    /// Pick one interface by name out of the outcome of a
    /// [`detect`](Self::detect). A system without any interface is told apart from
    /// one that has others.
    pub fn lookup(detected: Result<Vec<WirelessInterface>, Error>, name: &str) -> (r: Result<
        WirelessInterface,
        Error,
    >)
        ensures
            crate::names::interface_result(r) == crate::leave::looked_up(
                crate::select::interfaces_result(detected),
                name@,
            ),
    {
        match detected {
            Ok(interfaces) => find_named(interfaces, name),
            Err(e) => Err(e),
        }
    }
}

/// Leave monitor mode on `name` and return the interface to managed networking.
///
/// An interface that is not in monitor mode keeps its mode. Once the interface has
/// left monitor mode, or was not in it, each service that runs is offered it,
/// NetworkManager first. An offer that fails is the last one made, and is no error.
pub fn stop_monitor(name: &str) -> (m: StopMonitor)
    ensures
        m.program() == stop_program(name@),
{
    StopMonitor::start(name)
}

/// Restore every interface currently in monitor mode to managed networking.
pub fn stop_all_monitors() -> (m: StopAll)
    ensures
        m.program() == stop_all_program(),
{
    StopAll::start()
}

impl MonitorBuilder {
    fn new(target: StartTarget) -> (b: MonitorBuilder)
        ensures
            b.target == target,
            b.channel is None,
            b.width == ChannelWidth::Mhz20,
    {
        MonitorBuilder { target, channel: None, width: ChannelWidth::Mhz20 }
    }

    /// Park the interface on a 2.4 or 5 GHz channel once monitor mode is
    /// confirmed. Of several channels, the last one named counts.
    pub fn on_channel(self, channel: u32) -> (b: MonitorBuilder)
        ensures
            b@ == (BuilderView { channel: Some((channel, BandScope::ExceptSixGhz)), ..self@ }),
    {
        MonitorBuilder {
            target: self.target,
            channel: Some((channel, BandScope::ExceptSixGhz)),
            width: self.width,
        }
    }

    /// Park the interface on a 6 GHz channel once monitor mode is confirmed.
    pub fn on_channel_6g(self, channel: u32) -> (b: MonitorBuilder)
        ensures
            b@ == (BuilderView { channel: Some((channel, BandScope::SixGhzOnly)), ..self@ }),
    {
        MonitorBuilder {
            target: self.target,
            channel: Some((channel, BandScope::SixGhzOnly)),
            width: self.width,
        }
    }

    /// Set the bandwidth for the channel this builder will park on.
    pub fn with_width(self, width: ChannelWidth) -> (b: MonitorBuilder)
        ensures
            b@ == (BuilderView { width, ..self@ }),
    {
        MonitorBuilder { target: self.target, channel: self.channel, width }
    }

    /// Start the session.
    pub fn run(self) -> (p: Progress<Start, Result<MonitorGuard, Error>>)
        ensures
            Start::remaining(p) == start_program(self@),
    {
        Start::start(self)
    }
}

impl SetChannel {
    /// A channel set on an interface that is known by name only.
    pub fn new(iface: &str, channel: u32, scope: BandScope) -> (r: SetChannel)
        ensures
            r@ == by_name(iface@, channel, scope),
            r@.target == TargetView::ByName(iface@),
            r@.channel == channel && r@.width == ChannelWidth::Mhz20 && r@.scope == scope,
    {
        SetChannel {
            target: Target::ByName(iface.to_owned()),
            channel,
            width: ChannelWidth::Mhz20,
            scope,
        }
    }

    /// A channel set on an interface that is at hand.
    pub fn from_iface(iface: InterfaceInfo, channel: u32, scope: BandScope) -> (r: SetChannel)
        ensures
            r@ == (SetChannelView {
                target: TargetView::Resolved(iface@),
                channel,
                width: ChannelWidth::Mhz20,
                scope,
            }),
    {
        SetChannel {
            target: Target::Resolved(Box::new(iface)),
            channel,
            width: ChannelWidth::Mhz20,
            scope,
        }
    }

    /// Set the channel bandwidth.
    pub fn with_width(self, width: ChannelWidth) -> (r: SetChannel)
        ensures
            r@ == (SetChannelView { width, ..self@ }),
    {
        SetChannel { target: self.target, channel: self.channel, width, scope: self.scope }
    }

    /// Start tuning.
    pub fn run(self) -> (p: Progress<ChannelSet, Result<String, Error>>)
        ensures
            ChannelSet::remaining(p) == set_channel_program(self@),
    {
        ChannelSet::start(self)
    }
}

/// The contents of a result that is a name or an [`Error`].
pub open spec fn name_result(r: Result<String, Error>) -> Result<Seq<char>, ErrorView> {
    match r {
        Ok(name) => Ok(name@),
        Err(e) => Err(e@),
    }
}

/// The end of a change to the interface `name`.
pub open spec fn named_if_done(name: Seq<char>, r: BackendReplyView) -> Result<
    Seq<char>,
    ErrorView,
> {
    match r->Done_0 {
        Ok(u) => Ok(name),
        Err(e) => Err(e),
    }
}

/// The same, of the reply itself.
fn name_if_done(name: String, reply: BackendReply) -> (r: Result<String, Error>)
    requires
        reply@ is Done,
    ensures
        name_result(r) == named_if_done(name@, reply@),
{
    match reply {
        BackendReply::Done(Err(e)) => Err(e),
        _ => Ok(name),
    }
}

/// Tuning an interface to a channel: find it unless it is at hand, resolve the
/// channel against what its device supports, and set it.
pub open spec fn set_channel_program(request: SetChannelView) -> BackendProgram<
    Result<Seq<char>, ErrorView>,
> {
    match request.target {
        TargetView::Resolved(iface) => tune_to(
            iface,
            request.channel,
            request.scope,
            request.width,
        ),
        TargetView::ByName(name) => Program::Ask(
            BackendOpView::Detect,
            |r: BackendReplyView|
                match r->Interfaces_0 {
                    Ok(interfaces) => match crate::names::selected(interfaces, name) {
                        Ok(iface) => tune_to(
                            iface,
                            request.channel,
                            request.scope,
                            request.width,
                        ),
                        Err(e) => Program::Return(Err(e)),
                    },
                    Err(e) => Program::Return(Err(e)),
                },
        ),
    }
}

/// Resolve the channel and set it.
pub open spec fn tune_to(
    iface: InterfaceView,
    channel: u32,
    scope: BandScope,
    width: ChannelWidth,
) -> BackendProgram<Result<Seq<char>, ErrorView>> {
    match crate::channel::resolved(iface, channel, scope) {
        Ok(freq_mhz) => set_resolved(iface.index, iface.name, freq_mhz, width),
        Err(e) => Program::Return(Err(e)),
    }
}

/// Set the frequency that a channel resolved to.
pub open spec fn set_resolved(
    index: u32,
    name: Seq<char>,
    freq_mhz: u32,
    width: ChannelWidth,
) -> BackendProgram<Result<Seq<char>, ErrorView>> {
    Program::Ask(
        BackendOpView::SetChannel { index, name, freq_mhz, width },
        |r: BackendReplyView| Program::Return(named_if_done(name, r)),
    )
}

/// How far a channel set has come.
#[derive(Debug)]
enum ChannelSetStage {
    Finding { name: String, channel: u32, scope: BandScope, width: ChannelWidth },
    Setting { index: u32, name: String, freq_mhz: u32, width: ChannelWidth },
}

/// The conversation that tunes an interface to a channel.
#[derive(Debug)]
pub struct ChannelSet {
    stage: ChannelSetStage,
}

impl ChannelSet {
    /// What remains of the conversation.
    pub closed spec fn program(self) -> BackendProgram<Result<Seq<char>, ErrorView>> {
        match self.stage {
            ChannelSetStage::Finding { name, channel, scope, width } => set_channel_program(
                SetChannelView { target: TargetView::ByName(name@), channel, width, scope },
            ),
            ChannelSetStage::Setting { index, name, freq_mhz, width } => set_resolved(
                index,
                name@,
                freq_mhz,
                width,
            ),
        }
    }

    /// What remains after a step.
    pub open spec fn remaining(p: Progress<ChannelSet, Result<String, Error>>) -> BackendProgram<
        Result<Seq<char>, ErrorView>,
    > {
        match p {
            Progress::Pending(m) => m.program(),
            Progress::Finished(r) => Program::Return(name_result(r)),
        }
    }

    /// Start tuning as requested.
    pub fn start(request: SetChannel) -> (p: Progress<ChannelSet, Result<String, Error>>)
        ensures
            Self::remaining(p) == set_channel_program(request@),
    {
        match request.target {
            Target::Resolved(iface) => Self::tune(
                &iface,
                request.channel,
                request.scope,
                request.width,
            ),
            Target::ByName(name) => Progress::Pending(
                ChannelSet {
                    stage: ChannelSetStage::Finding {
                        name,
                        channel: request.channel,
                        scope: request.scope,
                        width: request.width,
                    },
                },
            ),
        }
    }

    /// Resolve the channel and ask for it to be set.
    fn tune(iface: &InterfaceInfo, channel: u32, scope: BandScope, width: ChannelWidth) -> (p:
        Progress<ChannelSet, Result<String, Error>>)
        ensures
            Self::remaining(p) == tune_to(iface@, channel, scope, width),
    {
        match resolve_frequency(iface, channel, scope) {
            Ok(freq_mhz) => Progress::Pending(
                ChannelSet {
                    stage: ChannelSetStage::Setting {
                        index: iface.index,
                        name: iface.name.clone(),
                        freq_mhz,
                        width,
                    },
                },
            ),
            Err(e) => Progress::Finished(Err(e)),
        }
    }

    /// A conversation that is pending has an open question.
    pub proof fn asks(self)
        ensures
            self.program() is Ask,
    {
    }

    /// The operation whose outcome is awaited.
    pub fn request(&self) -> (op: BackendOp)
        ensures
            self.program() is Ask,
            op@ == self.program()->Ask_0,
    {
        match &self.stage {
            ChannelSetStage::Finding { name, channel, scope, width } => BackendOp::Detect,
            ChannelSetStage::Setting { index, name, freq_mhz, width } => BackendOp::SetChannel {
                index: *index,
                name: name.clone(),
                freq_mhz: *freq_mhz,
                width: *width,
            },
        }
    }

    /// Go on with the outcome of the requested operation.
    pub fn resume(self, reply: BackendReply) -> (p: Progress<Self, Result<String, Error>>)
        requires
            self.program()->Ask_0.answered_by(reply@),
        ensures
            Self::remaining(p) == (self.program()->Ask_1)(reply@),
    {
        match self.stage {
            ChannelSetStage::Finding { name, channel, scope, width } => match reply {
                BackendReply::Interfaces(Ok(interfaces)) => match select_named(
                    interfaces,
                    name.as_str(),
                ) {
                    Ok(iface) => Self::tune(&iface, channel, scope, width),
                    Err(e) => Progress::Finished(Err(e)),
                },
                BackendReply::Interfaces(Err(e)) => Progress::Finished(Err(e)),
                _ => Progress::Pending(
                    ChannelSet { stage: ChannelSetStage::Finding { name, channel, scope, width } },
                ),
            },
            ChannelSetStage::Setting { index, name, freq_mhz, width } => Progress::Finished(
                name_if_done(name, reply),
            ),
        }
    }
}

/// Leaving monitor mode by name.
pub open spec fn stop_program(name: Seq<char>) -> BackendProgram<Result<Seq<char>, ErrorView>> {
    Program::Ask(
        BackendOpView::Stop { name },
        |r: BackendReplyView| Program::Return(named_if_done(name, r)),
    )
}

/// The conversation that takes an interface out of monitor mode by name.
#[derive(Debug)]
pub struct StopMonitor {
    name: String,
}

impl StopMonitor {
    /// What remains of the conversation.
    pub closed spec fn program(self) -> BackendProgram<Result<Seq<char>, ErrorView>> {
        stop_program(self.name@)
    }

    /// Start stopping `name`.
    pub fn start(name: &str) -> (m: StopMonitor)
        ensures
            m.program() == stop_program(name@),
    {
        StopMonitor { name: name.to_owned() }
    }

    /// A conversation that is pending has an open question.
    pub proof fn asks(self)
        ensures
            self.program() is Ask,
    {
    }

    /// The operation whose outcome is awaited.
    pub fn request(&self) -> (op: BackendOp)
        ensures
            self.program() is Ask,
            op@ == self.program()->Ask_0,
    {
        BackendOp::Stop { name: self.name.clone() }
    }

    /// Finish with the outcome of the requested operation.
    pub fn resume(self, reply: BackendReply) -> (r: Result<String, Error>)
        requires
            self.program()->Ask_0.answered_by(reply@),
        ensures
            (self.program()->Ask_1)(reply@) == BackendProgram::Return(name_result(r)),
    {
        name_if_done(self.name, reply)
    }
}

/// Restoring a possibly renamed interface: give it its original name back, then
/// return it to managed networking under that name.
pub open spec fn restore_program(current: Seq<char>, original: Seq<char>) -> BackendProgram<
    Result<Seq<char>, ErrorView>,
> {
    if current != original {
        Program::Ask(
            BackendOpView::Rename { current, new: original },
            |r: BackendReplyView|
                match r->Done_0 {
                    Ok(u) => stop_program(original),
                    Err(e) => Program::Return(Err(e)),
                },
        )
    } else {
        stop_program(original)
    }
}

/// The conversation that restores an interface.
#[derive(Debug)]
pub struct Restore {
    // The name to change first, if it is not the original one already.
    renamed: Option<String>,
    original: String,
}

impl Restore {
    /// What remains of the conversation.
    pub closed spec fn program(self) -> BackendProgram<Result<Seq<char>, ErrorView>> {
        match self.renamed {
            Some(current) => Program::Ask(
                BackendOpView::Rename { current: current@, new: self.original@ },
                |r: BackendReplyView|
                    match r->Done_0 {
                        Ok(u) => stop_program(self.original@),
                        Err(e) => Program::Return(Err(e)),
                    },
            ),
            None => stop_program(self.original@),
        }
    }

    /// What remains after a step.
    pub open spec fn remaining(p: Progress<Restore, Result<String, Error>>) -> BackendProgram<
        Result<Seq<char>, ErrorView>,
    > {
        match p {
            Progress::Pending(m) => m.program(),
            Progress::Finished(r) => Program::Return(name_result(r)),
        }
    }

    /// Start restoring the interface that is called `current` and was called
    /// `original`.
    pub fn start(current: &str, original: &str) -> (m: Restore)
        ensures
            m.program() == restore_program(current@, original@),
    {
        let renamed = if same_text(current, original) {
            None
        } else {
            Some(current.to_owned())
        };
        let m = Restore { renamed, original: original.to_owned() };
        proof {
            if current@ != original@ {
                assert(m.program()->Ask_1 =~= restore_program(current@, original@)->Ask_1);
            }
        }
        m
    }

    /// A conversation that is pending has an open question.
    pub proof fn asks(self)
        ensures
            self.program() is Ask,
    {
    }

    /// The operation whose outcome is awaited.
    pub fn request(&self) -> (op: BackendOp)
        ensures
            self.program() is Ask,
            op@ == self.program()->Ask_0,
    {
        match &self.renamed {
            Some(current) => BackendOp::Rename {
                current: current.clone(),
                new: self.original.clone(),
            },
            None => BackendOp::Stop { name: self.original.clone() },
        }
    }

    /// Go on with the outcome of the requested operation.
    pub fn resume(self, reply: BackendReply) -> (p: Progress<Self, Result<String, Error>>)
        requires
            self.program()->Ask_0.answered_by(reply@),
        ensures
            Self::remaining(p) == (self.program()->Ask_1)(reply@),
    {
        match self.renamed {
            Some(current) => match reply {
                BackendReply::Done(Err(e)) => Progress::Finished(Err(e)),
                _ => Progress::Pending(Restore { renamed: None, original: self.original }),
            },
            None => Progress::Finished(name_if_done(self.original, reply)),
        }
    }
}

/// Restoring every interface that is in monitor mode. A failure on one does not
/// keep the others from being restored.
pub open spec fn stop_all_program() -> BackendProgram<Result<Seq<Seq<char>>, ErrorView>> {
    Program::Ask(
        BackendOpView::Detect,
        |r: BackendReplyView|
            match r->Interfaces_0 {
                Ok(interfaces) => sweep(
                    crate::select::in_monitor_names(interfaces),
                    Seq::empty(),
                ),
                Err(e) => Program::Return(Err(e)),
            },
    )
}

/// Stop the named interfaces in order; the result is the names restored before,
/// and those whose stop succeeded.
pub open spec fn sweep(names: Seq<Seq<char>>, restored: Seq<Seq<char>>) -> BackendProgram<
    Result<Seq<Seq<char>>, ErrorView>,
>
    decreases names.len(),
{
    if names.len() == 0 {
        Program::Return(Ok(restored))
    } else {
        Program::Ask(
            BackendOpView::Stop { name: names[0] },
            |r: BackendReplyView|
                match r->Done_0 {
                    Ok(u) => sweep(names.drop_first(), restored.push(names[0])),
                    Err(e) => sweep(names.drop_first(), restored),
                },
        )
    }
}

/// The contents of a result that is a list of names or an [`Error`].
pub open spec fn names_result(r: Result<Vec<String>, Error>) -> Result<
    Seq<Seq<char>>,
    ErrorView,
> {
    match r {
        Ok(names) => Ok(crate::text::texts(names@)),
        Err(e) => Err(e@),
    }
}

/// How far a sweep has come.
#[derive(Debug)]
enum StopAllStage {
    Detecting,
    Stopping { current: String, rest: Vec<String>, restored: Vec<String> },
}

/// The conversation that restores every interface in monitor mode.
#[derive(Debug)]
pub struct StopAll {
    stage: StopAllStage,
}

impl StopAll {
    /// What remains of the conversation.
    pub closed spec fn program(self) -> BackendProgram<Result<Seq<Seq<char>>, ErrorView>> {
        match self.stage {
            StopAllStage::Detecting => stop_all_program(),
            StopAllStage::Stopping { current, rest, restored } => sweep(
                seq![current@] + crate::text::texts(rest@),
                crate::text::texts(restored@),
            ),
        }
    }

    /// What remains after a step.
    pub open spec fn remaining(p: Progress<StopAll, Result<Vec<String>, Error>>) -> BackendProgram<
        Result<Seq<Seq<char>>, ErrorView>,
    > {
        match p {
            Progress::Pending(m) => m.program(),
            Progress::Finished(r) => Program::Return(names_result(r)),
        }
    }

    /// Start restoring everything.
    pub fn start() -> (m: StopAll)
        ensures
            m.program() == stop_all_program(),
    {
        StopAll { stage: StopAllStage::Detecting }
    }

    /// Go on with the next name, or finish.
    fn next(names: Vec<String>, restored: Vec<String>) -> (p: Progress<
        StopAll,
        Result<Vec<String>, Error>,
    >)
        ensures
            Self::remaining(p) == sweep(
                crate::text::texts(names@),
                crate::text::texts(restored@),
            ),
    {
        if names.len() == 0 {
            return Progress::Finished(Ok(restored));
        }
        let ghost all = crate::text::texts(names@);
        let mut rest = names;
        let current = rest.remove(0);
        assert(seq![current@] + crate::text::texts(rest@) =~= all);
        Progress::Pending(StopAll { stage: StopAllStage::Stopping { current, rest, restored } })
    }

    /// A conversation that is pending has an open question.
    pub proof fn asks(self)
        ensures
            self.program() is Ask,
    {
    }

    /// The operation whose outcome is awaited.
    pub fn request(&self) -> (op: BackendOp)
        ensures
            self.program() is Ask,
            op@ == self.program()->Ask_0,
    {
        match &self.stage {
            StopAllStage::Detecting => BackendOp::Detect,
            StopAllStage::Stopping { current, rest, restored } => BackendOp::Stop {
                name: current.clone(),
            },
        }
    }

    /// Go on with the outcome of the requested operation.
    pub fn resume(self, reply: BackendReply) -> (p: Progress<Self, Result<Vec<String>, Error>>)
        requires
            self.program()->Ask_0.answered_by(reply@),
        ensures
            Self::remaining(p) == (self.program()->Ask_1)(reply@),
    {
        match self.stage {
            StopAllStage::Detecting => match reply {
                BackendReply::Interfaces(Ok(interfaces)) => {
                    let restored: Vec<String> = Vec::new();
                    assert(crate::text::texts(restored@) =~= Seq::empty());
                    Self::next(busy_names(&interfaces), restored)
                },
                BackendReply::Interfaces(Err(e)) => Progress::Finished(Err(e)),
                _ => Progress::Pending(StopAll { stage: StopAllStage::Detecting }),
            },
            StopAllStage::Stopping { current, rest, restored } => {
                let ghost names = seq![current@] + crate::text::texts(rest@);
                let ghost before = crate::text::texts(restored@);
                let mut restored = restored;
                assert(names.drop_first() =~= crate::text::texts(rest@));
                match reply {
                    BackendReply::Done(Err(e)) => {},
                    _ => {
                        restored.push(current);
                        assert(crate::text::texts(restored@) =~= before.push(current@));
                    },
                }
                Self::next(rest, restored)
            },
        }
    }
}

/// Starting a session. A malformed new name is caught before the backend is
/// asked for anything.
pub open spec fn start_program(request: BuilderView) -> BackendProgram<
    Result<GuardView, ErrorView>,
> {
    match request.target {
        StartTargetView::Auto => activate(BackendOpView::StartAuto, None, request),
        StartTargetView::Named(name) => activate(BackendOpView::StartOn { name }, None, request),
        StartTargetView::Renamed { name, new_name } => match crate::names::name_verdict(new_name) {
            Ok(u) => activate(BackendOpView::StartAs { name, new_name }, Some(name), request),
            Err(e) => Program::Return(Err(e)),
        },
    }
}

/// Ask for the interface to be activated, then tune it. A session is restored
/// under the name `original`, if that is given, or else under the name it has.
pub open spec fn activate(
    op: BackendOpView,
    original: Option<Seq<char>>,
    request: BuilderView,
) -> BackendProgram<Result<GuardView, ErrorView>> {
    Program::Ask(
        op,
        |r: BackendReplyView|
            match r->Interface_0 {
                Ok(iface) => park(
                    crate::cleanup::session(
                        match original {
                            Some(name) => name,
                            None => iface.name,
                        },
                        iface,
                    ),
                    request,
                ),
                Err(e) => Program::Return(Err(e)),
            },
    )
}

/// Put a fresh session on its channel, if it is to have one. A session that
/// cannot be tuned is torn down rather than handed out on the wrong channel.
pub open spec fn park(guard: GuardView, request: BuilderView) -> BackendProgram<
    Result<GuardView, ErrorView>,
> {
    match request.channel {
        Some((channel, scope)) => crate::program::bind(
            set_channel_program(
                SetChannelView {
                    target: TargetView::Resolved(guard.iface),
                    channel,
                    width: request.width,
                    scope,
                },
            ),
            after_tuning(guard),
        ),
        None => Program::Return(Ok(guard)),
    }
}

/// After the tuning: the session, or its teardown.
pub open spec fn after_tuning(guard: GuardView) -> spec_fn(
    Result<Seq<char>, ErrorView>,
) -> BackendProgram<Result<GuardView, ErrorView>> {
    |r: Result<Seq<char>, ErrorView>|
        match r {
            Ok(name) => Program::Return(Ok(guard)),
            Err(e) => crate::program::bind(
                restore_program(guard.current, guard.original),
                after_teardown(e),
            ),
        }
}

/// The end of a teardown, however it went: the error that made it necessary.
pub open spec fn after_teardown(error: ErrorView) -> spec_fn(
    Result<Seq<char>, ErrorView>,
) -> BackendProgram<Result<GuardView, ErrorView>> {
    |r: Result<Seq<char>, ErrorView>| Program::Return(Err(error))
}

/// How far a start has come.
enum StartStage {
    Activating(MonitorBuilder),
    Tuning(MonitorGuard, ChannelSet),
    TearingDown(Restore, Error),
}

/// The conversation that starts a session.
pub struct Start {
    stage: StartStage,
}

impl Start {
    /// What remains of the conversation.
    pub closed spec fn program(self) -> BackendProgram<Result<GuardView, ErrorView>> {
        match self.stage {
            StartStage::Activating(request) => match request@.target {
                StartTargetView::Auto => activate(BackendOpView::StartAuto, None, request@),
                StartTargetView::Named(name) => activate(
                    BackendOpView::StartOn { name },
                    None,
                    request@,
                ),
                StartTargetView::Renamed { name, new_name } => activate(
                    BackendOpView::StartAs { name, new_name },
                    Some(name),
                    request@,
                ),
            },
            StartStage::Tuning(guard, m) => crate::program::bind(
                m.program(),
                after_tuning(guard@),
            ),
            StartStage::TearingDown(m, error) => crate::program::bind(
                m.program(),
                after_teardown(error@),
            ),
        }
    }

    /// What remains after a step.
    pub open spec fn remaining(p: Progress<Start, Result<MonitorGuard, Error>>) -> BackendProgram<
        Result<GuardView, ErrorView>,
    > {
        match p {
            Progress::Pending(m) => m.program(),
            Progress::Finished(r) => Program::Return(crate::cleanup::guard_result(r)),
        }
    }

    /// Start the session that `request` describes.
    pub fn start(request: MonitorBuilder) -> (p: Progress<Start, Result<MonitorGuard, Error>>)
        ensures
            Self::remaining(p) == start_program(request@),
    {
        if let StartTarget::Renamed { name, new_name } = &request.target {
            if let Err(e) = validate_iface_name(new_name.as_str()) {
                return Progress::Finished(Err(e));
            }
        }
        Progress::Pending(Start { stage: StartStage::Activating(request) })
    }

    /// Put a fresh session on its channel.
    fn parking(
        guard: MonitorGuard,
        channel: Option<(u32, BandScope)>,
        width: ChannelWidth,
        Ghost(request): Ghost<BuilderView>,
    ) -> (p: Progress<Start, Result<MonitorGuard, Error>>)
        requires
            request.channel == channel,
            request.width == width,
        ensures
            Self::remaining(p) == park(guard@, request),
    {
        match channel {
            Some((number, scope)) => {
                let pending = match scope {
                    BandScope::ExceptSixGhz => guard.set_channel(number),
                    BandScope::SixGhzOnly => guard.set_channel_6g(number),
                };
                Self::tuning(ChannelSet::start(pending.with_width(width)), guard)
            },
            None => Progress::Finished(Ok(guard)),
        }
    }

    /// Go on with the tuning, or with what follows it.
    fn tuning(p: Progress<ChannelSet, Result<String, Error>>, guard: MonitorGuard) -> (r: Progress<
        Start,
        Result<MonitorGuard, Error>,
    >)
        ensures
            Self::remaining(r) == crate::program::bind(
                ChannelSet::remaining(p),
                after_tuning(guard@),
            ),
    {
        match p {
            Progress::Pending(m) => Progress::Pending(
                Start { stage: StartStage::Tuning(guard, m) },
            ),
            Progress::Finished(Ok(name)) => Progress::Finished(Ok(guard)),
            Progress::Finished(Err(e)) => Progress::Pending(
                Start { stage: StartStage::TearingDown(guard.restore(), e) },
            ),
        }
    }

    /// Go on with the teardown, or finish with its error.
    fn tearing_down(p: Progress<Restore, Result<String, Error>>, error: Error) -> (r: Progress<
        Start,
        Result<MonitorGuard, Error>,
    >)
        ensures
            Self::remaining(r) == crate::program::bind(
                Restore::remaining(p),
                after_teardown(error@),
            ),
    {
        match p {
            Progress::Pending(m) => Progress::Pending(
                Start { stage: StartStage::TearingDown(m, error) },
            ),
            Progress::Finished(r) => Progress::Finished(Err(error)),
        }
    }

    /// A conversation that is pending has an open question.
    pub proof fn asks(self)
        ensures
            self.program() is Ask,
    {
        match self.stage {
            StartStage::Tuning(guard, m) => m.asks(),
            StartStage::TearingDown(m, error) => m.asks(),
            _ => {},
        }
    }

    /// The operation whose outcome is awaited.
    pub fn request(&self) -> (op: BackendOp)
        ensures
            self.program() is Ask,
            op@ == self.program()->Ask_0,
    {
        match &self.stage {
            StartStage::Activating(request) => match &request.target {
                StartTarget::Auto => BackendOp::StartAuto,
                StartTarget::Named(name) => BackendOp::StartOn { name: name.clone() },
                StartTarget::Renamed { name, new_name } => BackendOp::StartAs {
                    name: name.clone(),
                    new_name: new_name.clone(),
                },
            },
            StartStage::Tuning(guard, m) => m.request(),
            StartStage::TearingDown(m, error) => m.request(),
        }
    }

    /// Go on with the outcome of the requested operation.
    pub fn resume(self, reply: BackendReply) -> (p: Progress<Self, Result<MonitorGuard, Error>>)
        requires
            self.program()->Ask_0.answered_by(reply@),
        ensures
            Self::remaining(p) == (self.program()->Ask_1)(reply@),
    {
        match self.stage {
            StartStage::Activating(request) => match reply {
                BackendReply::Interface(Ok(iface)) => {
                    let ghost asked_for = request@;
                    let guard = match request.target {
                        StartTarget::Renamed { name, new_name } => MonitorGuard::from_rename(
                            name,
                            iface,
                        ),
                        _ => MonitorGuard::new(iface),
                    };
                    Self::parking(guard, request.channel, request.width, Ghost(asked_for))
                },
                BackendReply::Interface(Err(e)) => Progress::Finished(Err(e)),
                _ => Progress::Pending(Start { stage: StartStage::Activating(request) }),
            },
            StartStage::Tuning(guard, m) => {
                proof {
                    m.asks();
                }
                Self::tuning(m.resume(reply), guard)
            },
            StartStage::TearingDown(m, error) => {
                proof {
                    m.asks();
                }
                Self::tearing_down(m.resume(reply), error)
            },
        }
    }
}

} // verus!
