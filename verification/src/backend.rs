//! The operations every platform offers, and how each platform performs them.
//!
//! A session asks its backend for a [`BackendOp`]. On Linux the answer is worked
//! out in a conversation of its own, a [`LinuxTask`] over primitive control
//! operations; on Windows every operation is refused.

use vstd::prelude::*;

use crate::channel::Tuning;
use crate::errors::{Error, ErrorView, WindowsError};
use crate::interface::{ChannelWidth, InterfaceView, WirelessInterface};
use crate::leave::{look_up, Leave};
use crate::ops::{LinuxOp, LinuxOpView, LinuxProgram, LinuxReply, LinuxReplyView};
use crate::program::{Program, Progress};
use crate::start::{StartAs, StartAuto, StartOn};
use crate::tune::Tune;

verus! {

/// One operation of a platform backend.
#[derive(Debug)]
pub enum BackendOp {
    /// Enumerate all wireless interfaces with their device capabilities.
    Detect,
    /// Select the best capable interface and put it into monitor mode.
    StartAuto,
    /// Put a named interface into monitor mode, skipping selection.
    StartOn {
        /// The interface.
        name: String,
    },
    /// Put a named interface into monitor mode and rename it.
    StartAs {
        /// The interface.
        name: String,
        /// The name it gets.
        new_name: String,
    },
    /// Rename an interface.
    Rename {
        /// The name it has.
        current: String,
        /// The name it gets.
        new: String,
    },
    /// Set the operating channel of a monitor-mode interface.
    SetChannel {
        /// Index of the interface.
        index: u32,
        /// Its name.
        name: String,
        /// Primary center frequency, in MHz.
        freq_mhz: u32,
        /// Channel width.
        width: ChannelWidth,
    },
    /// Read back the channel an interface is sitting on.
    ReadTuning {
        /// Index of the interface.
        index: u32,
        /// Its name.
        name: String,
    },
    /// Take a named interface out of monitor mode and restore managed networking.
    Stop {
        /// The interface.
        name: String,
    },
}

/// The outcome of a [`BackendOp`].
#[derive(Debug)]
pub enum BackendReply {
    /// The detected interfaces.
    Interfaces(Result<Vec<WirelessInterface>, Error>),
    /// The interface that was activated.
    Interface(Result<WirelessInterface, Error>),
    /// Whether a change was made.
    Done(Result<(), Error>),
    /// The tuning that was read.
    Tuning(Result<Tuning, Error>),
}

/// The contents of a [`BackendOp`].
pub enum BackendOpView {
    /// Enumerate all wireless interfaces.
    Detect,
    /// Start on the best capable interface.
    StartAuto,
    /// Start on a named interface.
    StartOn { name: Seq<char> },
    /// Start on a named interface, under a new name.
    StartAs { name: Seq<char>, new_name: Seq<char> },
    /// Rename an interface.
    Rename { current: Seq<char>, new: Seq<char> },
    /// Set the operating channel.
    SetChannel { index: u32, name: Seq<char>, freq_mhz: u32, width: ChannelWidth },
    /// Read the operating channel back.
    ReadTuning { index: u32, name: Seq<char> },
    /// Restore managed networking.
    Stop { name: Seq<char> },
}

/// The contents of a [`BackendReply`].
pub enum BackendReplyView {
    /// The detected interfaces.
    Interfaces(Result<Seq<InterfaceView>, ErrorView>),
    /// The interface that was activated.
    Interface(Result<InterfaceView, ErrorView>),
    /// Whether a change was made.
    Done(Result<(), ErrorView>),
    /// The tuning that was read.
    Tuning(Result<Tuning, ErrorView>),
}

/// A conversation with a platform backend.
pub type BackendProgram<T> = Program<BackendOpView, BackendReplyView, T>;

impl View for BackendOp {
    type V = BackendOpView;

    open spec fn view(&self) -> BackendOpView {
        match self {
            BackendOp::Detect => BackendOpView::Detect,
            BackendOp::StartAuto => BackendOpView::StartAuto,
            BackendOp::StartOn { name } => BackendOpView::StartOn { name: name@ },
            BackendOp::StartAs { name, new_name } => BackendOpView::StartAs {
                name: name@,
                new_name: new_name@,
            },
            BackendOp::Rename { current, new } => BackendOpView::Rename {
                current: current@,
                new: new@,
            },
            BackendOp::SetChannel { index, name, freq_mhz, width } => BackendOpView::SetChannel {
                index: *index,
                name: name@,
                freq_mhz: *freq_mhz,
                width: *width,
            },
            BackendOp::ReadTuning { index, name } => BackendOpView::ReadTuning {
                index: *index,
                name: name@,
            },
            BackendOp::Stop { name } => BackendOpView::Stop { name: name@ },
        }
    }
}

impl View for BackendReply {
    type V = BackendReplyView;

    open spec fn view(&self) -> BackendReplyView {
        match self {
            BackendReply::Interfaces(r) => BackendReplyView::Interfaces(
                crate::select::interfaces_result(*r),
            ),
            BackendReply::Interface(r) => BackendReplyView::Interface(
                crate::names::interface_result(*r),
            ),
            BackendReply::Done(r) => BackendReplyView::Done(crate::errors::unit_result(*r)),
            BackendReply::Tuning(r) => BackendReplyView::Tuning(
                match r {
                    Ok(tuning) => Ok(*tuning),
                    Err(e) => Err(e@),
                },
            ),
        }
    }
}

impl BackendOpView {
    /// Whether a reply is of the kind that this operation has.
    pub open spec fn answered_by(self, reply: BackendReplyView) -> bool {
        match self {
            BackendOpView::Detect => reply is Interfaces,
            BackendOpView::StartAuto => reply is Interface,
            BackendOpView::StartOn { .. } => reply is Interface,
            BackendOpView::StartAs { .. } => reply is Interface,
            BackendOpView::ReadTuning { .. } => reply is Tuning,
            _ => reply is Done,
        }
    }
}

impl BackendOp {
    /// Whether a reply is of the kind that this operation has.
    pub fn is_answered_by(&self, reply: &BackendReply) -> (r: bool)
        ensures
            r == self@.answered_by(reply@),
    {
        match (self, reply) {
            (BackendOp::Detect, BackendReply::Interfaces(_)) => true,
            (BackendOp::Detect, _) => false,
            (BackendOp::StartAuto, BackendReply::Interface(_)) => true,
            (BackendOp::StartAuto, _) => false,
            (BackendOp::StartOn { .. }, BackendReply::Interface(_)) => true,
            (BackendOp::StartOn { .. }, _) => false,
            (BackendOp::StartAs { .. }, BackendReply::Interface(_)) => true,
            (BackendOp::StartAs { .. }, _) => false,
            (BackendOp::ReadTuning { .. }, BackendReply::Tuning(_)) => true,
            (BackendOp::ReadTuning { .. }, _) => false,
            (_, BackendReply::Done(_)) => true,
            _ => false,
        }
    }
}

/// The reply to an operation that failed with `e`.
pub open spec fn failure(op: BackendOpView, e: ErrorView) -> BackendReplyView {
    match op {
        BackendOpView::Detect => BackendReplyView::Interfaces(Err(e)),
        BackendOpView::StartAuto => BackendReplyView::Interface(Err(e)),
        BackendOpView::StartOn { .. } => BackendReplyView::Interface(Err(e)),
        BackendOpView::StartAs { .. } => BackendReplyView::Interface(Err(e)),
        BackendOpView::ReadTuning { .. } => BackendReplyView::Tuning(Err(e)),
        _ => BackendReplyView::Done(Err(e)),
    }
}

/// The Windows backend: native Windows offers no 802.11 monitor mode, so every
/// operation is refused.
pub fn windows_reply(op: &BackendOp) -> (r: BackendReply)
    ensures
        r@ == failure(op@, ErrorView::Windows(WindowsError::Unsupported)),
        op@.answered_by(r@),
{
    let error = Error::Windows(WindowsError::Unsupported);
    match op {
        BackendOp::Detect => BackendReply::Interfaces(Err(error)),
        BackendOp::StartAuto => BackendReply::Interface(Err(error)),
        BackendOp::StartOn { name } => BackendReply::Interface(Err(error)),
        BackendOp::StartAs { name, new_name } => BackendReply::Interface(Err(error)),
        BackendOp::ReadTuning { index, name } => BackendReply::Tuning(Err(error)),
        _ => BackendReply::Done(Err(error)),
    }
}

/// The end of a task that activates an interface.
pub open spec fn as_interface() -> spec_fn(Result<InterfaceView, ErrorView>) -> LinuxProgram<
    BackendReplyView,
> {
    |r: Result<InterfaceView, ErrorView>| Program::Return(BackendReplyView::Interface(r))
}

/// The end of a task that makes a change.
pub open spec fn as_done() -> spec_fn(Result<(), ErrorView>) -> LinuxProgram<BackendReplyView> {
    |r: Result<(), ErrorView>| Program::Return(BackendReplyView::Done(r))
}

/// Find the interface of the name `current` and rename it.
pub open spec fn rename_program(current: Seq<char>, new: Seq<char>) -> LinuxProgram<
    BackendReplyView,
> {
    Program::Ask(
        LinuxOpView::Detect,
        |r: LinuxReplyView|
            match crate::leave::looked_up(r->Interfaces_0, current) {
                Ok(iface) => rename_found(iface.index, current, new),
                Err(e) => Program::Return(BackendReplyView::Done(Err(e))),
            },
    )
}

/// Rename the interface that was found.
pub open spec fn rename_found(index: u32, current: Seq<char>, new: Seq<char>) -> LinuxProgram<
    BackendReplyView,
> {
    Program::Ask(
        LinuxOpView::Rename { index, old: current, new },
        |r: LinuxReplyView| Program::Return(BackendReplyView::Done(r->Done_0)),
    )
}

/// How Linux performs an operation.
pub open spec fn linux_program(op: BackendOpView) -> LinuxProgram<BackendReplyView> {
    match op {
        BackendOpView::Detect => Program::Ask(
            LinuxOpView::Detect,
            |r: LinuxReplyView| Program::Return(BackendReplyView::Interfaces(r->Interfaces_0)),
        ),
        BackendOpView::StartAuto => crate::program::bind(
            crate::start::start_auto_program(),
            as_interface(),
        ),
        BackendOpView::StartOn { name } => crate::program::bind(
            crate::start::start_on_program(name),
            as_interface(),
        ),
        BackendOpView::StartAs { name, new_name } => crate::program::bind(
            crate::start::start_as_program(name, new_name),
            as_interface(),
        ),
        BackendOpView::Rename { current, new } => rename_program(current, new),
        BackendOpView::SetChannel { index, name, freq_mhz, width } => crate::program::bind(
            crate::tune::tune_program(index, name, freq_mhz, width),
            as_done(),
        ),
        BackendOpView::ReadTuning { index, name } => Program::Ask(
            LinuxOpView::ReadChannel { index },
            |r: LinuxReplyView| Program::Return(BackendReplyView::Tuning(r->Channel_0)),
        ),
        BackendOpView::Stop { name } => crate::program::bind(
            crate::leave::leave_program(name),
            as_done(),
        ),
    }
}

/// What a task is at.
#[derive(Debug)]
enum LinuxTaskStage {
    Detect,
    StartAuto(StartAuto),
    StartOn(StartOn),
    StartAs(StartAs),
    FindToRename { current: String, new: String },
    Rename { index: u32, current: String, new: String },
    Tune(Tune),
    ReadTuning { index: u32 },
    Stop(Leave),
}

/// The conversation in which Linux performs a [`BackendOp`].
#[derive(Debug)]
pub struct LinuxTask {
    stage: LinuxTaskStage,
}

impl LinuxTask {
    /// What remains of the conversation.
    pub closed spec fn program(self) -> LinuxProgram<BackendReplyView> {
        match self.stage {
            LinuxTaskStage::Detect => linux_program(BackendOpView::Detect),
            LinuxTaskStage::StartAuto(m) => crate::program::bind(m.program(), as_interface()),
            LinuxTaskStage::StartOn(m) => crate::program::bind(m.program(), as_interface()),
            LinuxTaskStage::StartAs(m) => crate::program::bind(m.program(), as_interface()),
            LinuxTaskStage::FindToRename { current, new } => rename_program(current@, new@),
            LinuxTaskStage::Rename { index, current, new } => rename_found(index, current@, new@),
            LinuxTaskStage::Tune(m) => crate::program::bind(m.program(), as_done()),
            LinuxTaskStage::ReadTuning { index } => Program::Ask(
                LinuxOpView::ReadChannel { index },
                |r: LinuxReplyView| Program::Return(BackendReplyView::Tuning(r->Channel_0)),
            ),
            LinuxTaskStage::Stop(m) => crate::program::bind(m.program(), as_done()),
        }
    }

    /// What remains after a step.
    pub open spec fn remaining(p: Progress<LinuxTask, BackendReply>) -> LinuxProgram<
        BackendReplyView,
    > {
        match p {
            Progress::Pending(m) => m.program(),
            Progress::Finished(r) => Program::Return(r@),
        }
    }

    /// Start performing an operation.
    pub fn start(op: BackendOp) -> (m: LinuxTask)
        ensures
            m.program() == linux_program(op@),
    {
        let stage = match op {
            BackendOp::Detect => LinuxTaskStage::Detect,
            BackendOp::StartAuto => LinuxTaskStage::StartAuto(StartAuto::start()),
            BackendOp::StartOn { name } => LinuxTaskStage::StartOn(StartOn::start(name.as_str())),
            BackendOp::StartAs { name, new_name } => LinuxTaskStage::StartAs(
                StartAs::start(name.as_str(), new_name.as_str()),
            ),
            BackendOp::Rename { current, new } => LinuxTaskStage::FindToRename { current, new },
            BackendOp::SetChannel { index, name, freq_mhz, width } => LinuxTaskStage::Tune(
                Tune::start(index, name, freq_mhz, width),
            ),
            BackendOp::ReadTuning { index, name } => LinuxTaskStage::ReadTuning { index },
            BackendOp::Stop { name } => LinuxTaskStage::Stop(Leave::start(name.as_str())),
        };
        LinuxTask { stage }
    }

    fn auto(p: Progress<StartAuto, Result<WirelessInterface, Error>>) -> (r: Progress<
        LinuxTask,
        BackendReply,
    >)
        ensures
            Self::remaining(r) == crate::program::bind(StartAuto::remaining(p), as_interface()),
    {
        match p {
            Progress::Pending(m) => Progress::Pending(
                LinuxTask { stage: LinuxTaskStage::StartAuto(m) },
            ),
            Progress::Finished(r) => Progress::Finished(BackendReply::Interface(r)),
        }
    }

    fn named(p: Progress<StartOn, Result<WirelessInterface, Error>>) -> (r: Progress<
        LinuxTask,
        BackendReply,
    >)
        ensures
            Self::remaining(r) == crate::program::bind(StartOn::remaining(p), as_interface()),
    {
        match p {
            Progress::Pending(m) => Progress::Pending(
                LinuxTask { stage: LinuxTaskStage::StartOn(m) },
            ),
            Progress::Finished(r) => Progress::Finished(BackendReply::Interface(r)),
        }
    }

    fn renamed(p: Progress<StartAs, Result<WirelessInterface, Error>>) -> (r: Progress<
        LinuxTask,
        BackendReply,
    >)
        ensures
            Self::remaining(r) == crate::program::bind(StartAs::remaining(p), as_interface()),
    {
        match p {
            Progress::Pending(m) => Progress::Pending(
                LinuxTask { stage: LinuxTaskStage::StartAs(m) },
            ),
            Progress::Finished(r) => Progress::Finished(BackendReply::Interface(r)),
        }
    }

    fn tuned(p: Progress<Tune, Result<(), Error>>) -> (r: Progress<LinuxTask, BackendReply>)
        ensures
            Self::remaining(r) == crate::program::bind(Tune::remaining(p), as_done()),
    {
        match p {
            Progress::Pending(m) => Progress::Pending(
                LinuxTask { stage: LinuxTaskStage::Tune(m) },
            ),
            Progress::Finished(r) => Progress::Finished(BackendReply::Done(r)),
        }
    }

    fn stopped(p: Progress<Leave, Result<(), Error>>) -> (r: Progress<LinuxTask, BackendReply>)
        ensures
            Self::remaining(r) == crate::program::bind(Leave::remaining(p), as_done()),
    {
        match p {
            Progress::Pending(m) => Progress::Pending(
                LinuxTask { stage: LinuxTaskStage::Stop(m) },
            ),
            Progress::Finished(r) => Progress::Finished(BackendReply::Done(r)),
        }
    }

    /// A conversation that is pending has an open question.
    pub proof fn asks(self)
        ensures
            self.program() is Ask,
    {
        match self.stage {
            LinuxTaskStage::StartAuto(m) => m.asks(),
            LinuxTaskStage::StartOn(m) => m.asks(),
            LinuxTaskStage::StartAs(m) => m.asks(),
            LinuxTaskStage::Tune(m) => m.asks(),
            LinuxTaskStage::Stop(m) => m.asks(),
            _ => {},
        }
    }

    /// The operation whose outcome is awaited.
    pub fn request(&self) -> (op: LinuxOp)
        ensures
            self.program() is Ask,
            op@ == self.program()->Ask_0,
    {
        match &self.stage {
            LinuxTaskStage::Detect => LinuxOp::Detect,
            LinuxTaskStage::StartAuto(m) => m.request(),
            LinuxTaskStage::StartOn(m) => m.request(),
            LinuxTaskStage::StartAs(m) => m.request(),
            LinuxTaskStage::FindToRename { current, new } => LinuxOp::Detect,
            LinuxTaskStage::Rename { index, current, new } => LinuxOp::Rename {
                index: *index,
                old: current.clone(),
                new: new.clone(),
            },
            LinuxTaskStage::Tune(m) => m.request(),
            LinuxTaskStage::ReadTuning { index } => LinuxOp::ReadChannel { index: *index },
            LinuxTaskStage::Stop(m) => m.request(),
        }
    }

    /// Go on with the outcome of the requested operation.
    pub fn resume(self, reply: LinuxReply) -> (p: Progress<Self, BackendReply>)
        requires
            self.program()->Ask_0.answered_by(reply@),
        ensures
            Self::remaining(p) == (self.program()->Ask_1)(reply@),
    {
        proof {
            self.asks();
        }
        match self.stage {
            LinuxTaskStage::Detect => match reply {
                LinuxReply::Interfaces(r) => Progress::Finished(BackendReply::Interfaces(r)),
                _ => Progress::Pending(LinuxTask { stage: LinuxTaskStage::Detect }),
            },
            LinuxTaskStage::StartAuto(m) => {
                proof {
                    m.asks();
                }
                Self::auto(m.resume(reply))
            },
            LinuxTaskStage::StartOn(m) => {
                proof {
                    m.asks();
                }
                Self::named(m.resume(reply))
            },
            LinuxTaskStage::StartAs(m) => {
                proof {
                    m.asks();
                }
                Self::renamed(m.resume(reply))
            },
            LinuxTaskStage::FindToRename { current, new } => match look_up(
                reply,
                current.as_str(),
            ) {
                Ok(iface) => Progress::Pending(
                    LinuxTask {
                        stage: LinuxTaskStage::Rename { index: iface.index, current, new },
                    },
                ),
                Err(e) => Progress::Finished(BackendReply::Done(Err(e))),
            },
            LinuxTaskStage::Rename { index, current, new } => match reply {
                LinuxReply::Done(r) => Progress::Finished(BackendReply::Done(r)),
                _ => Progress::Pending(
                    LinuxTask { stage: LinuxTaskStage::Rename { index, current, new } },
                ),
            },
            LinuxTaskStage::Tune(m) => {
                proof {
                    m.asks();
                }
                Self::tuned(m.resume(reply))
            },
            LinuxTaskStage::ReadTuning { index } => match reply {
                LinuxReply::Channel(r) => Progress::Finished(BackendReply::Tuning(r)),
                _ => Progress::Pending(LinuxTask { stage: LinuxTaskStage::ReadTuning { index } }),
            },
            LinuxTaskStage::Stop(m) => {
                proof {
                    m.asks();
                }
                Self::stopped(m.resume(reply))
            },
        }
    }
}

} // verus!
