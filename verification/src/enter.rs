//! Entering monitor mode on a resolved interface.
//!
//! Release it from the services that manage it, switch the mode, and confirm the
//! switch by reading the mode back: some adapters accept a switch without
//! honoring it. Whatever fails once a service has let go is rolled back before the
//! error is returned, so that no interface is left stranded.

use vstd::prelude::*;

use crate::errors::{Error, ErrorView, LinuxError, LinuxErrorView};
use crate::handover::{Holders, ReleaseStack};
use crate::interface::{InterfaceMode, InterfaceView, WirelessInterface};
use crate::ops::{LinuxOp, LinuxOpView, LinuxProgram, LinuxReply, LinuxReplyView};
use crate::program::{Program, Progress};
use crate::rollback::{switch_op, Rollback};

verus! {

/// The end of a rollback: its error is the result.
pub open spec fn failing<T>() -> spec_fn(ErrorView) -> LinuxProgram<Result<T, ErrorView>> {
    |e: ErrorView| Program::Return(Err(e))
}

/// Entering monitor mode. A radio that is already in monitor mode is refused
/// before anything is touched.
pub open spec fn enter_program(iface: InterfaceView) -> LinuxProgram<Result<Holders, ErrorView>> {
    if iface.in_monitor() {
        Program::Return(Err(ErrorView::AlreadyMonitor { iface: iface.name }))
    } else {
        crate::program::bind(crate::handover::release_program(iface.name), after_release(iface))
    }
}

/// After the release: switch, or stop where a service refused to let go, by which
/// time the release has been undone.
pub open spec fn after_release(iface: InterfaceView) -> spec_fn(
    Result<Holders, ErrorView>,
) -> LinuxProgram<Result<Holders, ErrorView>> {
    |r: Result<Holders, ErrorView>|
        match r {
            Ok(held) => switch_in(iface, held),
            Err(e) => Program::Return(Err(e)),
        }
}

/// Switch to monitor mode; hand the interface back where that fails.
pub open spec fn switch_in(iface: InterfaceView, held: Holders) -> LinuxProgram<
    Result<Holders, ErrorView>,
> {
    Program::Ask(
        crate::rollback::switch(iface, InterfaceMode::Monitor),
        |r: LinuxReplyView|
            match r->Done_0 {
                Ok(u) => confirm(iface, held),
                Err(e) => crate::program::bind(
                    crate::rollback::hand_back(iface.name, held, e),
                    failing(),
                ),
            },
    )
}

/// Read the mode back; only monitor mode is a success.
pub open spec fn confirm(iface: InterfaceView, held: Holders) -> LinuxProgram<
    Result<Holders, ErrorView>,
> {
    Program::Ask(
        LinuxOpView::ReadMode { index: iface.index },
        |r: LinuxReplyView|
            if r->Mode_0 == Ok::<InterfaceMode, ErrorView>(InterfaceMode::Monitor) {
                Program::Return(Ok(held))
            } else {
                crate::program::bind(
                    crate::rollback::switch_back(iface, held, unconfirmed(iface, r->Mode_0)),
                    failing(),
                )
            },
    )
}

/// The error of a readback that did not say monitor mode.
pub open spec fn unconfirmed(
    iface: InterfaceView,
    read: Result<InterfaceMode, ErrorView>,
) -> ErrorView {
    match read {
        Ok(mode) => ErrorView::Linux(LinuxErrorView::MonitorVerifyFailed { iface: iface.name }),
        Err(e) => e,
    }
}

/// How far an entry has come.
#[derive(Debug)]
enum EnterStage {
    Releasing(WirelessInterface, ReleaseStack),
    Switching(WirelessInterface, Holders),
    Confirming(WirelessInterface, Holders),
    RollingBack(Rollback),
}

/// The conversation that puts an interface into monitor mode.
#[derive(Debug)]
pub struct Enter {
    stage: EnterStage,
}

impl Enter {
    /// What remains of the conversation.
    pub closed spec fn program(self) -> LinuxProgram<Result<Holders, ErrorView>> {
        match self.stage {
            EnterStage::Releasing(iface, m) => crate::program::bind(
                m.program(),
                after_release(iface@),
            ),
            EnterStage::Switching(iface, held) => switch_in(iface@, held),
            EnterStage::Confirming(iface, held) => confirm(iface@, held),
            EnterStage::RollingBack(m) => crate::program::bind(m.program(), failing()),
        }
    }

    /// What remains after a step.
    pub open spec fn remaining(p: Progress<Enter, Result<Holders, Error>>) -> LinuxProgram<
        Result<Holders, ErrorView>,
    > {
        match p {
            Progress::Pending(m) => m.program(),
            Progress::Finished(r) => Program::Return(crate::handover::holders_result(r)),
        }
    }

    /// Start entering monitor mode on `iface`.
    pub fn start(iface: &WirelessInterface) -> (p: Progress<Enter, Result<Holders, Error>>)
        ensures
            Self::remaining(p) == enter_program(iface@),
    {
        if iface.is_monitor() {
            return Progress::Finished(Err(Error::AlreadyMonitor { iface: iface.name.clone() }));
        }
        let release = ReleaseStack::start(iface.name.as_str());
        Progress::Pending(Enter { stage: EnterStage::Releasing(iface.clone(), release) })
    }

    /// Go on with the release, or with what follows it.
    fn release(p: Progress<ReleaseStack, Result<Holders, Error>>, iface: WirelessInterface) -> (r:
        Progress<Enter, Result<Holders, Error>>)
        ensures
            Self::remaining(r) == crate::program::bind(
                ReleaseStack::remaining(p),
                after_release(iface@),
            ),
    {
        match p {
            Progress::Pending(m) => Progress::Pending(
                Enter { stage: EnterStage::Releasing(iface, m) },
            ),
            Progress::Finished(Ok(held)) => Progress::Pending(
                Enter { stage: EnterStage::Switching(iface, held) },
            ),
            Progress::Finished(Err(e)) => Progress::Finished(Err(e)),
        }
    }

    /// Go on with a rollback, or finish with its error.
    fn roll_back(p: Progress<Rollback, Error>) -> (r: Progress<Enter, Result<Holders, Error>>)
        ensures
            Self::remaining(r) == crate::program::bind(
                Rollback::remaining(p),
                failing::<Holders>(),
            ),
    {
        match p {
            Progress::Pending(m) => Progress::Pending(Enter { stage: EnterStage::RollingBack(m) }),
            Progress::Finished(e) => Progress::Finished(Err(e)),
        }
    }

    /// A conversation that is pending has an open question.
    pub proof fn asks(self)
        ensures
            self.program() is Ask,
    {
        match self.stage {
            EnterStage::Releasing(iface, m) => m.asks(),
            EnterStage::RollingBack(m) => m.asks(),
            _ => {},
        }
    }

    /// The operation whose outcome is awaited.
    pub fn request(&self) -> (op: LinuxOp)
        ensures
            self.program() is Ask,
            op@ == self.program()->Ask_0,
    {
        match &self.stage {
            EnterStage::Releasing(iface, m) => m.request(),
            EnterStage::Switching(iface, held) => switch_op(iface, InterfaceMode::Monitor),
            EnterStage::Confirming(iface, held) => LinuxOp::ReadMode { index: iface.index },
            EnterStage::RollingBack(m) => m.request(),
        }
    }

    /// Go on with the outcome of the requested operation.
    pub fn resume(self, reply: LinuxReply) -> (p: Progress<Self, Result<Holders, Error>>)
        requires
            self.program()->Ask_0.answered_by(reply@),
        ensures
            Self::remaining(p) == (self.program()->Ask_1)(reply@),
    {
        match self.stage {
            EnterStage::Releasing(iface, m) => {
                proof {
                    m.asks();
                }
                Self::release(m.resume(reply), iface)
            },
            EnterStage::Switching(iface, held) => match reply {
                LinuxReply::Done(Err(e)) => Self::roll_back(Rollback::hand_back(iface, held, e)),
                _ => Progress::Pending(Enter { stage: EnterStage::Confirming(iface, held) }),
            },
            EnterStage::Confirming(iface, held) => {
                let error = match reply {
                    LinuxReply::Mode(Ok(InterfaceMode::Monitor)) => {
                        return Progress::Finished(Ok(held));
                    },
                    LinuxReply::Mode(Err(e)) => e,
                    _ => Error::Linux(
                        LinuxError::MonitorVerifyFailed { iface: iface.name.clone() },
                    ),
                };
                Self::roll_back(Progress::Pending(Rollback::switch_back(iface, held, error)))
            },
            EnterStage::RollingBack(m) => {
                proof {
                    m.asks();
                }
                Self::roll_back(m.resume(reply))
            },
        }
    }
}

} // verus!
