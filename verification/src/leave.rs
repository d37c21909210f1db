//! Leaving monitor mode by name, and returning the interface to its services.
//!
//! Nothing here knows who held the interface: the call is stateless, and may come
//! after a crash or from another process. So the hand-back goes to whichever
//! services are running, and is a courtesy on top of the mode switch: where only
//! it fails, the interface has left monitor mode and the call succeeds.

use vstd::prelude::*;

use crate::errors::{Error, ErrorView, LinuxError, LinuxErrorView};
use crate::handover::{Holders, ReclaimStack};
use crate::interface::{InterfaceMode, InterfaceView, WirelessInterface};
use crate::names::find_named;
use crate::ops::{LinuxOp, LinuxOpView, LinuxProgram, LinuxReply, LinuxReplyView};
use crate::program::{Program, Progress};
use crate::rollback::switch_op;

verus! {

/// The interface of the given name in the outcome of an enumeration.
pub open spec fn looked_up(
    detected: Result<Seq<InterfaceView>, ErrorView>,
    name: Seq<char>,
) -> Result<InterfaceView, ErrorView> {
    match detected {
        Ok(interfaces) => crate::names::found(interfaces, name),
        Err(e) => Err(e),
    }
}

/// Find the interface of the given name in the outcome of an enumeration.
pub(crate) fn look_up(reply: LinuxReply, name: &str) -> (r: Result<WirelessInterface, Error>)
    requires
        reply@ is Interfaces,
    ensures
        crate::names::interface_result(r) == looked_up(reply@->Interfaces_0, name@),
{
    match reply {
        LinuxReply::Interfaces(Ok(interfaces)) => find_named(interfaces, name),
        LinuxReply::Interfaces(Err(e)) => Err(e),
        _ => {
            assert(false);
            Err(Error::NoInterfaces)
        },
    }
}

/// Leaving monitor mode. The mode is switched only where there is a switch to
/// make: switching bounces the link, which would drop a live association.
pub open spec fn leave_program(name: Seq<char>) -> LinuxProgram<Result<(), ErrorView>> {
    Program::Ask(
        LinuxOpView::Detect,
        |r: LinuxReplyView|
            match looked_up(r->Interfaces_0, name) {
                Ok(iface) => if iface.in_monitor() {
                    switch_out(iface)
                } else {
                    offer(name)
                },
                Err(e) => Program::Return(Err(e)),
            },
    )
}

/// Switch back to managed mode; the interface stays as it is where that fails.
pub open spec fn switch_out(iface: InterfaceView) -> LinuxProgram<Result<(), ErrorView>> {
    Program::Ask(
        crate::rollback::switch(iface, InterfaceMode::Managed),
        |r: LinuxReplyView|
            match r->Done_0 {
                Ok(u) => confirm_out(iface),
                Err(e) => Program::Return(Err(e)),
            },
    )
}

/// Read the mode back. An interface that is still not managed is not handed to
/// a service, which would only fight the driver over it.
pub open spec fn confirm_out(iface: InterfaceView) -> LinuxProgram<Result<(), ErrorView>> {
    Program::Ask(
        LinuxOpView::ReadMode { index: iface.index },
        |r: LinuxReplyView|
            match r->Mode_0 {
                Ok(actual) => if actual == InterfaceMode::Managed {
                    offer(iface.name)
                } else {
                    Program::Return(
                        Err(
                            ErrorView::Linux(
                                LinuxErrorView::ManagedVerifyFailed { iface: iface.name, actual },
                            ),
                        ),
                    )
                },
                Err(e) => Program::Return(Err(e)),
            },
    )
}

/// Offer the interface to every service that is running; always a success.
pub open spec fn offer(name: Seq<char>) -> LinuxProgram<Result<(), ErrorView>> {
    Program::Ask(
        LinuxOpView::NmPresent,
        |r: LinuxReplyView| offer_supplicant(name, r->Present_0),
    )
}

/// The rest of the offer, once it is known whether NetworkManager is running.
pub open spec fn offer_supplicant(name: Seq<char>, network_manager: bool) -> LinuxProgram<
    Result<(), ErrorView>,
> {
    Program::Ask(
        LinuxOpView::WpaPresent,
        |r: LinuxReplyView|
            crate::program::bind(
                crate::handover::reclaim_program(
                    name,
                    Holders { network_manager, supplicant: r->Present_0 },
                ),
                tolerant(),
            ),
    )
}

/// The end of an offer, however it went.
pub open spec fn tolerant() -> spec_fn(Result<(), ErrorView>) -> LinuxProgram<
    Result<(), ErrorView>,
> {
    |r: Result<(), ErrorView>| Program::Return(Ok(()))
}

/// How far a departure has come.
#[derive(Debug)]
enum LeaveStage {
    Finding { name: String },
    Switching(WirelessInterface),
    Confirming(WirelessInterface),
    ProbingNm { name: String },
    ProbingWpa { name: String, network_manager: bool },
    HandingBack(ReclaimStack),
}

/// The conversation that takes an interface out of monitor mode.
#[derive(Debug)]
pub struct Leave {
    stage: LeaveStage,
}

impl Leave {
    /// What remains of the conversation.
    pub closed spec fn program(self) -> LinuxProgram<Result<(), ErrorView>> {
        match self.stage {
            LeaveStage::Finding { name } => leave_program(name@),
            LeaveStage::Switching(iface) => switch_out(iface@),
            LeaveStage::Confirming(iface) => confirm_out(iface@),
            LeaveStage::ProbingNm { name } => offer(name@),
            LeaveStage::ProbingWpa { name, network_manager } => offer_supplicant(
                name@,
                network_manager,
            ),
            LeaveStage::HandingBack(m) => crate::program::bind(m.program(), tolerant()),
        }
    }

    /// What remains after a step.
    pub open spec fn remaining(p: Progress<Leave, Result<(), Error>>) -> LinuxProgram<
        Result<(), ErrorView>,
    > {
        match p {
            Progress::Pending(m) => m.program(),
            Progress::Finished(r) => Program::Return(crate::errors::unit_result(r)),
        }
    }

    /// Start leaving monitor mode on the interface `name`.
    pub fn start(name: &str) -> (m: Leave)
        ensures
            m.program() == leave_program(name@),
    {
        Leave { stage: LeaveStage::Finding { name: name.to_owned() } }
    }

    /// Go on with the hand-back, or finish.
    fn handing_back(p: Progress<ReclaimStack, Result<(), Error>>) -> (r: Progress<
        Leave,
        Result<(), Error>,
    >)
        ensures
            Self::remaining(r) == crate::program::bind(ReclaimStack::remaining(p), tolerant()),
    {
        match p {
            Progress::Pending(m) => Progress::Pending(Leave { stage: LeaveStage::HandingBack(m) }),
            Progress::Finished(r) => Progress::Finished(Ok(())),
        }
    }

    /// A conversation that is pending has an open question.
    pub proof fn asks(self)
        ensures
            self.program() is Ask,
    {
        if let LeaveStage::HandingBack(m) = self.stage {
            m.asks();
        }
    }

    /// The operation whose outcome is awaited.
    pub fn request(&self) -> (op: LinuxOp)
        ensures
            self.program() is Ask,
            op@ == self.program()->Ask_0,
    {
        match &self.stage {
            LeaveStage::Finding { name } => LinuxOp::Detect,
            LeaveStage::Switching(iface) => switch_op(iface, InterfaceMode::Managed),
            LeaveStage::Confirming(iface) => LinuxOp::ReadMode { index: iface.index },
            LeaveStage::ProbingNm { name } => LinuxOp::NmPresent,
            LeaveStage::ProbingWpa { name, network_manager } => LinuxOp::WpaPresent,
            LeaveStage::HandingBack(m) => m.request(),
        }
    }

    /// Go on with the outcome of the requested operation.
    pub fn resume(self, reply: LinuxReply) -> (p: Progress<Self, Result<(), Error>>)
        requires
            self.program()->Ask_0.answered_by(reply@),
        ensures
            Self::remaining(p) == (self.program()->Ask_1)(reply@),
    {
        let stage = match self.stage {
            LeaveStage::Finding { name } => {
                match look_up(reply, name.as_str()) {
                    Ok(iface) => if iface.is_monitor() {
                        LeaveStage::Switching(iface)
                    } else {
                        LeaveStage::ProbingNm { name }
                    },
                    Err(e) => {
                        return Progress::Finished(Err(e));
                    },
                }
            },
            LeaveStage::Switching(iface) => match reply {
                LinuxReply::Done(Err(e)) => {
                    return Progress::Finished(Err(e));
                },
                _ => LeaveStage::Confirming(iface),
            },
            LeaveStage::Confirming(iface) => match reply {
                LinuxReply::Mode(Ok(actual)) => if actual == InterfaceMode::Managed {
                    LeaveStage::ProbingNm { name: iface.name }
                } else {
                    return Progress::Finished(
                        Err(
                            Error::Linux(
                                LinuxError::ManagedVerifyFailed { iface: iface.name, actual },
                            ),
                        ),
                    );
                },
                LinuxReply::Mode(Err(e)) => {
                    return Progress::Finished(Err(e));
                },
                _ => LeaveStage::Confirming(iface),
            },
            LeaveStage::ProbingNm { name } => LeaveStage::ProbingWpa {
                name,
                network_manager: match reply {
                    LinuxReply::Present(present) => present,
                    _ => false,
                },
            },
            LeaveStage::ProbingWpa { name, network_manager } => {
                let supplicant = match reply {
                    LinuxReply::Present(present) => present,
                    _ => false,
                };
                let holders = Holders { network_manager, supplicant };
                return Self::handing_back(ReclaimStack::start(name.as_str(), holders));
            },
            LeaveStage::HandingBack(m) => {
                proof {
                    m.asks();
                }
                return Self::handing_back(m.resume(reply));
            },
        };
        Progress::Pending(Leave { stage })
    }
}

} // verus!
