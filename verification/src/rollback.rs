//! Undoing a session that could not be brought up.
//!
//! Whatever was applied is taken back in reverse order, best effort: the new
//! name, then the mode, then the interface itself goes back to the services it
//! was taken from. None of these failing changes what the caller is told, which
//! is the error that made the rollback necessary.

use vstd::prelude::*;

use crate::errors::{Error, ErrorView};
use crate::handover::{Holders, ReclaimStack};
use crate::interface::{InterfaceMode, InterfaceView, WirelessInterface};
use crate::ops::{LinuxOp, LinuxOpView, LinuxProgram, LinuxReply, LinuxReplyView};
use crate::program::{Program, Progress};

verus! {

/// The switch of an interface into a mode.
pub open spec fn switch(iface: InterfaceView, mode: InterfaceMode) -> LinuxOpView {
    LinuxOpView::SetMode { index: iface.index, name: iface.name, mode }
}

/// Request the switch of an interface into a mode.
pub fn switch_op(iface: &WirelessInterface, mode: InterfaceMode) -> (op: LinuxOp)
    ensures
        op@ == switch(iface@, mode),
{
    LinuxOp::SetMode { index: iface.index, name: iface.name.clone(), mode }
}

/// Hand the interface back to its holders; the result is the error given.
pub open spec fn hand_back(iface: Seq<char>, held: Holders, error: ErrorView) -> LinuxProgram<
    ErrorView,
> {
    crate::program::bind(crate::handover::reclaim_program(iface, held), after_hand_back(error))
}

/// The end of a hand-back, however it went.
pub open spec fn after_hand_back(error: ErrorView) -> spec_fn(Result<(), ErrorView>) -> LinuxProgram<
    ErrorView,
> {
    |r: Result<(), ErrorView>| Program::Return(error)
}

/// Switch the interface back to managed mode, then hand it back.
pub open spec fn switch_back(iface: InterfaceView, held: Holders, error: ErrorView) -> LinuxProgram<
    ErrorView,
> {
    Program::Ask(
        switch(iface, InterfaceMode::Managed),
        |r: LinuxReplyView| hand_back(iface.name, held, error),
    )
}

/// Give the interface its own name back, switch it back to managed mode, then
/// hand it back.
pub open spec fn rename_back(
    iface: InterfaceView,
    new_name: Seq<char>,
    held: Holders,
    error: ErrorView,
) -> LinuxProgram<ErrorView> {
    Program::Ask(
        LinuxOpView::Rename { index: iface.index, old: new_name, new: iface.name },
        |r: LinuxReplyView| switch_back(iface, held, error),
    )
}

/// How far a rollback has come.
#[derive(Debug)]
enum RollbackStage {
    Renaming { new_name: String },
    Switching,
    HandingBack(ReclaimStack),
}

/// The conversation that takes back a session.
#[derive(Debug)]
pub struct Rollback {
    iface: WirelessInterface,
    held: Holders,
    error: Error,
    stage: RollbackStage,
}

impl Rollback {
    /// What remains of the conversation.
    pub closed spec fn program(self) -> LinuxProgram<ErrorView> {
        match self.stage {
            RollbackStage::Renaming { new_name } => rename_back(
                self.iface@,
                new_name@,
                self.held,
                self.error@,
            ),
            RollbackStage::Switching => switch_back(self.iface@, self.held, self.error@),
            RollbackStage::HandingBack(m) => crate::program::bind(
                m.program(),
                after_hand_back(self.error@),
            ),
        }
    }

    /// What remains after a step.
    pub open spec fn remaining(p: Progress<Rollback, Error>) -> LinuxProgram<ErrorView> {
        match p {
            Progress::Pending(m) => m.program(),
            Progress::Finished(e) => Program::Return(e@),
        }
    }

    /// Start with the new name: the interface may carry it.
    pub fn rename_back(
        iface: WirelessInterface,
        new_name: String,
        held: Holders,
        error: Error,
    ) -> (m: Rollback)
        ensures
            m.program() == rename_back(iface@, new_name@, held, error@),
    {
        Rollback { iface, held, error, stage: RollbackStage::Renaming { new_name } }
    }

    /// Start with the mode: the interface may have been switched.
    pub fn switch_back(iface: WirelessInterface, held: Holders, error: Error) -> (m: Rollback)
        ensures
            m.program() == switch_back(iface@, held, error@),
    {
        Rollback { iface, held, error, stage: RollbackStage::Switching }
    }

    /// Start with the hand-back: the interface was released and nothing else.
    pub fn hand_back(iface: WirelessInterface, held: Holders, error: Error) -> (p: Progress<
        Rollback,
        Error,
    >)
        ensures
            Self::remaining(p) == hand_back(iface@.name, held, error@),
    {
        let p = ReclaimStack::start(iface.name.as_str(), held);
        Self::handing_back(p, iface, held, error)
    }

    /// Go on with the hand-back, or finish.
    fn handing_back(
        p: Progress<ReclaimStack, Result<(), Error>>,
        iface: WirelessInterface,
        held: Holders,
        error: Error,
    ) -> (r: Progress<Rollback, Error>)
        ensures
            Self::remaining(r) == crate::program::bind(
                ReclaimStack::remaining(p),
                after_hand_back(error@),
            ),
    {
        match p {
            Progress::Pending(m) => Progress::Pending(
                Rollback { iface, held, error, stage: RollbackStage::HandingBack(m) },
            ),
            Progress::Finished(r) => Progress::Finished(error),
        }
    }

    /// A conversation that is pending has an open question.
    pub proof fn asks(self)
        ensures
            self.program() is Ask,
    {
        if let RollbackStage::HandingBack(m) = self.stage {
            m.asks();
        }
    }

    /// The operation whose outcome is awaited.
    pub fn request(&self) -> (op: LinuxOp)
        ensures
            self.program() is Ask,
            op@ == self.program()->Ask_0,
    {
        match &self.stage {
            RollbackStage::Renaming { new_name } => LinuxOp::Rename {
                index: self.iface.index,
                old: new_name.clone(),
                new: self.iface.name.clone(),
            },
            RollbackStage::Switching => switch_op(&self.iface, InterfaceMode::Managed),
            RollbackStage::HandingBack(m) => m.request(),
        }
    }

    /// Go on with the outcome of the requested operation.
    pub fn resume(self, reply: LinuxReply) -> (p: Progress<Self, Error>)
        requires
            self.program()->Ask_0.answered_by(reply@),
        ensures
            Self::remaining(p) == (self.program()->Ask_1)(reply@),
    {
        match self.stage {
            RollbackStage::Renaming { new_name } => Progress::Pending(
                Rollback {
                    iface: self.iface,
                    held: self.held,
                    error: self.error,
                    stage: RollbackStage::Switching,
                },
            ),
            RollbackStage::Switching => Self::hand_back(self.iface, self.held, self.error),
            RollbackStage::HandingBack(m) => {
                proof {
                    m.asks();
                }
                Self::handing_back(m.resume(reply), self.iface, self.held, self.error)
            },
        }
    }
}

} // verus!
