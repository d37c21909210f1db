//! Taking an interface from the services that manage it, and handing it back.
//!
//! On many systems both NetworkManager and a standalone wpa_supplicant are
//! running, and releasing only through the first leaves the second free to pull
//! the interface back out of monitor mode. So both are asked to let go, and what
//! they held is recorded: the hand-back goes to exactly those services. A release
//! that the second refuses is undone with the first before it fails.

use vstd::prelude::*;

use crate::errors::{Error, ErrorView};
use crate::ops::{LinuxOp, LinuxOpView, LinuxProgram, LinuxReply, LinuxReplyView};
use crate::program::{Program, Progress};

verus! {

/// Which services were holding an interface when it was released.
#[derive(Debug, Clone, Copy, PartialEq, Eq, Structural)]
pub struct Holders {
    /// NetworkManager managed it.
    pub network_manager: bool,
    /// wpa_supplicant managed it.
    pub supplicant: bool,
}

impl Default for Holders {
    fn default() -> (h: Holders)
        ensures
            h == (Holders { network_manager: false, supplicant: false }),
    {
        Holders { network_manager: false, supplicant: false }
    }
}

impl Holders {
    /// Whether any service held the interface.
    pub fn any(self) -> (r: bool)
        ensures
            r == (self.network_manager || self.supplicant),
    {
        self.network_manager || self.supplicant
    }
}

/// Release the interface from every service that is present, NetworkManager
/// first. Where one refuses, whoever let go before gets the interface back, and the
/// refusal is the result. Otherwise the result says who held it.
pub open spec fn release_program(iface: Seq<char>) -> LinuxProgram<Result<Holders, ErrorView>> {
    Program::Ask(
        LinuxOpView::NmPresent,
        |r: LinuxReplyView|
            if r->Present_0 {
                Program::Ask(
                    LinuxOpView::NmRelease { iface },
                    |r: LinuxReplyView|
                        match r->Done_0 {
                            Ok(u) => release_supplicant(iface, true),
                            Err(e) => Program::Return(Err(e)),
                        },
                )
            } else {
                release_supplicant(iface, false)
            },
    )
}

/// The rest of a release, after NetworkManager.
pub open spec fn release_supplicant(iface: Seq<char>, network_manager: bool) -> LinuxProgram<
    Result<Holders, ErrorView>,
> {
    Program::Ask(
        LinuxOpView::WpaPresent,
        |r: LinuxReplyView|
            if r->Present_0 {
                Program::Ask(
                    LinuxOpView::WpaRelease { iface },
                    |r: LinuxReplyView|
                        match r->Done_0 {
                            Ok(u) => Program::Return(
                                Ok(Holders { network_manager, supplicant: true }),
                            ),
                            Err(e) => undo_release(
                                iface,
                                Holders { network_manager, supplicant: false },
                                e,
                            ),
                        },
                )
            } else {
                Program::Return(Ok(Holders { network_manager, supplicant: false }))
            },
    )
}

/// Hand the interface back to the services that let go of it before another
/// refused; the result is that refusal.
pub open spec fn undo_release(iface: Seq<char>, held: Holders, error: ErrorView) -> LinuxProgram<
    Result<Holders, ErrorView>,
> {
    crate::program::bind(reclaim_program(iface, held), refusal(error))
}

/// The end of a release that was refused, however the hand-back went.
pub open spec fn refusal(error: ErrorView) -> spec_fn(Result<(), ErrorView>) -> LinuxProgram<
    Result<Holders, ErrorView>,
> {
    |r: Result<(), ErrorView>| Program::Return(Err(error))
}

/// Hand the interface back to every service that held it, NetworkManager first;
/// stop at the first that refuses.
pub open spec fn reclaim_program(iface: Seq<char>, holders: Holders) -> LinuxProgram<
    Result<(), ErrorView>,
> {
    if holders.network_manager {
        Program::Ask(
            LinuxOpView::NmReclaim { iface },
            |r: LinuxReplyView|
                match r->Done_0 {
                    Ok(u) => reclaim_supplicant(iface, holders),
                    Err(e) => Program::Return(Err(e)),
                },
        )
    } else {
        reclaim_supplicant(iface, holders)
    }
}

/// The rest of a hand-back, after NetworkManager.
pub open spec fn reclaim_supplicant(iface: Seq<char>, holders: Holders) -> LinuxProgram<
    Result<(), ErrorView>,
> {
    if holders.supplicant {
        Program::Ask(
            LinuxOpView::WpaReclaim { iface },
            |r: LinuxReplyView| Program::Return(r->Done_0),
        )
    } else {
        Program::Return(Ok(()))
    }
}

/// Which question of a release is open.
#[derive(Debug)]
enum ReleaseStage {
    NmPresent,
    NmRelease,
    WpaPresent { network_manager: bool },
    WpaRelease { network_manager: bool },
    HandingBack { error: Error, reclaim: ReclaimStack },
}

/// The conversation that releases an interface from the services present.
#[derive(Debug)]
pub struct ReleaseStack {
    iface: String,
    stage: ReleaseStage,
}

/// The contents of a release's result.
pub open spec fn holders_result(r: Result<Holders, Error>) -> Result<Holders, ErrorView> {
    match r {
        Ok(h) => Ok(h),
        Err(e) => Err(e@),
    }
}

impl ReleaseStack {
    /// What remains of the conversation.
    pub closed spec fn program(self) -> LinuxProgram<Result<Holders, ErrorView>> {
        let iface = self.iface@;
        match self.stage {
            ReleaseStage::NmPresent => release_program(iface),
            ReleaseStage::NmRelease => Program::Ask(
                LinuxOpView::NmRelease { iface },
                |r: LinuxReplyView|
                    match r->Done_0 {
                        Ok(u) => release_supplicant(iface, true),
                        Err(e) => Program::Return(Err(e)),
                    },
            ),
            ReleaseStage::WpaPresent { network_manager } => release_supplicant(
                iface,
                network_manager,
            ),
            ReleaseStage::WpaRelease { network_manager } => Program::Ask(
                LinuxOpView::WpaRelease { iface },
                |r: LinuxReplyView|
                    match r->Done_0 {
                        Ok(u) => Program::Return(Ok(Holders { network_manager, supplicant: true })),
                        Err(e) => undo_release(
                            iface,
                            Holders { network_manager, supplicant: false },
                            e,
                        ),
                    },
            ),
            ReleaseStage::HandingBack { error, reclaim } => crate::program::bind(
                reclaim.program(),
                refusal(error@),
            ),
        }
    }

    /// What remains after a step.
    pub open spec fn remaining(p: Progress<ReleaseStack, Result<Holders, Error>>) -> LinuxProgram<
        Result<Holders, ErrorView>,
    > {
        match p {
            Progress::Pending(m) => m.program(),
            Progress::Finished(r) => Program::Return(holders_result(r)),
        }
    }

    /// Start releasing `iface`.
    pub fn start(iface: &str) -> (m: ReleaseStack)
        ensures
            m.program() == release_program(iface@),
    {
        ReleaseStack { iface: iface.to_owned(), stage: ReleaseStage::NmPresent }
    }

    /// Go on with the hand-back, or finish with the refusal.
    fn handing_back(
        p: Progress<ReclaimStack, Result<(), Error>>,
        iface: String,
        error: Error,
    ) -> (r: Progress<ReleaseStack, Result<Holders, Error>>)
        ensures
            Self::remaining(r) == crate::program::bind(
                ReclaimStack::remaining(p),
                refusal(error@),
            ),
    {
        match p {
            Progress::Pending(reclaim) => Progress::Pending(
                ReleaseStack { iface, stage: ReleaseStage::HandingBack { error, reclaim } },
            ),
            Progress::Finished(r) => Progress::Finished(Err(error)),
        }
    }

    /// A conversation that is pending has an open question.
    pub proof fn asks(self)
        ensures
            self.program() is Ask,
    {
        if let ReleaseStage::HandingBack { error, reclaim } = self.stage {
            reclaim.asks();
        }
    }

    /// The operation whose outcome is awaited.
    pub fn request(&self) -> (op: LinuxOp)
        ensures
            self.program() is Ask,
            op@ == self.program()->Ask_0,
    {
        match &self.stage {
            ReleaseStage::NmPresent => LinuxOp::NmPresent,
            ReleaseStage::NmRelease => LinuxOp::NmRelease { iface: self.iface.clone() },
            ReleaseStage::WpaPresent { network_manager } => LinuxOp::WpaPresent,
            ReleaseStage::WpaRelease { network_manager } => LinuxOp::WpaRelease {
                iface: self.iface.clone(),
            },
            ReleaseStage::HandingBack { error, reclaim } => reclaim.request(),
        }
    }

    /// Go on with the outcome of the requested operation.
    pub fn resume(self, reply: LinuxReply) -> (p: Progress<Self, Result<Holders, Error>>)
        requires
            self.program()->Ask_0.answered_by(reply@),
        ensures
            Self::remaining(p) == (self.program()->Ask_1)(reply@),
    {
        let iface = self.iface;
        match (self.stage, reply) {
            (ReleaseStage::NmPresent, LinuxReply::Present(true)) => Progress::Pending(
                ReleaseStack { iface, stage: ReleaseStage::NmRelease },
            ),
            (ReleaseStage::NmPresent, _) => Progress::Pending(
                ReleaseStack { iface, stage: ReleaseStage::WpaPresent { network_manager: false } },
            ),
            (ReleaseStage::NmRelease, LinuxReply::Done(Err(e))) => Progress::Finished(Err(e)),
            (ReleaseStage::NmRelease, _) => Progress::Pending(
                ReleaseStack { iface, stage: ReleaseStage::WpaPresent { network_manager: true } },
            ),
            (ReleaseStage::WpaPresent { network_manager }, LinuxReply::Present(true)) =>
                Progress::Pending(
                ReleaseStack { iface, stage: ReleaseStage::WpaRelease { network_manager } },
            ),
            (ReleaseStage::WpaPresent { network_manager }, _) => Progress::Finished(
                Ok(Holders { network_manager, supplicant: false }),
            ),
            (ReleaseStage::WpaRelease { network_manager }, LinuxReply::Done(Err(e))) => {
                let held = Holders { network_manager, supplicant: false };
                let p = ReclaimStack::start(iface.as_str(), held);
                Self::handing_back(p, iface, e)
            },
            (ReleaseStage::WpaRelease { network_manager }, _) => Progress::Finished(
                Ok(Holders { network_manager, supplicant: true }),
            ),
            (ReleaseStage::HandingBack { error, reclaim }, reply) => {
                proof {
                    reclaim.asks();
                }
                Self::handing_back(reclaim.resume(reply), iface, error)
            },
        }
    }
}

/// The conversation that hands an interface back to the services that held it.
#[derive(Debug)]
pub struct ReclaimStack {
    iface: String,
    // Whether NetworkManager is the service being asked now, and wpa_supplicant
    // is to follow if it held the interface; otherwise wpa_supplicant is.
    network_manager: bool,
    supplicant: bool,
}

impl ReclaimStack {
    /// What remains of the conversation.
    pub closed spec fn program(self) -> LinuxProgram<Result<(), ErrorView>> {
        if self.network_manager {
            reclaim_program(
                self.iface@,
                Holders { network_manager: true, supplicant: self.supplicant },
            )
        } else {
            reclaim_supplicant(
                self.iface@,
                Holders { network_manager: false, supplicant: true },
            )
        }
    }

    /// What remains after a step.
    pub open spec fn remaining(p: Progress<ReclaimStack, Result<(), Error>>) -> LinuxProgram<
        Result<(), ErrorView>,
    > {
        match p {
            Progress::Pending(m) => m.program(),
            Progress::Finished(r) => Program::Return(crate::errors::unit_result(r)),
        }
    }

    /// Start handing `iface` back to `holders`.
    pub fn start(iface: &str, holders: Holders) -> (p: Progress<Self, Result<(), Error>>)
        ensures
            Self::remaining(p) == reclaim_program(iface@, holders),
    {
        if holders.any() {
            Progress::Pending(
                ReclaimStack {
                    iface: iface.to_owned(),
                    network_manager: holders.network_manager,
                    supplicant: holders.supplicant,
                },
            )
        } else {
            Progress::Finished(Ok(()))
        }
    }

    /// A conversation that is pending has an open question.
    pub proof fn asks(self)
        ensures
            self.program() is Ask,
    {
    }

    /// The operation whose outcome is awaited.
    pub fn request(&self) -> (op: LinuxOp)
        ensures
            self.program() is Ask,
            op@ == self.program()->Ask_0,
    {
        if self.network_manager {
            LinuxOp::NmReclaim { iface: self.iface.clone() }
        } else {
            LinuxOp::WpaReclaim { iface: self.iface.clone() }
        }
    }

    /// Go on with the outcome of the requested operation.
    pub fn resume(self, reply: LinuxReply) -> (p: Progress<Self, Result<(), Error>>)
        requires
            self.program()->Ask_0.answered_by(reply@),
        ensures
            Self::remaining(p) == (self.program()->Ask_1)(reply@),
    {
        match reply {
            LinuxReply::Done(Err(e)) => Progress::Finished(Err(e)),
            _ => if self.network_manager && self.supplicant {
                Progress::Pending(
                    ReclaimStack {
                        iface: self.iface,
                        network_manager: false,
                        supplicant: true,
                    },
                )
            } else {
                Progress::Finished(Ok(()))
            },
        }
    }
}

} // verus!
