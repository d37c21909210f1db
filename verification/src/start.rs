//! Starting a session: on a chosen radio, on a named one, or under a new name.

use vstd::prelude::*;

use crate::enter::Enter;
use crate::errors::{Error, ErrorView};
use crate::handover::Holders;
use crate::interface::{InterfaceView, WirelessInterface};
use crate::leave::look_up;
use crate::ops::{LinuxOp, LinuxOpView, LinuxProgram, LinuxReply, LinuxReplyView};
use crate::program::{Program, Progress};
use crate::rollback::Rollback;
use crate::select::rank_candidates;

verus! {

/// Enter monitor mode on the interface of the given name, without any scoring.
pub open spec fn start_on_program(name: Seq<char>) -> LinuxProgram<
    Result<InterfaceView, ErrorView>,
> {
    Program::Ask(
        LinuxOpView::Detect,
        |r: LinuxReplyView|
            match crate::leave::looked_up(r->Interfaces_0, name) {
                Ok(iface) => crate::program::bind(
                    crate::enter::enter_program(iface),
                    entered(iface),
                ),
                Err(e) => Program::Return(Err(e)),
            },
    )
}

/// The end of an entry: the interface it was made on.
pub open spec fn entered(iface: InterfaceView) -> spec_fn(
    Result<Holders, ErrorView>,
) -> LinuxProgram<Result<InterfaceView, ErrorView>> {
    |r: Result<Holders, ErrorView>|
        match r {
            Ok(held) => Program::Return(Ok(iface)),
            Err(e) => Program::Return(Err(e)),
        }
}

/// How far a start on a named interface has come.
#[derive(Debug)]
enum StartOnStage {
    Finding { name: String },
    Entering(WirelessInterface, Enter),
}

/// The conversation that enters monitor mode on a named interface.
#[derive(Debug)]
pub struct StartOn {
    stage: StartOnStage,
}

impl StartOn {
    /// What remains of the conversation.
    pub closed spec fn program(self) -> LinuxProgram<Result<InterfaceView, ErrorView>> {
        match self.stage {
            StartOnStage::Finding { name } => start_on_program(name@),
            StartOnStage::Entering(iface, m) => crate::program::bind(
                m.program(),
                entered(iface@),
            ),
        }
    }

    /// What remains after a step.
    pub open spec fn remaining(
        p: Progress<StartOn, Result<WirelessInterface, Error>>,
    ) -> LinuxProgram<Result<InterfaceView, ErrorView>> {
        match p {
            Progress::Pending(m) => m.program(),
            Progress::Finished(r) => Program::Return(crate::names::interface_result(r)),
        }
    }

    /// Start on the interface `name`.
    pub fn start(name: &str) -> (m: StartOn)
        ensures
            m.program() == start_on_program(name@),
    {
        StartOn { stage: StartOnStage::Finding { name: name.to_owned() } }
    }

    /// Go on with the entry, or finish.
    fn entering(p: Progress<Enter, Result<Holders, Error>>, iface: WirelessInterface) -> (r:
        Progress<StartOn, Result<WirelessInterface, Error>>)
        ensures
            Self::remaining(r) == crate::program::bind(Enter::remaining(p), entered(iface@)),
    {
        match p {
            Progress::Pending(m) => Progress::Pending(
                StartOn { stage: StartOnStage::Entering(iface, m) },
            ),
            Progress::Finished(Ok(held)) => Progress::Finished(Ok(iface)),
            Progress::Finished(Err(e)) => Progress::Finished(Err(e)),
        }
    }

    /// A conversation that is pending has an open question.
    pub proof fn asks(self)
        ensures
            self.program() is Ask,
    {
        if let StartOnStage::Entering(iface, m) = self.stage {
            m.asks();
        }
    }

    /// The operation whose outcome is awaited.
    pub fn request(&self) -> (op: LinuxOp)
        ensures
            self.program() is Ask,
            op@ == self.program()->Ask_0,
    {
        match &self.stage {
            StartOnStage::Finding { name } => LinuxOp::Detect,
            StartOnStage::Entering(iface, m) => m.request(),
        }
    }

    /// Go on with the outcome of the requested operation.
    pub fn resume(self, reply: LinuxReply) -> (p: Progress<Self, Result<WirelessInterface, Error>>)
        requires
            self.program()->Ask_0.answered_by(reply@),
        ensures
            Self::remaining(p) == (self.program()->Ask_1)(reply@),
    {
        match self.stage {
            StartOnStage::Finding { name } => match look_up(reply, name.as_str()) {
                Ok(iface) => {
                    let p = Enter::start(&iface);
                    Self::entering(p, iface)
                },
                Err(e) => Progress::Finished(Err(e)),
            },
            StartOnStage::Entering(iface, m) => {
                proof {
                    m.asks();
                }
                Self::entering(m.resume(reply), iface)
            },
        }
    }
}

/// Enter monitor mode on the interface of the given name and rename it. Whatever
/// fails after the entry takes the whole session back.
pub open spec fn start_as_program(name: Seq<char>, new_name: Seq<char>) -> LinuxProgram<
    Result<InterfaceView, ErrorView>,
> {
    Program::Ask(
        LinuxOpView::Detect,
        |r: LinuxReplyView|
            match crate::leave::looked_up(r->Interfaces_0, name) {
                Ok(iface) => crate::program::bind(
                    crate::enter::enter_program(iface),
                    then_rename(iface, new_name),
                ),
                Err(e) => Program::Return(Err(e)),
            },
    )
}

/// After the entry: the rename.
pub open spec fn then_rename(iface: InterfaceView, new_name: Seq<char>) -> spec_fn(
    Result<Holders, ErrorView>,
) -> LinuxProgram<Result<InterfaceView, ErrorView>> {
    |r: Result<Holders, ErrorView>|
        match r {
            Ok(held) => rename_in(iface, new_name, held),
            Err(e) => Program::Return(Err(e)),
        }
}

/// Rename, and take the session back where that is reported to have failed. The
/// name is put back even then: a rename that took and then could not bring the
/// link up reports a failure too.
pub open spec fn rename_in(
    iface: InterfaceView,
    new_name: Seq<char>,
    held: Holders,
) -> LinuxProgram<Result<InterfaceView, ErrorView>> {
    Program::Ask(
        LinuxOpView::Rename { index: iface.index, old: iface.name, new: new_name },
        |r: LinuxReplyView|
            match r->Done_0 {
                Ok(u) => find_renamed(iface, new_name, held),
                Err(e) => take_back(iface, new_name, held, e),
            },
    )
}

/// Look the interface up under its new name; take the session back where it is
/// not there.
pub open spec fn find_renamed(
    iface: InterfaceView,
    new_name: Seq<char>,
    held: Holders,
) -> LinuxProgram<Result<InterfaceView, ErrorView>> {
    Program::Ask(
        LinuxOpView::Detect,
        |r: LinuxReplyView|
            match crate::leave::looked_up(r->Interfaces_0, new_name) {
                Ok(renamed) => Program::Return(Ok(renamed)),
                Err(e) => take_back(iface, new_name, held, e),
            },
    )
}

/// Take the whole session back, then report `error`.
pub open spec fn take_back(
    iface: InterfaceView,
    new_name: Seq<char>,
    held: Holders,
    error: ErrorView,
) -> LinuxProgram<Result<InterfaceView, ErrorView>> {
    crate::program::bind(
        crate::rollback::rename_back(iface, new_name, held, error),
        crate::enter::failing(),
    )
}

/// How far a start under a new name has come.
#[derive(Debug)]
enum StartAsStage {
    Finding { name: String, new_name: String },
    Entering(WirelessInterface, String, Enter),
    Renaming(WirelessInterface, String, Holders),
    FindingRenamed(WirelessInterface, String, Holders),
    RollingBack(Rollback),
}

/// The conversation that enters monitor mode on a named interface and renames it.
#[derive(Debug)]
pub struct StartAs {
    stage: StartAsStage,
}

impl StartAs {
    /// What remains of the conversation.
    pub closed spec fn program(self) -> LinuxProgram<Result<InterfaceView, ErrorView>> {
        match self.stage {
            StartAsStage::Finding { name, new_name } => start_as_program(name@, new_name@),
            StartAsStage::Entering(iface, new_name, m) => crate::program::bind(
                m.program(),
                then_rename(iface@, new_name@),
            ),
            StartAsStage::Renaming(iface, new_name, held) => rename_in(iface@, new_name@, held),
            StartAsStage::FindingRenamed(iface, new_name, held) => find_renamed(
                iface@,
                new_name@,
                held,
            ),
            StartAsStage::RollingBack(m) => crate::program::bind(
                m.program(),
                crate::enter::failing(),
            ),
        }
    }

    /// What remains after a step.
    pub open spec fn remaining(
        p: Progress<StartAs, Result<WirelessInterface, Error>>,
    ) -> LinuxProgram<Result<InterfaceView, ErrorView>> {
        match p {
            Progress::Pending(m) => m.program(),
            Progress::Finished(r) => Program::Return(crate::names::interface_result(r)),
        }
    }

    /// Start on the interface `name`, to be called `new_name`.
    pub fn start(name: &str, new_name: &str) -> (m: StartAs)
        ensures
            m.program() == start_as_program(name@, new_name@),
    {
        StartAs {
            stage: StartAsStage::Finding { name: name.to_owned(), new_name: new_name.to_owned() },
        }
    }

    /// Go on with the entry, or with what follows it.
    fn entering(
        p: Progress<Enter, Result<Holders, Error>>,
        iface: WirelessInterface,
        new_name: String,
    ) -> (r: Progress<StartAs, Result<WirelessInterface, Error>>)
        ensures
            Self::remaining(r) == crate::program::bind(
                Enter::remaining(p),
                then_rename(iface@, new_name@),
            ),
    {
        match p {
            Progress::Pending(m) => Progress::Pending(
                StartAs { stage: StartAsStage::Entering(iface, new_name, m) },
            ),
            Progress::Finished(Ok(held)) => Progress::Pending(
                StartAs { stage: StartAsStage::Renaming(iface, new_name, held) },
            ),
            Progress::Finished(Err(e)) => Progress::Finished(Err(e)),
        }
    }

    /// Go on with the rollback, or finish with its error.
    fn roll_back(p: Progress<Rollback, Error>) -> (r: Progress<
        StartAs,
        Result<WirelessInterface, Error>,
    >)
        ensures
            Self::remaining(r) == crate::program::bind(
                Rollback::remaining(p),
                crate::enter::failing::<InterfaceView>(),
            ),
    {
        match p {
            Progress::Pending(m) => Progress::Pending(
                StartAs { stage: StartAsStage::RollingBack(m) },
            ),
            Progress::Finished(e) => Progress::Finished(Err(e)),
        }
    }

    /// A conversation that is pending has an open question.
    pub proof fn asks(self)
        ensures
            self.program() is Ask,
    {
        match self.stage {
            StartAsStage::Entering(iface, new_name, m) => m.asks(),
            StartAsStage::RollingBack(m) => m.asks(),
            _ => {},
        }
    }

    /// The operation whose outcome is awaited.
    pub fn request(&self) -> (op: LinuxOp)
        ensures
            self.program() is Ask,
            op@ == self.program()->Ask_0,
    {
        match &self.stage {
            StartAsStage::Finding { name, new_name } => LinuxOp::Detect,
            StartAsStage::Entering(iface, new_name, m) => m.request(),
            StartAsStage::Renaming(iface, new_name, held) => LinuxOp::Rename {
                index: iface.index,
                old: iface.name.clone(),
                new: new_name.clone(),
            },
            StartAsStage::FindingRenamed(iface, new_name, held) => LinuxOp::Detect,
            StartAsStage::RollingBack(m) => m.request(),
        }
    }

    /// Go on with the outcome of the requested operation.
    pub fn resume(self, reply: LinuxReply) -> (p: Progress<Self, Result<WirelessInterface, Error>>)
        requires
            self.program()->Ask_0.answered_by(reply@),
        ensures
            Self::remaining(p) == (self.program()->Ask_1)(reply@),
    {
        match self.stage {
            StartAsStage::Finding { name, new_name } => match look_up(reply, name.as_str()) {
                Ok(iface) => {
                    let p = Enter::start(&iface);
                    Self::entering(p, iface, new_name)
                },
                Err(e) => Progress::Finished(Err(e)),
            },
            StartAsStage::Entering(iface, new_name, m) => {
                proof {
                    m.asks();
                }
                Self::entering(m.resume(reply), iface, new_name)
            },
            StartAsStage::Renaming(iface, new_name, held) => match reply {
                LinuxReply::Done(Err(e)) => Self::roll_back(
                    Progress::Pending(Rollback::rename_back(iface, new_name, held, e)),
                ),
                _ => Progress::Pending(
                    StartAs { stage: StartAsStage::FindingRenamed(iface, new_name, held) },
                ),
            },
            StartAsStage::FindingRenamed(iface, new_name, held) => match look_up(
                reply,
                new_name.as_str(),
            ) {
                Ok(renamed) => Progress::Finished(Ok(renamed)),
                Err(e) => Self::roll_back(
                    Progress::Pending(Rollback::rename_back(iface, new_name, held, e)),
                ),
            },
            StartAsStage::RollingBack(m) => {
                proof {
                    m.asks();
                }
                Self::roll_back(m.resume(reply))
            },
        }
    }
}

/// Select the best candidate and enter monitor mode on it, working down the
/// ranked list until one is confirmed.
pub open spec fn start_auto_program() -> LinuxProgram<Result<InterfaceView, ErrorView>> {
    Program::Ask(
        LinuxOpView::Detect,
        |r: LinuxReplyView|
            match r->Interfaces_0 {
                Ok(interfaces) => match crate::select::selection(interfaces) {
                    Ok(ranked) => attempts(ranked),
                    Err(e) => Program::Return(Err(e)),
                },
                Err(e) => Program::Return(Err(e)),
            },
    )
}

/// Try the candidates in order. The first that enters is the result; where all
/// refuse, it is the last refusal.
pub open spec fn attempts(ranked: Seq<InterfaceView>) -> LinuxProgram<
    Result<InterfaceView, ErrorView>,
>
    decreases ranked.len(),
{
    crate::program::bind(
        crate::enter::enter_program(ranked[0]),
        |r: Result<Holders, ErrorView>|
            match r {
                Ok(held) => Program::Return(Ok(ranked[0])),
                Err(e) => if ranked.len() <= 1 {
                    Program::Return(Err(e))
                } else {
                    attempts(ranked.drop_first())
                },
            },
    )
}

/// After an attempt: its interface, or the next candidate.
pub open spec fn after_attempt(ranked: Seq<InterfaceView>) -> spec_fn(
    Result<Holders, ErrorView>,
) -> LinuxProgram<Result<InterfaceView, ErrorView>> {
    |r: Result<Holders, ErrorView>|
        match r {
            Ok(held) => Program::Return(Ok(ranked[0])),
            Err(e) => if ranked.len() <= 1 {
                Program::Return(Err(e))
            } else {
                attempts(ranked.drop_first())
            },
        }
}

/// One attempt, and what follows it.
pub(crate) proof fn attempts_unfold(ranked: Seq<InterfaceView>)
    ensures
        attempts(ranked) == crate::program::bind(
            crate::enter::enter_program(ranked[0]),
            after_attempt(ranked),
        ),
{
    let f = |r: Result<Holders, ErrorView>|
        match r {
            Ok(held) => Program::Return(Ok(ranked[0])),
            Err(e) => if ranked.len() <= 1 {
                Program::Return(Err(e))
            } else {
                attempts(ranked.drop_first())
            },
        };
    assert(f =~= after_attempt(ranked));
}

/// How far a start on a radio of the library's choice has come.
#[derive(Debug)]
enum StartAutoStage {
    Detecting,
    Trying { enter: Enter, current: WirelessInterface, rest: Vec<WirelessInterface> },
}

/// The conversation that selects a radio and enters monitor mode on it.
#[derive(Debug)]
pub struct StartAuto {
    stage: StartAutoStage,
}

/// The candidates left, with the one being tried in front.
pub open spec fn remaining_candidates(
    current: WirelessInterface,
    rest: Seq<WirelessInterface>,
) -> Seq<InterfaceView> {
    seq![current@] + crate::interface::interface_views(rest)
}

impl StartAuto {
    /// What remains of the conversation.
    pub closed spec fn program(self) -> LinuxProgram<Result<InterfaceView, ErrorView>> {
        match self.stage {
            StartAutoStage::Detecting => start_auto_program(),
            StartAutoStage::Trying { enter, current, rest } => crate::program::bind(
                enter.program(),
                after_attempt(remaining_candidates(current, rest@)),
            ),
        }
    }

    /// What remains after a step.
    pub open spec fn remaining(
        p: Progress<StartAuto, Result<WirelessInterface, Error>>,
    ) -> LinuxProgram<Result<InterfaceView, ErrorView>> {
        match p {
            Progress::Pending(m) => m.program(),
            Progress::Finished(r) => Program::Return(crate::names::interface_result(r)),
        }
    }

    /// Start on a radio of the library's choice.
    pub fn start() -> (m: StartAuto)
        ensures
            m.program() == start_auto_program(),
    {
        StartAuto { stage: StartAutoStage::Detecting }
    }

    /// Try the first of the ranked candidates.
    fn attempt(ranked: Vec<WirelessInterface>) -> (r: Progress<
        StartAuto,
        Result<WirelessInterface, Error>,
    >)
        requires
            ranked.len() > 0,
        ensures
            Self::remaining(r) == attempts(crate::interface::interface_views(ranked@)),
        decreases ranked.len(), 0int,
    {
        let ghost views = crate::interface::interface_views(ranked@);
        let mut rest = ranked;
        let current = rest.remove(0);
        proof {
            attempts_unfold(views);
            assert(remaining_candidates(current, rest@) =~= views);
        }
        let p = Enter::start(&current);
        Self::trying(p, current, rest)
    }

    /// Go on with the attempt, with the next candidate, or finish.
    fn trying(
        p: Progress<Enter, Result<Holders, Error>>,
        current: WirelessInterface,
        rest: Vec<WirelessInterface>,
    ) -> (r: Progress<StartAuto, Result<WirelessInterface, Error>>)
        ensures
            Self::remaining(r) == crate::program::bind(
                Enter::remaining(p),
                after_attempt(remaining_candidates(current, rest@)),
            ),
        decreases rest.len(), 1int,
    {
        match p {
            Progress::Pending(enter) => Progress::Pending(
                StartAuto { stage: StartAutoStage::Trying { enter, current, rest } },
            ),
            Progress::Finished(Ok(held)) => Progress::Finished(Ok(current)),
            Progress::Finished(Err(e)) => if rest.len() == 0 {
                Progress::Finished(Err(e))
            } else {
                assert(remaining_candidates(current, rest@).drop_first()
                    =~= crate::interface::interface_views(rest@));
                Self::attempt(rest)
            },
        }
    }

    /// A conversation that is pending has an open question.
    pub proof fn asks(self)
        ensures
            self.program() is Ask,
    {
        if let StartAutoStage::Trying { enter, current, rest } = self.stage {
            enter.asks();
        }
    }

    /// The operation whose outcome is awaited.
    pub fn request(&self) -> (op: LinuxOp)
        ensures
            self.program() is Ask,
            op@ == self.program()->Ask_0,
    {
        match &self.stage {
            StartAutoStage::Detecting => LinuxOp::Detect,
            StartAutoStage::Trying { enter, current, rest } => enter.request(),
        }
    }

    /// Go on with the outcome of the requested operation.
    pub fn resume(self, reply: LinuxReply) -> (p: Progress<Self, Result<WirelessInterface, Error>>)
        requires
            self.program()->Ask_0.answered_by(reply@),
        ensures
            Self::remaining(p) == (self.program()->Ask_1)(reply@),
    {
        match self.stage {
            StartAutoStage::Detecting => match reply {
                LinuxReply::Interfaces(Ok(interfaces)) => {
                    proof {
                        crate::select::selection_is_never_empty(
                            crate::interface::interface_views(interfaces@),
                        );
                    }
                    match rank_candidates(interfaces) {
                        Ok(ranked) => Self::attempt(ranked),
                        Err(e) => Progress::Finished(Err(e)),
                    }
                },
                LinuxReply::Interfaces(Err(e)) => Progress::Finished(Err(e)),
                _ => Progress::Pending(StartAuto { stage: StartAutoStage::Detecting }),
            },
            StartAutoStage::Trying { enter, current, rest } => {
                proof {
                    enter.asks();
                }
                Self::trying(enter.resume(reply), current, rest)
            },
        }
    }
}

} // verus!
