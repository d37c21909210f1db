//! Switching, renaming and tuning one link.
//!
//! Drivers refuse a type change and the kernel refuses a rename while the link is
//! up, so both bring it down first. Whatever happens in between, bringing it up
//! again is attempted before the result is returned.

use vstd::prelude::*;

use crate::errors::{Error, ErrorView, LinuxError, LinuxErrorView};
use crate::interface::{ChannelWidth, InterfaceMode};
use crate::nl80211::mode_to_iftype;
use crate::program::{Program, Progress};

verus! {

/// One request to the kernel.
#[derive(Debug)]
pub enum LinkOp {
    /// Open an rtnetlink socket.
    OpenRoute,
    /// Open an nl80211 socket.
    OpenWireless,
    /// Bring a link up or down.
    SetLink {
        /// Index of the interface.
        index: u32,
        /// Up, or down.
        up: bool,
    },
    /// Give a link a name.
    SetName {
        /// Index of the interface.
        index: u32,
        /// The name.
        name: String,
    },
    /// Set the nl80211 interface type.
    SetIftype {
        /// Index of the interface.
        index: u32,
        /// The type.
        iftype: u32,
    },
    /// Set the operating channel.
    SetWiphy {
        /// Index of the interface.
        index: u32,
        /// Primary center frequency, in MHz.
        freq_mhz: u32,
        /// Channel width.
        width: ChannelWidth,
    },
}

/// The contents of a [`LinkOp`].
pub enum LinkOpView {
    /// Open an rtnetlink socket.
    OpenRoute,
    /// Open an nl80211 socket.
    OpenWireless,
    /// Bring a link up or down.
    SetLink { index: u32, up: bool },
    /// Give a link a name.
    SetName { index: u32, name: Seq<char> },
    /// Set the nl80211 interface type.
    SetIftype { index: u32, iftype: u32 },
    /// Set the operating channel.
    SetWiphy { index: u32, freq_mhz: u32, width: ChannelWidth },
}

impl View for LinkOp {
    type V = LinkOpView;

    open spec fn view(&self) -> LinkOpView {
        match self {
            LinkOp::OpenRoute => LinkOpView::OpenRoute,
            LinkOp::OpenWireless => LinkOpView::OpenWireless,
            LinkOp::SetLink { index, up } => LinkOpView::SetLink { index: *index, up: *up },
            LinkOp::SetName { index, name } => LinkOpView::SetName { index: *index, name: name@ },
            LinkOp::SetIftype { index, iftype } => LinkOpView::SetIftype {
                index: *index,
                iftype: *iftype,
            },
            LinkOp::SetWiphy { index, freq_mhz, width } => LinkOpView::SetWiphy {
                index: *index,
                freq_mhz: *freq_mhz,
                width: *width,
            },
        }
    }
}

/// The outcome of a request: done, or the text of the error.
pub type LinkReplyView = Result<(), Seq<char>>;

/// A conversation over requests to the kernel.
pub type LinkProgram = Program<LinkOpView, LinkReplyView, Result<(), ErrorView>>;

/// What remains after a request: what `next` says where it was done, and the
/// error otherwise.
pub open spec fn or_fail(r: LinkReplyView, next: LinkProgram, error: LinuxErrorView) -> LinkProgram {
    match r {
        Ok(u) => next,
        Err(source) => Program::Return(Err(ErrorView::Linux(error))),
    }
}

/// The error of a socket that could not be opened.
pub open spec fn not_opened(kind: Seq<char>, r: LinkReplyView) -> LinuxErrorView {
    LinuxErrorView::NetlinkConnect { kind, phase: "connect"@, source: r->Err_0 }
}

/// The error of a link that could not be brought up or down.
pub open spec fn not_set(op: Seq<char>, iface: Seq<char>, r: LinkReplyView) -> LinuxErrorView {
    LinuxErrorView::LinkSet { op, iface, source: r->Err_0 }
}

/// Switching an interface into a mode.
pub open spec fn switch_program(index: u32, name: Seq<char>, mode: InterfaceMode) -> LinkProgram {
    Program::Ask(
        LinkOpView::OpenRoute,
        |r: LinkReplyView|
            or_fail(r, switch_down(index, name, mode), not_opened("rtnetlink"@, r)),
    )
}

/// Bring the link down, then set the type.
pub open spec fn switch_down(index: u32, name: Seq<char>, mode: InterfaceMode) -> LinkProgram {
    Program::Ask(
        LinkOpView::SetLink { index, up: false },
        |r: LinkReplyView|
            or_fail(r, switch_open(index, name, mode), not_set("down"@, name, r)),
    )
}

/// Open the socket on which the type is set. From here on a failure brings the
/// link up again.
pub open spec fn switch_open(index: u32, name: Seq<char>, mode: InterfaceMode) -> LinkProgram {
    Program::Ask(
        LinkOpView::OpenWireless,
        |r: LinkReplyView|
            match r {
                Ok(u) => switch_type(index, name, mode),
                Err(source) => lift(index, ErrorView::Linux(not_opened("nl80211"@, r))),
            },
    )
}

/// Set the type.
pub open spec fn switch_type(index: u32, name: Seq<char>, mode: InterfaceMode) -> LinkProgram {
    Program::Ask(
        LinkOpView::SetIftype { index, iftype: crate::nl80211::iftype_of_mode(mode) },
        |r: LinkReplyView|
            match r {
                Ok(u) => switch_up(index, name),
                Err(source) => lift(
                    index,
                    ErrorView::Linux(LinuxErrorView::SetMode { iface: name, source }),
                ),
            },
    )
}

/// Bring the link up in its new mode.
pub open spec fn switch_up(index: u32, name: Seq<char>) -> LinkProgram {
    Program::Ask(
        LinkOpView::SetLink { index, up: true },
        |r: LinkReplyView| or_fail(r, Program::Return(Ok(())), not_set("up"@, name, r)),
    )
}

/// Bring the link up, best effort, then report `error`.
pub open spec fn lift(index: u32, error: ErrorView) -> LinkProgram {
    Program::Ask(
        LinkOpView::SetLink { index, up: true },
        |r: LinkReplyView| Program::Return(Err(error)),
    )
}

/// Renaming an interface.
pub open spec fn rename_program(index: u32, old: Seq<char>, new: Seq<char>) -> LinkProgram {
    Program::Ask(
        LinkOpView::OpenRoute,
        |r: LinkReplyView| or_fail(r, rename_down(index, old, new), not_opened("rtnetlink"@, r)),
    )
}

/// Bring the link down, then set the name.
pub open spec fn rename_down(index: u32, old: Seq<char>, new: Seq<char>) -> LinkProgram {
    Program::Ask(
        LinkOpView::SetLink { index, up: false },
        |r: LinkReplyView| or_fail(r, rename_name(index, old, new), not_set("down"@, old, r)),
    )
}

/// Set the name, and go on either way.
pub open spec fn rename_name(index: u32, old: Seq<char>, new: Seq<char>) -> LinkProgram {
    Program::Ask(
        LinkOpView::SetName { index, name: new },
        |r: LinkReplyView| rename_up(index, old, new, r),
    )
}

/// Bring the link up. A name that was not set is reported first.
pub open spec fn rename_up(
    index: u32,
    old: Seq<char>,
    new: Seq<char>,
    named: LinkReplyView,
) -> LinkProgram {
    Program::Ask(
        LinkOpView::SetLink { index, up: true },
        |r: LinkReplyView|
            match named {
                Ok(u) => or_fail(r, Program::Return(Ok(())), not_set("up"@, new, r)),
                Err(source) => Program::Return(
                    Err(ErrorView::Linux(LinuxErrorView::Rename { old, new, source })),
                ),
            },
    )
}

/// Setting the operating channel of an interface.
pub open spec fn tune_program(
    index: u32,
    name: Seq<char>,
    freq_mhz: u32,
    width: ChannelWidth,
) -> LinkProgram {
    Program::Ask(
        LinkOpView::OpenWireless,
        |r: LinkReplyView|
            or_fail(r, tune_set(index, name, freq_mhz, width), not_opened("nl80211"@, r)),
    )
}

/// Set the channel.
pub open spec fn tune_set(
    index: u32,
    name: Seq<char>,
    freq_mhz: u32,
    width: ChannelWidth,
) -> LinkProgram {
    Program::Ask(
        LinkOpView::SetWiphy { index, freq_mhz, width },
        |r: LinkReplyView|
            or_fail(
                r,
                Program::Return(Ok(())),
                LinuxErrorView::SetChannel { iface: name, source: r->Err_0 },
            ),
    )
}

/// What is open on a link.
#[derive(Debug)]
enum LinkStage {
    SwitchOpenRoute { name: String, mode: InterfaceMode },
    SwitchDown { name: String, mode: InterfaceMode },
    SwitchOpen { name: String, mode: InterfaceMode },
    SwitchType { name: String, mode: InterfaceMode },
    SwitchUp { name: String },
    Lift { error: Error },
    RenameOpenRoute { old: String, new: String },
    RenameDown { old: String, new: String },
    RenameName { old: String, new: String },
    RenameUp { old: String, new: String, named: Result<(), String> },
    TuneOpen { name: String, freq_mhz: u32, width: ChannelWidth },
    TuneSet { name: String, freq_mhz: u32, width: ChannelWidth },
}

/// The conversation that switches, renames or tunes one link.
#[derive(Debug)]
pub struct LinkTask {
    index: u32,
    stage: LinkStage,
}

impl LinkTask {
    /// What remains of the conversation.
    pub closed spec fn program(self) -> LinkProgram {
        let index = self.index;
        match self.stage {
            LinkStage::SwitchOpenRoute { name, mode } => switch_program(index, name@, mode),
            LinkStage::SwitchDown { name, mode } => switch_down(index, name@, mode),
            LinkStage::SwitchOpen { name, mode } => switch_open(index, name@, mode),
            LinkStage::SwitchType { name, mode } => switch_type(index, name@, mode),
            LinkStage::SwitchUp { name } => switch_up(index, name@),
            LinkStage::Lift { error } => lift(index, error@),
            LinkStage::RenameOpenRoute { old, new } => rename_program(index, old@, new@),
            LinkStage::RenameDown { old, new } => rename_down(index, old@, new@),
            LinkStage::RenameName { old, new } => rename_name(index, old@, new@),
            LinkStage::RenameUp { old, new, named } => rename_up(
                index,
                old@,
                new@,
                crate::nl80211::ended(named),
            ),
            LinkStage::TuneOpen { name, freq_mhz, width } => tune_program(
                index,
                name@,
                freq_mhz,
                width,
            ),
            LinkStage::TuneSet { name, freq_mhz, width } => tune_set(
                index,
                name@,
                freq_mhz,
                width,
            ),
        }
    }

    /// What remains after a step.
    pub open spec fn remaining(p: Progress<LinkTask, Result<(), Error>>) -> LinkProgram {
        match p {
            Progress::Pending(m) => m.program(),
            Progress::Finished(r) => Program::Return(crate::errors::unit_result(r)),
        }
    }

    /// Switch an interface into a mode.
    pub fn set_mode(index: u32, name: &str, mode: InterfaceMode) -> (m: LinkTask)
        ensures
            m.program() == switch_program(index, name@, mode),
    {
        LinkTask { index, stage: LinkStage::SwitchOpenRoute { name: name.to_owned(), mode } }
    }

    /// Rename an interface. The index is unchanged by a rename.
    pub fn rename(index: u32, old: &str, new: &str) -> (m: LinkTask)
        ensures
            m.program() == rename_program(index, old@, new@),
    {
        LinkTask {
            index,
            stage: LinkStage::RenameOpenRoute { old: old.to_owned(), new: new.to_owned() },
        }
    }

    /// Set the operating channel of an interface.
    pub fn set_channel(index: u32, name: &str, freq_mhz: u32, width: ChannelWidth) -> (m: LinkTask)
        ensures
            m.program() == tune_program(index, name@, freq_mhz, width),
    {
        LinkTask { index, stage: LinkStage::TuneOpen { name: name.to_owned(), freq_mhz, width } }
    }

    /// A conversation that is pending has an open question.
    pub proof fn asks(self)
        ensures
            self.program() is Ask,
    {
    }

    /// The request whose outcome is awaited.
    pub fn request(&self) -> (op: LinkOp)
        ensures
            self.program() is Ask,
            op@ == self.program()->Ask_0,
    {
        let index: u32 = self.index;
        match &self.stage {
            LinkStage::SwitchOpenRoute { name, mode } => LinkOp::OpenRoute,
            LinkStage::SwitchDown { name, mode } => LinkOp::SetLink { index, up: false },
            LinkStage::SwitchOpen { name, mode } => LinkOp::OpenWireless,
            LinkStage::SwitchType { name, mode } => LinkOp::SetIftype {
                index,
                iftype: mode_to_iftype(*mode),
            },
            LinkStage::SwitchUp { name } => LinkOp::SetLink { index, up: true },
            LinkStage::Lift { error } => LinkOp::SetLink { index, up: true },
            LinkStage::RenameOpenRoute { old, new } => LinkOp::OpenRoute,
            LinkStage::RenameDown { old, new } => LinkOp::SetLink { index, up: false },
            LinkStage::RenameName { old, new } => LinkOp::SetName { index, name: new.clone() },
            LinkStage::RenameUp { old, new, named } => LinkOp::SetLink { index, up: true },
            LinkStage::TuneOpen { name, freq_mhz, width } => LinkOp::OpenWireless,
            LinkStage::TuneSet { name, freq_mhz, width } => LinkOp::SetWiphy {
                index,
                freq_mhz: *freq_mhz,
                width: *width,
            },
        }
    }

    /// Go on with the outcome of the request.
    pub fn resume(self, reply: Result<(), String>) -> (p: Progress<Self, Result<(), Error>>)
        ensures
            Self::remaining(p) == (self.program()->Ask_1)(crate::nl80211::ended(reply)),
    {
        let index: u32 = self.index;
        match reply {
            Ok(()) => {
                let stage = match self.stage {
                    LinkStage::SwitchOpenRoute { name, mode } => LinkStage::SwitchDown {
                        name,
                        mode,
                    },
                    LinkStage::SwitchDown { name, mode } => LinkStage::SwitchOpen { name, mode },
                    LinkStage::SwitchOpen { name, mode } => LinkStage::SwitchType { name, mode },
                    LinkStage::SwitchType { name, mode } => LinkStage::SwitchUp { name },
                    LinkStage::Lift { error } => {
                        return Progress::Finished(Err(error));
                    },
                    LinkStage::RenameOpenRoute { old, new } => LinkStage::RenameDown { old, new },
                    LinkStage::RenameDown { old, new } => LinkStage::RenameName { old, new },
                    LinkStage::RenameName { old, new } => LinkStage::RenameUp {
                        old,
                        new,
                        named: Ok(()),
                    },
                    LinkStage::RenameUp { old, new, named: Err(source) } => {
                        return Progress::Finished(
                            Err(Error::Linux(LinuxError::Rename { old, new, source })),
                        );
                    },
                    LinkStage::TuneOpen { name, freq_mhz, width } => LinkStage::TuneSet {
                        name,
                        freq_mhz,
                        width,
                    },
                    _ => {
                        return Progress::Finished(Ok(()));
                    },
                };
                Progress::Pending(LinkTask { index, stage })
            },
            Err(source) => {
                let error = match self.stage {
                    LinkStage::SwitchOpenRoute { name, mode } => LinuxError::NetlinkConnect {
                        kind: "rtnetlink",
                        phase: "connect",
                        source,
                    },
                    LinkStage::SwitchDown { name, mode } => LinuxError::LinkSet {
                        op: "down",
                        iface: name,
                        source,
                    },
                    LinkStage::SwitchOpen { name, mode } => {
                        let error = Error::Linux(
                            LinuxError::NetlinkConnect {
                                kind: "nl80211",
                                phase: "connect",
                                source,
                            },
                        );
                        return Progress::Pending(
                            LinkTask { index, stage: LinkStage::Lift { error } },
                        );
                    },
                    LinkStage::SwitchType { name, mode } => {
                        let error = Error::Linux(LinuxError::SetMode { iface: name, source });
                        return Progress::Pending(
                            LinkTask { index, stage: LinkStage::Lift { error } },
                        );
                    },
                    LinkStage::SwitchUp { name } => LinuxError::LinkSet {
                        op: "up",
                        iface: name,
                        source,
                    },
                    LinkStage::Lift { error } => {
                        return Progress::Finished(Err(error));
                    },
                    LinkStage::RenameOpenRoute { old, new } => LinuxError::NetlinkConnect {
                        kind: "rtnetlink",
                        phase: "connect",
                        source,
                    },
                    LinkStage::RenameDown { old, new } => LinuxError::LinkSet {
                        op: "down",
                        iface: old,
                        source,
                    },
                    LinkStage::RenameName { old, new } => {
                        return Progress::Pending(
                            LinkTask {
                                index,
                                stage: LinkStage::RenameUp { old, new, named: Err(source) },
                            },
                        );
                    },
                    LinkStage::RenameUp { old, new, named } => match named {
                        Ok(()) => LinuxError::LinkSet { op: "up", iface: new, source },
                        Err(first) => LinuxError::Rename { old, new, source: first },
                    },
                    LinkStage::TuneOpen { name, freq_mhz, width } => LinuxError::NetlinkConnect {
                        kind: "nl80211",
                        phase: "connect",
                        source,
                    },
                    LinkStage::TuneSet { name, freq_mhz, width } => LinuxError::SetChannel {
                        iface: name,
                        source,
                    },
                };
                Progress::Finished(Err(Error::Linux(error)))
            },
        }
    }
}

} // verus!
