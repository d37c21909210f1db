//! The primitive control operations the Linux orchestration is built from.
//!
//! Switching modes, tuning and renaming go to the kernel over nl80211 and
//! rtnetlink; releasing and reclaiming an interface go to NetworkManager and
//! wpa_supplicant over D-Bus. A conversation names the operation it needs next as
//! a [`LinuxOp`] and is told how it went as a [`LinuxReply`]; whoever holds the
//! conversation performs it.

use vstd::prelude::*;

use crate::channel::Tuning;
use crate::errors::{Error, ErrorView};
use crate::interface::{ChannelWidth, InterfaceMode, InterfaceView, WirelessInterface};
use crate::program::Program;

verus! {

/// One primitive control operation.
#[derive(Debug)]
pub enum LinuxOp {
    /// Enumerate the wireless interfaces.
    Detect,
    /// Switch an interface into an operating mode.
    SetMode {
        /// Index of the interface.
        index: u32,
        /// Its name, for messages.
        name: String,
        /// The mode to switch to.
        mode: InterfaceMode,
    },
    /// Read an interface's operating mode.
    ReadMode {
        /// Index of the interface.
        index: u32,
    },
    /// Tune an interface.
    SetFreq {
        /// Index of the interface.
        index: u32,
        /// Its name, for messages.
        name: String,
        /// Primary center frequency, in MHz.
        freq_mhz: u32,
        /// Channel width.
        width: ChannelWidth,
    },
    /// Read what an interface is tuned to.
    ReadChannel {
        /// Index of the interface.
        index: u32,
    },
    /// Rename an interface.
    Rename {
        /// Index of the interface.
        index: u32,
        /// The name it has.
        old: String,
        /// The name it gets.
        new: String,
    },
    /// Ask whether NetworkManager is there.
    NmPresent,
    /// Take an interface from NetworkManager.
    NmRelease {
        /// The interface.
        iface: String,
    },
    /// Hand an interface back to NetworkManager.
    NmReclaim {
        /// The interface.
        iface: String,
    },
    /// Ask whether wpa_supplicant is there.
    WpaPresent,
    /// Take an interface from wpa_supplicant.
    WpaRelease {
        /// The interface.
        iface: String,
    },
    /// Hand an interface back to wpa_supplicant.
    WpaReclaim {
        /// The interface.
        iface: String,
    },
}

/// The outcome of a [`LinuxOp`].
#[derive(Debug)]
pub enum LinuxReply {
    /// The detected interfaces.
    Interfaces(Result<Vec<WirelessInterface>, Error>),
    /// Whether a change was made.
    Done(Result<(), Error>),
    /// The mode that was read.
    Mode(Result<InterfaceMode, Error>),
    /// The tuning that was read.
    Channel(Result<Tuning, Error>),
    /// Whether the service is there.
    Present(bool),
}

/// The contents of a [`LinuxOp`].
pub enum LinuxOpView {
    /// Enumerate the wireless interfaces.
    Detect,
    /// Switch an interface into an operating mode.
    SetMode { index: u32, name: Seq<char>, mode: InterfaceMode },
    /// Read an interface's operating mode.
    ReadMode { index: u32 },
    /// Tune an interface.
    SetFreq { index: u32, name: Seq<char>, freq_mhz: u32, width: ChannelWidth },
    /// Read what an interface is tuned to.
    ReadChannel { index: u32 },
    /// Rename an interface.
    Rename { index: u32, old: Seq<char>, new: Seq<char> },
    /// Ask whether NetworkManager is there.
    NmPresent,
    /// Take an interface from NetworkManager.
    NmRelease { iface: Seq<char> },
    /// Hand an interface back to NetworkManager.
    NmReclaim { iface: Seq<char> },
    /// Ask whether wpa_supplicant is there.
    WpaPresent,
    /// Take an interface from wpa_supplicant.
    WpaRelease { iface: Seq<char> },
    /// Hand an interface back to wpa_supplicant.
    WpaReclaim { iface: Seq<char> },
}

/// The contents of a [`LinuxReply`].
pub enum LinuxReplyView {
    /// The detected interfaces.
    Interfaces(Result<Seq<InterfaceView>, ErrorView>),
    /// Whether a change was made.
    Done(Result<(), ErrorView>),
    /// The mode that was read.
    Mode(Result<InterfaceMode, ErrorView>),
    /// The tuning that was read.
    Channel(Result<Tuning, ErrorView>),
    /// Whether the service is there.
    Present(bool),
}

/// A conversation over primitive control operations.
pub type LinuxProgram<T> = Program<LinuxOpView, LinuxReplyView, T>;

impl View for LinuxOp {
    type V = LinuxOpView;

    open spec fn view(&self) -> LinuxOpView {
        match self {
            LinuxOp::Detect => LinuxOpView::Detect,
            LinuxOp::SetMode { index, name, mode } => LinuxOpView::SetMode {
                index: *index,
                name: name@,
                mode: *mode,
            },
            LinuxOp::ReadMode { index } => LinuxOpView::ReadMode { index: *index },
            LinuxOp::SetFreq { index, name, freq_mhz, width } => LinuxOpView::SetFreq {
                index: *index,
                name: name@,
                freq_mhz: *freq_mhz,
                width: *width,
            },
            LinuxOp::ReadChannel { index } => LinuxOpView::ReadChannel { index: *index },
            LinuxOp::Rename { index, old, new } => LinuxOpView::Rename {
                index: *index,
                old: old@,
                new: new@,
            },
            LinuxOp::NmPresent => LinuxOpView::NmPresent,
            LinuxOp::NmRelease { iface } => LinuxOpView::NmRelease { iface: iface@ },
            LinuxOp::NmReclaim { iface } => LinuxOpView::NmReclaim { iface: iface@ },
            LinuxOp::WpaPresent => LinuxOpView::WpaPresent,
            LinuxOp::WpaRelease { iface } => LinuxOpView::WpaRelease { iface: iface@ },
            LinuxOp::WpaReclaim { iface } => LinuxOpView::WpaReclaim { iface: iface@ },
        }
    }
}

impl View for LinuxReply {
    type V = LinuxReplyView;

    open spec fn view(&self) -> LinuxReplyView {
        match self {
            LinuxReply::Interfaces(r) => LinuxReplyView::Interfaces(
                crate::select::interfaces_result(*r),
            ),
            LinuxReply::Done(r) => LinuxReplyView::Done(crate::errors::unit_result(*r)),
            LinuxReply::Mode(r) => LinuxReplyView::Mode(
                match r {
                    Ok(mode) => Ok(*mode),
                    Err(e) => Err(e@),
                },
            ),
            LinuxReply::Channel(r) => LinuxReplyView::Channel(
                match r {
                    Ok(tuning) => Ok(*tuning),
                    Err(e) => Err(e@),
                },
            ),
            LinuxReply::Present(b) => LinuxReplyView::Present(*b),
        }
    }
}

impl LinuxOpView {
    /// Whether a reply is of the kind that this operation has.
    pub open spec fn answered_by(self, reply: LinuxReplyView) -> bool {
        match self {
            LinuxOpView::Detect => reply is Interfaces,
            LinuxOpView::ReadMode { .. } => reply is Mode,
            LinuxOpView::ReadChannel { .. } => reply is Channel,
            LinuxOpView::NmPresent | LinuxOpView::WpaPresent => reply is Present,
            _ => reply is Done,
        }
    }
}

impl LinuxOp {
    /// Whether a reply is of the kind that this operation has.
    pub fn is_answered_by(&self, reply: &LinuxReply) -> (r: bool)
        ensures
            r == self@.answered_by(reply@),
    {
        match (self, reply) {
            (LinuxOp::Detect, LinuxReply::Interfaces(_)) => true,
            (LinuxOp::Detect, _) => false,
            (LinuxOp::ReadMode { .. }, LinuxReply::Mode(_)) => true,
            (LinuxOp::ReadMode { .. }, _) => false,
            (LinuxOp::ReadChannel { .. }, LinuxReply::Channel(_)) => true,
            (LinuxOp::ReadChannel { .. }, _) => false,
            (LinuxOp::NmPresent, LinuxReply::Present(_)) => true,
            (LinuxOp::NmPresent, _) => false,
            (LinuxOp::WpaPresent, LinuxReply::Present(_)) => true,
            (LinuxOp::WpaPresent, _) => false,
            (_, LinuxReply::Done(_)) => true,
            _ => false,
        }
    }
}

} // verus!
