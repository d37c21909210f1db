//! Tuning an interface and confirming that it took.
//!
//! A set with no confirmation is not to be trusted: drivers accept it and then
//! sit on a different frequency, on none, or on the right one at a narrower
//! width. A capture on the wrong channel is silent, so a mismatch is an error.

use vstd::prelude::*;

use crate::channel::verify_tuning;
use crate::errors::{Error, ErrorView};
use crate::interface::ChannelWidth;
use crate::ops::{LinuxOp, LinuxOpView, LinuxProgram, LinuxReply, LinuxReplyView};
use crate::program::{Program, Progress};

verus! {

/// Tune, read back, and judge what was read.
pub open spec fn tune_program(
    index: u32,
    name: Seq<char>,
    freq_mhz: u32,
    width: ChannelWidth,
) -> LinuxProgram<Result<(), ErrorView>> {
    Program::Ask(
        LinuxOpView::SetFreq { index, name, freq_mhz, width },
        |r: LinuxReplyView|
            match r->Done_0 {
                Ok(u) => confirm_tuning(index, name, freq_mhz, width),
                Err(e) => Program::Return(Err(e)),
            },
    )
}

/// Read the tuning back and judge it.
pub open spec fn confirm_tuning(
    index: u32,
    name: Seq<char>,
    freq_mhz: u32,
    width: ChannelWidth,
) -> LinuxProgram<Result<(), ErrorView>> {
    Program::Ask(
        LinuxOpView::ReadChannel { index },
        |r: LinuxReplyView|
            Program::Return(
                match r->Channel_0 {
                    Ok(actual) => crate::channel::tuning_verdict(name, freq_mhz, width, actual),
                    Err(e) => Err(e),
                },
            ),
    )
}

/// The conversation that tunes an interface.
#[derive(Debug)]
pub struct Tune {
    index: u32,
    name: String,
    freq_mhz: u32,
    width: ChannelWidth,
    // Whether the set is done and its confirmation awaited.
    confirming: bool,
}

impl Tune {
    /// What remains of the conversation.
    pub closed spec fn program(self) -> LinuxProgram<Result<(), ErrorView>> {
        if self.confirming {
            confirm_tuning(self.index, self.name@, self.freq_mhz, self.width)
        } else {
            tune_program(self.index, self.name@, self.freq_mhz, self.width)
        }
    }

    /// What remains after a step.
    pub open spec fn remaining(p: Progress<Tune, Result<(), Error>>) -> LinuxProgram<
        Result<(), ErrorView>,
    > {
        match p {
            Progress::Pending(m) => m.program(),
            Progress::Finished(r) => Program::Return(crate::errors::unit_result(r)),
        }
    }

    /// Start tuning an interface.
    pub fn start(index: u32, name: String, freq_mhz: u32, width: ChannelWidth) -> (m: Tune)
        ensures
            m.program() == tune_program(index, name@, freq_mhz, width),
    {
        Tune { index, name, freq_mhz, width, confirming: false }
    }

    /// A conversation that is pending has an open question.
    pub proof fn asks(self)
        ensures
            self.program() is Ask,
    {
    }

    /// The operation whose outcome is awaited.
    pub fn request(&self) -> (op: LinuxOp)
        ensures
            self.program() is Ask,
            op@ == self.program()->Ask_0,
    {
        if self.confirming {
            LinuxOp::ReadChannel { index: self.index }
        } else {
            LinuxOp::SetFreq {
                index: self.index,
                name: self.name.clone(),
                freq_mhz: self.freq_mhz,
                width: self.width,
            }
        }
    }

    /// Go on with the outcome of the requested operation.
    pub fn resume(self, reply: LinuxReply) -> (p: Progress<Self, Result<(), Error>>)
        requires
            self.program()->Ask_0.answered_by(reply@),
        ensures
            Self::remaining(p) == (self.program()->Ask_1)(reply@),
    {
        match reply {
            LinuxReply::Channel(Ok(actual)) => Progress::Finished(
                verify_tuning(self.name.as_str(), self.freq_mhz, self.width, actual),
            ),
            LinuxReply::Channel(Err(e)) => Progress::Finished(Err(e)),
            LinuxReply::Done(Err(e)) => Progress::Finished(Err(e)),
            _ => Progress::Pending(
                Tune {
                    index: self.index,
                    name: self.name,
                    freq_mhz: self.freq_mhz,
                    width: self.width,
                    confirming: true,
                },
            ),
        }
    }
}

} // verus!
