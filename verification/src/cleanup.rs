//! The owned session: what a monitor-mode session holds, and how it is torn down.
//!
//! Tearing a session down gives a renamed interface its own name back and returns
//! it to managed networking. A guard is armed until it is persisted or restored;
//! one that goes out of scope while armed owes the teardown that
//! [`MonitorGuard::teardown`] gives.

use vstd::prelude::*;

use crate::backend::{BackendOp, BackendOpView};
use crate::channel::{BandScope, Tuning};
use crate::errors::{Error, ErrorView};
use crate::interface::{ChannelWidth, InterfaceInfo, InterfaceView};
use crate::monitor::{Restore, SetChannel, SetChannelView, TargetView};

verus! {

/// An owned monitor-mode session.
#[must_use]
pub struct MonitorGuard {
    original: String,
    current: String,
    // The interface as resolved when it entered monitor mode. What a session
    // reads of it does not change, so tuning needs no fresh enumeration.
    iface: InterfaceInfo,
    armed: bool,
}

/// The contents of a [`MonitorGuard`].
pub struct GuardView {
    /// The name the interface is restored to.
    pub original: Seq<char>,
    /// The name it has.
    pub current: Seq<char>,
    /// The interface as it entered monitor mode.
    pub iface: InterfaceView,
    /// Whether the session still owes a teardown.
    pub armed: bool,
}

impl View for MonitorGuard {
    type V = GuardView;

    closed spec fn view(&self) -> GuardView {
        GuardView {
            original: self.original@,
            current: self.current@,
            iface: self.iface@,
            armed: self.armed,
        }
    }
}

/// A fresh session on `iface`, to be restored under the name `original`.
pub open spec fn session(original: Seq<char>, iface: InterfaceView) -> GuardView {
    GuardView { original, current: iface.name, iface, armed: true }
}

/// The contents of the result of a start.
pub open spec fn guard_result(r: Result<MonitorGuard, Error>) -> Result<GuardView, ErrorView> {
    match r {
        Ok(g) => Ok(g@),
        Err(e) => Err(e@),
    }
}

/// A value of a readback, if there was one.
pub open spec fn of_reading<T>(reading: Result<Tuning, Error>, value: T) -> Result<T, ErrorView> {
    match reading {
        Ok(t) => Ok(value),
        Err(e) => Err(e@),
    }
}

impl MonitorGuard {
    /// The name a session goes by is the one its interface has.
    #[verifier::type_invariant]
    spec fn named_after_its_interface(self) -> bool {
        self.current@ == self.iface@.name
    }

    /// A same-name session: the interface keeps its own name.
    pub fn new(iface: InterfaceInfo) -> (g: MonitorGuard)
        ensures
            g@ == session(iface@.name, iface@),
            g@.original == iface@.name && g@.current == iface@.name,
            g@.iface == iface@ && g@.armed,
    {
        let original = iface.name.clone();
        let current = iface.name.clone();
        MonitorGuard { original, current, iface, armed: true }
    }

    /// A renamed session: `iface` is already under its new name, and teardown
    /// restores `original`.
    pub fn from_rename(original: String, iface: InterfaceInfo) -> (g: MonitorGuard)
        ensures
            g@ == session(original@, iface@),
            g@.original == original@ && g@.current == iface@.name,
            g@.iface == iface@ && g@.armed,
    {
        let current = iface.name.clone();
        MonitorGuard { original, current, iface, armed: true }
    }

    /// The interface's current name: the one to hand to a capture library.
    #[must_use]
    pub fn name(&self) -> (r: &str)
        ensures
            r@ == self@.current,
            r@ == self@.iface.name,
    {
        proof {
            use_type_invariant(self);
        }
        self.current.as_str()
    }

    /// The name the interface will be restored to on teardown.
    #[must_use]
    pub fn original_name(&self) -> (r: &str)
        ensures
            r@ == self@.original,
    {
        self.original.as_str()
    }

    /// The interface's static facts: the snapshot taken when this session entered
    /// monitor mode.
    #[must_use]
    pub fn info(&self) -> (r: &InterfaceInfo)
        ensures
            r@ == self@.iface,
    {
        &self.iface
    }

    /// Whether the session still owes a teardown.
    #[must_use]
    pub fn is_armed(&self) -> (r: bool)
        ensures
            r == self@.armed,
    {
        self.armed
    }

    /// The readback that tells which channel this interface is sitting on. Live:
    /// nothing about the tuning is cached.
    pub fn tuning(&self) -> (op: BackendOp)
        ensures
            op@ == (BackendOpView::ReadTuning {
                index: self@.iface.index,
                name: self@.iface.name,
            }),
    {
        BackendOp::ReadTuning { index: self.iface.index, name: self.iface.name.clone() }
    }

    /// The channel number out of the outcome of a [`tuning`](Self::tuning) readback.
    pub fn channel(&self, reading: Result<Tuning, Error>) -> (r: Result<Option<u32>, Error>)
        ensures
            (match r {
                Ok(channel) => Ok::<Option<u32>, ErrorView>(channel),
                Err(e) => Err(e@),
            }) == of_reading(reading, reading->Ok_0.channel_number()),
    {
        match reading {
            Ok(tuning) => Ok(tuning.channel()),
            Err(e) => Err(e),
        }
    }

    /// The primary centre frequency out of the outcome of a
    /// [`tuning`](Self::tuning) readback.
    pub fn frequency(&self, reading: Result<Tuning, Error>) -> (r: Result<Option<u32>, Error>)
        ensures
            (match r {
                Ok(mhz) => Ok::<Option<u32>, ErrorView>(mhz),
                Err(e) => Err(e@),
            }) == of_reading(reading, reading->Ok_0.freq_mhz),
    {
        match reading {
            Ok(tuning) => Ok(tuning.frequency_mhz()),
            Err(e) => Err(e),
        }
    }

    /// The channel width out of the outcome of a [`tuning`](Self::tuning) readback.
    pub fn width(&self, reading: Result<Tuning, Error>) -> (r: Result<Option<ChannelWidth>, Error>)
        ensures
            (match r {
                Ok(width) => Ok::<Option<ChannelWidth>, ErrorView>(width),
                Err(e) => Err(e@),
            }) == of_reading(reading, reading->Ok_0.requested_width()),
    {
        match reading {
            Ok(tuning) => Ok(tuning.width()),
            Err(e) => Err(e),
        }
    }

    /// Tune the interface to a 2.4 or 5 GHz channel, reusing the interface this
    /// guard already resolved.
    pub fn set_channel(&self, channel: u32) -> (r: SetChannel)
        ensures
            r@ == (SetChannelView {
                target: TargetView::Resolved(self@.iface),
                channel,
                width: ChannelWidth::Mhz20,
                scope: BandScope::ExceptSixGhz,
            }),
    {
        SetChannel::from_iface(self.iface.clone(), channel, BandScope::ExceptSixGhz)
    }

    /// Tune the interface to a 6 GHz channel, reusing the resolved interface.
    pub fn set_channel_6g(&self, channel: u32) -> (r: SetChannel)
        ensures
            r@ == (SetChannelView {
                target: TargetView::Resolved(self@.iface),
                channel,
                width: ChannelWidth::Mhz20,
                scope: BandScope::SixGhzOnly,
            }),
    {
        SetChannel::from_iface(self.iface.clone(), channel, BandScope::SixGhzOnly)
    }

    /// Cancel automatic restoration and leave the interface as it is. Returns the
    /// interface's current name.
    pub fn persist(self) -> (r: String)
        ensures
            r@ == self@.current,
    {
        self.current
    }

    /// Rename the interface back to its original name and restore managed
    /// networking, consuming the guard.
    pub fn restore(self) -> (m: Restore)
        ensures
            m.program() == crate::monitor::restore_program(self@.current, self@.original),
    {
        Restore::start(self.current.as_str(), self.original.as_str())
    }

    /// The teardown a guard owes when it goes out of scope: the same as
    /// [`restore`](Self::restore) while it is armed, and nothing after that.
    pub fn teardown(&mut self) -> (r: Option<Restore>)
        ensures
            r is Some <==> old(self)@.armed,
            r matches Some(m) ==> m.program() == crate::monitor::restore_program(
                old(self)@.current,
                old(self)@.original,
            ),
            final(self)@ == (GuardView { armed: false, ..old(self)@ }),
    {
        proof {
            use_type_invariant(&*self);
        }
        if self.armed {
            self.armed = false;
            Some(Restore::start(self.current.as_str(), self.original.as_str()))
        } else {
            None
        }
    }
}

} // verus!
