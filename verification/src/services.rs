//! The services that manage wireless interfaces: NetworkManager and
//! wpa_supplicant, over D-Bus.
//!
//! Both are durable. A service that is not running, or a host without a system
//! bus, counts as absent. A service that runs but does not know the interface has
//! nothing to release and nothing to take back; that is no failure either. Only
//! that one answer is treated so: a service that knows the interface and refuses
//! still fails.

use vstd::prelude::*;

use crate::errors::{Error, ErrorView, LinuxError, LinuxErrorView};
use crate::program::{Program, Progress};
use crate::text::same_text;

verus! {

/// Bus name of NetworkManager.
pub const NM_SERVICE: &'static str = "org.freedesktop.NetworkManager";

/// The D-Bus error NetworkManager raises for an interface it does not track.
pub const NM_UNKNOWN_DEVICE: &'static str = "org.freedesktop.NetworkManager.UnknownDevice";

/// Bus name of wpa_supplicant.
pub const WPA_SERVICE: &'static str = "fi.w1.wpa_supplicant1";

/// Whether a service is there, given what asking the bus for its owner came to:
/// nothing where the time ran out, and nothing inside where the bus could not be
/// asked.
pub fn is_present(answer: Option<Option<bool>>) -> (r: bool)
    ensures
        r == (answer == Some(Some(true))),
{
    match answer {
        Some(Some(owned)) => owned,
        _ => false,
    }
}

/// Whether a D-Bus error name is NetworkManager's for an interface it does not
/// track.
pub fn is_unknown_device_name(name: &str) -> (r: bool)
    ensures
        r == (name@ == NM_UNKNOWN_DEVICE@),
{
    same_text(name, NM_UNKNOWN_DEVICE)
}

/// How a bus call failed.
#[derive(Debug)]
pub struct BusFailure {
    /// The D-Bus error name, where the other side replied with one.
    pub name: Option<String>,
    /// The text of the error.
    pub text: String,
}

/// The contents of a [`BusFailure`].
pub struct BusFailureView {
    /// The D-Bus error name.
    pub name: Option<Seq<char>>,
    /// The text of the error.
    pub text: Seq<char>,
}

impl View for BusFailure {
    type V = BusFailureView;

    open spec fn view(&self) -> BusFailureView {
        BusFailureView { name: crate::interface::opt_text(self.name), text: self.text@ }
    }
}

/// Whether a failure says that NetworkManager does not track the interface.
pub open spec fn untracked(failure: BusFailureView) -> bool {
    failure.name == Some(NM_UNKNOWN_DEVICE@)
}

/// Whether a failure says that NetworkManager does not track the interface.
pub fn is_unknown_device(failure: &BusFailure) -> (r: bool)
    ensures
        r == untracked(failure@),
{
    match &failure.name {
        Some(name) => is_unknown_device_name(name.as_str()),
        None => false,
    }
}

/// One call on the bus. Each speaks of what the calls before it obtained.
#[derive(Debug)]
pub enum BusOp {
    /// Connect to the system bus.
    Connect,
    /// Address NetworkManager's root object.
    Manager,
    /// Ask NetworkManager for the device of an interface.
    GetDevice {
        /// The interface.
        iface: String,
    },
    /// Take the path of the device.
    DevicePath,
    /// Address the device.
    Device,
    /// Set the device's `Managed` property.
    SetManaged {
        /// Its value.
        value: bool,
    },
    /// Address wpa_supplicant's root object.
    Supplicant,
    /// Ask wpa_supplicant for its object of an interface.
    GetInterface {
        /// The interface.
        iface: String,
    },
    /// Have wpa_supplicant drop that object.
    RemoveInterface,
    /// Have wpa_supplicant take up an interface.
    CreateInterface {
        /// The interface.
        iface: String,
    },
}

/// The contents of a [`BusOp`].
pub enum BusOpView {
    /// Connect to the system bus.
    Connect,
    /// Address NetworkManager's root object.
    Manager,
    /// Ask NetworkManager for the device of an interface.
    GetDevice { iface: Seq<char> },
    /// Take the path of the device.
    DevicePath,
    /// Address the device.
    Device,
    /// Set the device's `Managed` property.
    SetManaged { value: bool },
    /// Address wpa_supplicant's root object.
    Supplicant,
    /// Ask wpa_supplicant for its object of an interface.
    GetInterface { iface: Seq<char> },
    /// Have wpa_supplicant drop that object.
    RemoveInterface,
    /// Have wpa_supplicant take up an interface.
    CreateInterface { iface: Seq<char> },
}

impl View for BusOp {
    type V = BusOpView;

    open spec fn view(&self) -> BusOpView {
        match self {
            BusOp::Connect => BusOpView::Connect,
            BusOp::Manager => BusOpView::Manager,
            BusOp::GetDevice { iface } => BusOpView::GetDevice { iface: iface@ },
            BusOp::DevicePath => BusOpView::DevicePath,
            BusOp::Device => BusOpView::Device,
            BusOp::SetManaged { value } => BusOpView::SetManaged { value: *value },
            BusOp::Supplicant => BusOpView::Supplicant,
            BusOp::GetInterface { iface } => BusOpView::GetInterface { iface: iface@ },
            BusOp::RemoveInterface => BusOpView::RemoveInterface,
            BusOp::CreateInterface { iface } => BusOpView::CreateInterface { iface: iface@ },
        }
    }
}

/// The outcome of a call: done, or how it failed.
pub type BusReplyView = Result<(), BusFailureView>;

/// A conversation over calls on the bus.
pub type BusProgram = Program<BusOpView, BusReplyView, Result<(), ErrorView>>;

/// The contents of the outcome of a call.
pub open spec fn bus_reply(r: Result<(), BusFailure>) -> BusReplyView {
    match r {
        Ok(u) => Ok(u),
        Err(f) => Err(f@),
    }
}

/// Which service is asked to do what.
#[derive(Debug, Clone, Copy, PartialEq, Eq, Structural)]
pub enum ServiceAction {
    /// NetworkManager is to stop managing the interface.
    NmRelease,
    /// NetworkManager is to manage the interface again.
    NmReclaim,
    /// wpa_supplicant is to let go of the interface.
    WpaRelease,
    /// wpa_supplicant is to take the interface up again.
    WpaReclaim,
}

/// A NetworkManager failure.
pub open spec fn nm_error(op: Seq<char>, iface: Seq<char>, r: BusReplyView) -> ErrorView {
    ErrorView::Linux(LinuxErrorView::NetworkManager { op, iface, source: r->Err_0.text })
}

/// A wpa_supplicant failure.
pub open spec fn supplicant_error(op: Seq<char>, iface: Seq<char>, r: BusReplyView) -> ErrorView {
    ErrorView::Linux(LinuxErrorView::Supplicant { op, iface, source: r->Err_0.text })
}

/// What remains after a call: what `next` says where it was done, and the error
/// otherwise.
pub open spec fn or_fail(r: BusReplyView, next: BusProgram, error: ErrorView) -> BusProgram {
    match r {
        Ok(u) => next,
        Err(f) => Program::Return(Err(error)),
    }
}

/// A service action on an interface: connect, then address the service.
pub open spec fn service_program(action: ServiceAction, iface: Seq<char>) -> BusProgram {
    Program::Ask(
        BusOpView::Connect,
        |r: BusReplyView|
            or_fail(
                r,
                address(action, iface),
                ErrorView::Linux(LinuxErrorView::DbusConnect { source: r->Err_0.text }),
            ),
    )
}

/// Address the service, and look the interface up there.
pub open spec fn address(action: ServiceAction, iface: Seq<char>) -> BusProgram {
    match action {
        ServiceAction::NmRelease | ServiceAction::NmReclaim => Program::Ask(
            BusOpView::Manager,
            |r: BusReplyView|
                or_fail(r, look_up(action, iface), nm_error("connect"@, iface, r)),
        ),
        _ => Program::Ask(
            BusOpView::Supplicant,
            |r: BusReplyView|
                or_fail(r, look_up(action, iface), supplicant_error("connect"@, ""@, r)),
        ),
    }
}

/// Look the interface up. NetworkManager not tracking it ends the action without
/// failure, and so does wpa_supplicant not knowing it on release, or knowing it
/// already on reclaim.
pub open spec fn look_up(action: ServiceAction, iface: Seq<char>) -> BusProgram {
    match action {
        ServiceAction::NmRelease | ServiceAction::NmReclaim => Program::Ask(
            BusOpView::GetDevice { iface },
            |r: BusReplyView|
                match r {
                    Ok(u) => device_path(action, iface),
                    Err(f) => Program::Return(
                        if untracked(f) {
                            Ok(())
                        } else {
                            Err(nm_error("get_device"@, iface, r))
                        },
                    ),
                },
        ),
        ServiceAction::WpaRelease => Program::Ask(
            BusOpView::GetInterface { iface },
            |r: BusReplyView|
                match r {
                    Ok(u) => apply(action, iface),
                    Err(f) => Program::Return(Ok(())),
                },
        ),
        ServiceAction::WpaReclaim => Program::Ask(
            BusOpView::GetInterface { iface },
            |r: BusReplyView|
                match r {
                    Ok(u) => Program::Return(Ok(())),
                    Err(f) => apply(action, iface),
                },
        ),
    }
}

/// Take the path of NetworkManager's device.
pub open spec fn device_path(action: ServiceAction, iface: Seq<char>) -> BusProgram {
    Program::Ask(
        BusOpView::DevicePath,
        |r: BusReplyView| or_fail(r, device(action, iface), nm_error("device_path"@, iface, r)),
    )
}

/// Address NetworkManager's device.
pub open spec fn device(action: ServiceAction, iface: Seq<char>) -> BusProgram {
    Program::Ask(
        BusOpView::Device,
        |r: BusReplyView| or_fail(r, apply(action, iface), nm_error("device_proxy"@, iface, r)),
    )
}

/// Do what the action is about.
pub open spec fn apply(action: ServiceAction, iface: Seq<char>) -> BusProgram {
    match action {
        ServiceAction::NmRelease => Program::Ask(
            BusOpView::SetManaged { value: false },
            |r: BusReplyView|
                or_fail(r, Program::Return(Ok(())), nm_error("set_unmanaged"@, iface, r)),
        ),
        ServiceAction::NmReclaim => Program::Ask(
            BusOpView::SetManaged { value: true },
            |r: BusReplyView|
                or_fail(r, Program::Return(Ok(())), nm_error("set_managed"@, iface, r)),
        ),
        ServiceAction::WpaRelease => Program::Ask(
            BusOpView::RemoveInterface,
            |r: BusReplyView|
                or_fail(
                    r,
                    Program::Return(Ok(())),
                    supplicant_error("remove_interface"@, iface, r),
                ),
        ),
        ServiceAction::WpaReclaim => Program::Ask(
            BusOpView::CreateInterface { iface },
            |r: BusReplyView|
                or_fail(
                    r,
                    Program::Return(Ok(())),
                    supplicant_error("create_interface"@, iface, r),
                ),
        ),
    }
}

/// How far an action has come.
#[derive(Debug, Clone, Copy, PartialEq, Eq, Structural)]
enum ServiceStage {
    Connect,
    Address,
    LookUp,
    DevicePath,
    Device,
    Apply,
}

/// The conversation that has a service release or reclaim an interface.
#[derive(Debug)]
pub struct ServiceTask {
    action: ServiceAction,
    iface: String,
    stage: ServiceStage,
}

fn manager_failure(op: &'static str, iface: String, failure: BusFailure) -> (e: Error)
    ensures
        e@ == nm_error(op@, iface@, Err(failure@)),
{
    Error::Linux(LinuxError::NetworkManager { op, iface, source: failure.text })
}

fn supplicant_failure(op: &'static str, iface: String, failure: BusFailure) -> (e: Error)
    ensures
        e@ == supplicant_error(op@, iface@, Err(failure@)),
{
    Error::Linux(LinuxError::Supplicant { op, iface, source: failure.text })
}

impl ServiceTask {
    /// What remains of the conversation.
    pub closed spec fn program(self) -> BusProgram {
        match self.stage {
            ServiceStage::Connect => service_program(self.action, self.iface@),
            ServiceStage::Address => address(self.action, self.iface@),
            ServiceStage::LookUp => look_up(self.action, self.iface@),
            ServiceStage::DevicePath => device_path(self.action, self.iface@),
            ServiceStage::Device => device(self.action, self.iface@),
            ServiceStage::Apply => apply(self.action, self.iface@),
        }
    }

    /// What remains after a step.
    pub open spec fn remaining(p: Progress<ServiceTask, Result<(), Error>>) -> BusProgram {
        match p {
            Progress::Pending(m) => m.program(),
            Progress::Finished(r) => Program::Return(crate::errors::unit_result(r)),
        }
    }

    /// Start an action on `iface`.
    pub fn start(action: ServiceAction, iface: &str) -> (m: ServiceTask)
        ensures
            m.program() == service_program(action, iface@),
    {
        ServiceTask { action, iface: iface.to_owned(), stage: ServiceStage::Connect }
    }

    /// A conversation that is pending has an open question.
    pub proof fn asks(self)
        ensures
            self.program() is Ask,
    {
    }

    /// The call whose outcome is awaited.
    pub fn request(&self) -> (op: BusOp)
        ensures
            self.program() is Ask,
            op@ == self.program()->Ask_0,
    {
        let manager = match self.action {
            ServiceAction::NmRelease | ServiceAction::NmReclaim => true,
            _ => false,
        };
        match self.stage {
            ServiceStage::Connect => BusOp::Connect,
            ServiceStage::Address => if manager {
                BusOp::Manager
            } else {
                BusOp::Supplicant
            },
            ServiceStage::LookUp => if manager {
                BusOp::GetDevice { iface: self.iface.clone() }
            } else {
                BusOp::GetInterface { iface: self.iface.clone() }
            },
            ServiceStage::DevicePath => BusOp::DevicePath,
            ServiceStage::Device => BusOp::Device,
            ServiceStage::Apply => match self.action {
                ServiceAction::NmRelease => BusOp::SetManaged { value: false },
                ServiceAction::NmReclaim => BusOp::SetManaged { value: true },
                ServiceAction::WpaRelease => BusOp::RemoveInterface,
                ServiceAction::WpaReclaim => BusOp::CreateInterface { iface: self.iface.clone() },
            },
        }
    }

    /// Go on with the outcome of the call.
    pub fn resume(self, reply: Result<(), BusFailure>) -> (p: Progress<Self, Result<(), Error>>)
        ensures
            Self::remaining(p) == (self.program()->Ask_1)(bus_reply(reply)),
    {
        let ServiceTask { action, iface, stage } = self;
        match reply {
            Ok(()) => {
                let stage = match (stage, action) {
                    (ServiceStage::Connect, _) => ServiceStage::Address,
                    (ServiceStage::Address, _) => ServiceStage::LookUp,
                    (ServiceStage::LookUp, ServiceAction::WpaRelease) => ServiceStage::Apply,
                    (ServiceStage::LookUp, ServiceAction::WpaReclaim) => {
                        return Progress::Finished(Ok(()));
                    },
                    (ServiceStage::LookUp, _) => ServiceStage::DevicePath,
                    (ServiceStage::DevicePath, _) => ServiceStage::Device,
                    (ServiceStage::Device, _) => ServiceStage::Apply,
                    (ServiceStage::Apply, _) => {
                        return Progress::Finished(Ok(()));
                    },
                };
                Progress::Pending(ServiceTask { action, iface, stage })
            },
            Err(failure) => {
                let error = match (stage, action) {
                    (ServiceStage::Connect, _) => Error::Linux(
                        LinuxError::DbusConnect { source: failure.text },
                    ),
                    (ServiceStage::Address, ServiceAction::NmRelease) => manager_failure(
                        "connect",
                        iface,
                        failure,
                    ),
                    (ServiceStage::Address, ServiceAction::NmReclaim) => manager_failure(
                        "connect",
                        iface,
                        failure,
                    ),
                    (ServiceStage::Address, _) => supplicant_failure(
                        "connect",
                        "".to_owned(),
                        failure,
                    ),
                    (ServiceStage::LookUp, ServiceAction::WpaRelease) => {
                        return Progress::Finished(Ok(()));
                    },
                    (ServiceStage::LookUp, ServiceAction::WpaReclaim) => {
                        return Progress::Pending(
                            ServiceTask { action, iface, stage: ServiceStage::Apply },
                        );
                    },
                    (ServiceStage::LookUp, _) => {
                        if is_unknown_device(&failure) {
                            return Progress::Finished(Ok(()));
                        }
                        manager_failure("get_device", iface, failure)
                    },
                    (ServiceStage::DevicePath, _) => manager_failure(
                        "device_path",
                        iface,
                        failure,
                    ),
                    (ServiceStage::Device, _) => manager_failure("device_proxy", iface, failure),
                    (ServiceStage::Apply, ServiceAction::NmRelease) => manager_failure(
                        "set_unmanaged",
                        iface,
                        failure,
                    ),
                    (ServiceStage::Apply, ServiceAction::NmReclaim) => manager_failure(
                        "set_managed",
                        iface,
                        failure,
                    ),
                    (ServiceStage::Apply, ServiceAction::WpaRelease) => supplicant_failure(
                        "remove_interface",
                        iface,
                        failure,
                    ),
                    (ServiceStage::Apply, ServiceAction::WpaReclaim) => supplicant_failure(
                        "create_interface",
                        iface,
                        failure,
                    ),
                };
                Progress::Finished(Err(error))
            },
        }
    }
}

} // verus!
