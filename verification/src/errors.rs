//! Error types.
//!
//! Failures to choose an interface or a channel are platform-neutral and stand
//! in [`Error`] directly; what goes wrong in a platform's control path is wrapped
//! in that platform's own error. An error that came from outside is kept as its
//! text.

use vstd::prelude::*;
use vstd::string::StringExecFns;

use crate::interface::{ChannelWidth, InterfaceMode};
use crate::text::decimal_string;

verus! {

/// What an interface reported when its frequency was read back after a set.
#[derive(Debug, Clone, Copy, PartialEq, Eq, Structural)]
pub enum FrequencyReadback {
    /// The interface reported this center frequency, in MHz.
    Mhz(u32),
    /// The interface reported no frequency.
    Unreported,
}

/// What an interface reported for its channel width when read back after a set.
#[derive(Debug, Clone, Copy, PartialEq, Eq, Structural)]
pub enum WidthReadback {
    /// The interface reported a width this library can request.
    Known(ChannelWidth),
    /// The interface reported 40 MHz, but the segment centre is neither
    /// primary + 10 nor primary - 10 MHz.
    Misaligned {
        /// The segment centre the interface reported, if it reported one.
        center_mhz: Option<u32>,
    },
    /// The interface reported a width this library never requests.
    Other {
        /// The reported width, in MHz.
        mhz: u32,
    },
    /// The interface reported no channel width at all.
    Unreported,
}

/// A failure originating in the Linux control path.
#[derive(Debug)]
#[non_exhaustive]
pub enum LinuxError {
    /// A netlink socket could not be opened.
    NetlinkConnect {
        /// Which socket failed to open, e.g. `"nl80211"` or `"rtnetlink"`.
        kind: &'static str,
        /// Phase at which the socket setup failed.
        phase: &'static str,
        /// Text of the underlying error.
        source: String,
    },
    /// A netlink dump returned an error.
    Dump {
        /// The nl80211 command being dumped.
        command: &'static str,
        /// Text of the underlying error.
        source: String,
    },
    /// A netlink dump did not complete within its deadline.
    Timeout {
        /// The nl80211 command being dumped.
        command: &'static str,
        /// Deadline that elapsed, in milliseconds.
        timeout_ms: u64,
    },
    /// A control operation did not complete within its deadline.
    OperationTimeout {
        /// The operation that timed out.
        op: &'static str,
        /// Deadline that elapsed, in milliseconds.
        timeout_ms: u64,
    },
    /// Bringing the interface link up or down failed.
    LinkSet {
        /// `"up"` or `"down"`.
        op: &'static str,
        /// The interface the operation targeted.
        iface: String,
        /// Text of the underlying error.
        source: String,
    },
    /// The nl80211 interface type change failed.
    SetMode {
        /// The interface the operation targeted.
        iface: String,
        /// Text of the underlying error.
        source: String,
    },
    /// The nl80211 channel set failed.
    SetChannel {
        /// The interface the operation targeted.
        iface: String,
        /// Text of the underlying error.
        source: String,
    },
    /// The interface did not report the requested frequency after the set.
    ChannelVerifyFailed {
        /// The interface that failed to confirm the frequency.
        iface: String,
        /// The center frequency that was requested, in MHz.
        requested_mhz: u32,
        /// What the interface reported instead.
        actual: FrequencyReadback,
    },
    /// The interface tuned to the right frequency at the wrong bandwidth.
    WidthVerifyFailed {
        /// The interface that failed to confirm the width.
        iface: String,
        /// The primary frequency that was confirmed, in MHz.
        primary_mhz: u32,
        /// The width that was requested.
        requested: ChannelWidth,
        /// What the interface reported instead.
        actual: WidthReadback,
    },
    /// The interface did not report monitor mode after the switch was applied.
    MonitorVerifyFailed {
        /// The interface that failed to confirm monitor mode.
        iface: String,
    },
    /// The interface did not report managed mode after being restored.
    ManagedVerifyFailed {
        /// The interface that failed to confirm managed mode.
        iface: String,
        /// The mode the interface reported instead.
        actual: InterfaceMode,
    },
    /// Renaming the interface failed.
    Rename {
        /// The name before the rename.
        old: String,
        /// The requested new name.
        new: String,
        /// Text of the underlying error.
        source: String,
    },
    /// The system D-Bus connection could not be established.
    DbusConnect {
        /// Text of the underlying error.
        source: String,
    },
    /// A NetworkManager D-Bus operation failed for a specific interface.
    NetworkManager {
        /// The operation being attempted.
        op: &'static str,
        /// The interface the operation targeted.
        iface: String,
        /// Text of the underlying error.
        source: String,
    },
    /// A wpa_supplicant D-Bus operation failed for a specific interface.
    Supplicant {
        /// The operation being attempted.
        op: &'static str,
        /// The interface the operation targeted.
        iface: String,
        /// Text of the underlying error.
        source: String,
    },
}

/// A failure originating in the Windows backend.
#[derive(Debug)]
#[non_exhaustive]
pub enum WindowsError {
    /// Monitor mode is not yet implemented on Windows.
    Unsupported,
}

/// The unified error type returned across the public API.
#[derive(Debug)]
#[non_exhaustive]
pub enum Error {
    /// The system reported no wireless interfaces at all.
    NoInterfaces,
    /// No detected interface is capable of monitor mode.
    NoMonitorCapable {
        /// How many interfaces were inspected before giving up.
        checked: usize,
    },
    /// The interface is already in monitor mode, so something else owns it.
    AlreadyMonitor {
        /// The interface that is already in monitor mode.
        iface: String,
    },
    /// A named interface was requested but does not exist.
    NotFound {
        /// The interface name that was requested.
        name: String,
        /// Comma-separated list of interface names that were found.
        available: String,
    },
    /// The interface's device has no such channel, in any band.
    ChannelUnavailable {
        /// The channel number that was requested.
        channel: u32,
        /// The interface it was requested on.
        iface: String,
    },
    /// The device has the channel, but the regulatory domain disables it.
    ChannelDisabled {
        /// The channel number that was requested.
        channel: u32,
        /// The interface it was requested on.
        iface: String,
    },
    /// The channel exists on this device, but in the band the call did not search.
    WrongBand {
        /// The channel number that was requested.
        channel: u32,
        /// The interface it was requested on.
        iface: String,
        /// The entry point that searches the band this channel is in.
        alternative: &'static str,
    },
    /// The channel number maps to more than one frequency within the searched bands.
    AmbiguousChannel {
        /// The channel number that was requested.
        channel: u32,
        /// The interface it was requested on.
        iface: String,
    },
    /// A requested interface name is not a valid kernel netdev name.
    InvalidInterfaceName {
        /// The offending name.
        name: String,
        /// Why it was rejected.
        reason: &'static str,
    },
    /// A failure in the Linux (nl80211 / NetworkManager / wpa_supplicant) path.
    Linux(LinuxError),
    /// A failure in the Windows backend.
    Windows(WindowsError),
}

/// The contents of a [`LinuxError`].
pub enum LinuxErrorView {
    /// A netlink socket could not be opened.
    NetlinkConnect {
        /// Which socket failed to open, e.g. `"nl80211"` or `"rtnetlink"`.
        kind: Seq<char>,
        /// Phase at which the socket setup failed.
        phase: Seq<char>,
        /// Text of the underlying error.
        source: Seq<char>,
    },
    /// A netlink dump returned an error.
    Dump {
        /// The nl80211 command being dumped.
        command: Seq<char>,
        /// Text of the underlying error.
        source: Seq<char>,
    },
    /// A netlink dump did not complete within its deadline.
    Timeout {
        /// The nl80211 command being dumped.
        command: Seq<char>,
        /// Deadline that elapsed, in milliseconds.
        timeout_ms: u64,
    },
    /// A control operation did not complete within its deadline.
    OperationTimeout {
        /// The operation that timed out.
        op: Seq<char>,
        /// Deadline that elapsed, in milliseconds.
        timeout_ms: u64,
    },
    /// Bringing the interface link up or down failed.
    LinkSet {
        /// `"up"` or `"down"`.
        op: Seq<char>,
        /// The interface the operation targeted.
        iface: Seq<char>,
        /// Text of the underlying error.
        source: Seq<char>,
    },
    /// The nl80211 interface type change failed.
    SetMode {
        /// The interface the operation targeted.
        iface: Seq<char>,
        /// Text of the underlying error.
        source: Seq<char>,
    },
    /// The nl80211 channel set failed.
    SetChannel {
        /// The interface the operation targeted.
        iface: Seq<char>,
        /// Text of the underlying error.
        source: Seq<char>,
    },
    /// The interface did not report the requested frequency after the set.
    ChannelVerifyFailed {
        /// The interface that failed to confirm the frequency.
        iface: Seq<char>,
        /// The center frequency that was requested, in MHz.
        requested_mhz: u32,
        /// What the interface reported instead.
        actual: FrequencyReadback,
    },
    /// The interface tuned to the right frequency at the wrong bandwidth.
    WidthVerifyFailed {
        /// The interface that failed to confirm the width.
        iface: Seq<char>,
        /// The primary frequency that was confirmed, in MHz.
        primary_mhz: u32,
        /// The width that was requested.
        requested: ChannelWidth,
        /// What the interface reported instead.
        actual: WidthReadback,
    },
    /// The interface did not report monitor mode after the switch was applied.
    MonitorVerifyFailed {
        /// The interface that failed to confirm monitor mode.
        iface: Seq<char>,
    },
    /// The interface did not report managed mode after being restored.
    ManagedVerifyFailed {
        /// The interface that failed to confirm managed mode.
        iface: Seq<char>,
        /// The mode the interface reported instead.
        actual: InterfaceMode,
    },
    /// Renaming the interface failed.
    Rename {
        /// The name before the rename.
        old: Seq<char>,
        /// The requested new name.
        new: Seq<char>,
        /// Text of the underlying error.
        source: Seq<char>,
    },
    /// The system D-Bus connection could not be established.
    DbusConnect {
        /// Text of the underlying error.
        source: Seq<char>,
    },
    /// A NetworkManager D-Bus operation failed for a specific interface.
    NetworkManager {
        /// The operation being attempted.
        op: Seq<char>,
        /// The interface the operation targeted.
        iface: Seq<char>,
        /// Text of the underlying error.
        source: Seq<char>,
    },
    /// A wpa_supplicant D-Bus operation failed for a specific interface.
    Supplicant {
        /// The operation being attempted.
        op: Seq<char>,
        /// The interface the operation targeted.
        iface: Seq<char>,
        /// Text of the underlying error.
        source: Seq<char>,
    },
}

/// The contents of an [`Error`].
pub enum ErrorView {
    /// The system reported no wireless interfaces at all.
    NoInterfaces,
    /// No detected interface is capable of monitor mode.
    NoMonitorCapable {
        /// How many interfaces were inspected before giving up.
        checked: usize,
    },
    /// The interface is already in monitor mode, so something else owns it.
    AlreadyMonitor {
        /// The interface that is already in monitor mode.
        iface: Seq<char>,
    },
    /// A named interface was requested but does not exist.
    NotFound {
        /// The interface name that was requested.
        name: Seq<char>,
        /// Comma-separated list of interface names that were found.
        available: Seq<char>,
    },
    /// The interface's device has no such channel, in any band.
    ChannelUnavailable {
        /// The channel number that was requested.
        channel: u32,
        /// The interface it was requested on.
        iface: Seq<char>,
    },
    /// The device has the channel, but the regulatory domain disables it.
    ChannelDisabled {
        /// The channel number that was requested.
        channel: u32,
        /// The interface it was requested on.
        iface: Seq<char>,
    },
    /// The channel exists on this device, but in the band the call did not search.
    WrongBand {
        /// The channel number that was requested.
        channel: u32,
        /// The interface it was requested on.
        iface: Seq<char>,
        /// The entry point that searches the band this channel is in.
        alternative: Seq<char>,
    },
    /// The channel number maps to more than one frequency within the searched bands.
    AmbiguousChannel {
        /// The channel number that was requested.
        channel: u32,
        /// The interface it was requested on.
        iface: Seq<char>,
    },
    /// A requested interface name is not a valid kernel netdev name.
    InvalidInterfaceName {
        /// The offending name.
        name: Seq<char>,
        /// Why it was rejected.
        reason: Seq<char>,
    },
    /// A Linux failure.
    Linux(LinuxErrorView),
    /// A Windows failure.
    Windows(WindowsError),
}

impl View for LinuxError {
    type V = LinuxErrorView;

    open spec fn view(&self) -> LinuxErrorView {
        match self {
            LinuxError::NetlinkConnect { kind, phase, source } => LinuxErrorView::NetlinkConnect { kind: kind@, phase: phase@, source: source@ },
            LinuxError::Dump { command, source } => LinuxErrorView::Dump { command: command@, source: source@ },
            LinuxError::Timeout { command, timeout_ms } => LinuxErrorView::Timeout { command: command@, timeout_ms: *timeout_ms },
            LinuxError::OperationTimeout { op, timeout_ms } => LinuxErrorView::OperationTimeout { op: op@, timeout_ms: *timeout_ms },
            LinuxError::LinkSet { op, iface, source } => LinuxErrorView::LinkSet { op: op@, iface: iface@, source: source@ },
            LinuxError::SetMode { iface, source } => LinuxErrorView::SetMode { iface: iface@, source: source@ },
            LinuxError::SetChannel { iface, source } => LinuxErrorView::SetChannel { iface: iface@, source: source@ },
            LinuxError::ChannelVerifyFailed { iface, requested_mhz, actual } => LinuxErrorView::ChannelVerifyFailed { iface: iface@, requested_mhz: *requested_mhz, actual: *actual },
            LinuxError::WidthVerifyFailed { iface, primary_mhz, requested, actual } => LinuxErrorView::WidthVerifyFailed { iface: iface@, primary_mhz: *primary_mhz, requested: *requested, actual: *actual },
            LinuxError::MonitorVerifyFailed { iface } => LinuxErrorView::MonitorVerifyFailed { iface: iface@ },
            LinuxError::ManagedVerifyFailed { iface, actual } => LinuxErrorView::ManagedVerifyFailed { iface: iface@, actual: *actual },
            LinuxError::Rename { old, new, source } => LinuxErrorView::Rename { old: old@, new: new@, source: source@ },
            LinuxError::DbusConnect { source } => LinuxErrorView::DbusConnect { source: source@ },
            LinuxError::NetworkManager { op, iface, source } => LinuxErrorView::NetworkManager { op: op@, iface: iface@, source: source@ },
            LinuxError::Supplicant { op, iface, source } => LinuxErrorView::Supplicant { op: op@, iface: iface@, source: source@ },
        }
    }
}

impl View for Error {
    type V = ErrorView;

    open spec fn view(&self) -> ErrorView {
        match self {
            Error::NoInterfaces => ErrorView::NoInterfaces,
            Error::NoMonitorCapable { checked } => ErrorView::NoMonitorCapable { checked: *checked },
            Error::AlreadyMonitor { iface } => ErrorView::AlreadyMonitor { iface: iface@ },
            Error::NotFound { name, available } => ErrorView::NotFound { name: name@, available: available@ },
            Error::ChannelUnavailable { channel, iface } => ErrorView::ChannelUnavailable { channel: *channel, iface: iface@ },
            Error::ChannelDisabled { channel, iface } => ErrorView::ChannelDisabled { channel: *channel, iface: iface@ },
            Error::WrongBand { channel, iface, alternative } => ErrorView::WrongBand { channel: *channel, iface: iface@, alternative: alternative@ },
            Error::AmbiguousChannel { channel, iface } => ErrorView::AmbiguousChannel { channel: *channel, iface: iface@ },
            Error::InvalidInterfaceName { name, reason } => ErrorView::InvalidInterfaceName { name: name@, reason: reason@ },
            Error::Linux(e) => ErrorView::Linux(e@),
            Error::Windows(e) => ErrorView::Windows(*e),
        }
    }
}

impl FrequencyReadback {
    /// The readback in words.
    pub open spec fn text(self) -> Seq<char> {
        match self {
            FrequencyReadback::Mhz(mhz) => crate::text::decimal(mhz as nat) + " MHz"@,
            FrequencyReadback::Unreported => "none"@,
        }
    }

    /// The readback in words.
    pub fn to_string(&self) -> (s: String)
        ensures
            s@ == self.text(),
    {
        match self {
            FrequencyReadback::Mhz(mhz) => {
                let mut s = decimal_string(*mhz as u64);
                s.append(" MHz");
                s
            },
            FrequencyReadback::Unreported => "none".to_owned(),
        }
    }
}

impl From<Option<u32>> for FrequencyReadback {
    fn from(value: Option<u32>) -> (r: Self) {
        match value {
            Some(mhz) => FrequencyReadback::Mhz(mhz),
            None => FrequencyReadback::Unreported,
        }
    }
}

impl vstd::std_specs::convert::FromSpecImpl<Option<u32>> for FrequencyReadback {
    open spec fn obeys_from_spec() -> bool {
        true
    }

    open spec fn from_spec(value: Option<u32>) -> Self {
        match value {
            Some(mhz) => FrequencyReadback::Mhz(mhz),
            None => FrequencyReadback::Unreported,
        }
    }
}

impl From<LinuxError> for Error {
    fn from(error: LinuxError) -> (r: Self) {
        Error::Linux(error)
    }
}

impl vstd::std_specs::convert::FromSpecImpl<LinuxError> for Error {
    open spec fn obeys_from_spec() -> bool {
        true
    }

    open spec fn from_spec(error: LinuxError) -> Self {
        Error::Linux(error)
    }
}

impl From<WindowsError> for Error {
    fn from(error: WindowsError) -> (r: Self) {
        Error::Windows(error)
    }
}

impl vstd::std_specs::convert::FromSpecImpl<WindowsError> for Error {
    open spec fn obeys_from_spec() -> bool {
        true
    }

    open spec fn from_spec(error: WindowsError) -> Self {
        Error::Windows(error)
    }
}

impl WidthReadback {
    /// The readback in words.
    pub open spec fn text(self) -> Seq<char> {
        match self {
            WidthReadback::Known(width) => width.text(),
            WidthReadback::Misaligned { center_mhz: Some(mhz) } => {
                "40 MHz with segment centre "@ + crate::text::decimal(mhz as nat) + " MHz"@
            },
            WidthReadback::Misaligned { center_mhz: None } => {
                "40 MHz with no segment centre reported"@
            },
            WidthReadback::Other { mhz } => crate::text::decimal(mhz as nat) + " MHz"@,
            WidthReadback::Unreported => "none"@,
        }
    }

    /// The readback in words.
    pub fn to_string(&self) -> (s: String)
        ensures
            s@ == self.text(),
    {
        match self {
            WidthReadback::Known(width) => width.to_string(),
            WidthReadback::Misaligned { center_mhz } => match center_mhz {
                Some(mhz) => {
                    let mut s = "40 MHz with segment centre ".to_owned();
                    s.append(&decimal_string(*mhz as u64));
                    s.append(" MHz");
                    s
                },
                None => "40 MHz with no segment centre reported".to_owned(),
            },
            WidthReadback::Other { mhz } => {
                let mut s = decimal_string(*mhz as u64);
                s.append(" MHz");
                s
            },
            WidthReadback::Unreported => "none".to_owned(),
        }
    }
}

impl WindowsError {
    /// The message shown for the error.
    pub open spec fn text(self) -> Seq<char> {
        "Windows monitor-mode support is not yet implemented (requires Npcap)"@
    }

    /// The message shown for the error.
    pub fn to_string(&self) -> (s: String)
        ensures
            s@ == self.text(),
    {
        "Windows monitor-mode support is not yet implemented (requires Npcap)".to_owned()
    }
}

impl LinuxErrorView {
    /// The message shown for the error.
    pub open spec fn text(self) -> Seq<char> {
        match self {
            LinuxErrorView::NetlinkConnect { kind, phase, source } => {
                "failed to open "@ + kind + " netlink socket during "@ + phase + ": "@ + source
            },
            LinuxErrorView::Dump { command, source } => {
                "nl80211 "@ + command + " dump failed: "@ + source
            },
            LinuxErrorView::Timeout { command, timeout_ms } => {
                "nl80211 "@ + command + " dump timed out after "@
                    + crate::text::decimal(timeout_ms as nat) + " ms"@
            },
            LinuxErrorView::OperationTimeout { op, timeout_ms } => {
                op + " timed out after "@ + crate::text::decimal(timeout_ms as nat) + " ms"@
            },
            LinuxErrorView::LinkSet { op, iface, source } => {
                "failed to bring interface '"@ + iface + "' link "@ + op + ": "@ + source
            },
            LinuxErrorView::SetMode { iface, source } => {
                "failed to set interface '"@ + iface + "' mode via nl80211: "@ + source
            },
            LinuxErrorView::SetChannel { iface, source } => {
                "failed to set interface '"@ + iface + "' channel via nl80211: "@ + source
            },
            LinuxErrorView::ChannelVerifyFailed { iface, requested_mhz, actual } => {
                "interface '"@ + iface + "' did not tune to "@
                    + crate::text::decimal(requested_mhz as nat)
                    + " MHz after the set (reads as "@ + actual.text() + ")"@
            },
            LinuxErrorView::WidthVerifyFailed { iface, primary_mhz, requested, actual } => {
                "interface '"@ + iface + "' tuned to "@ + crate::text::decimal(primary_mhz as nat)
                    + " MHz but at "@ + actual.text() + " rather than the requested "@
                    + requested.text()
            },
            LinuxErrorView::MonitorVerifyFailed { iface } => {
                "interface '"@ + iface + "' did not enter monitor mode after the switch"@
            },
            LinuxErrorView::ManagedVerifyFailed { iface, actual } => {
                "interface '"@ + iface
                    + "' did not return to managed mode after the switch (reads as "@
                    + actual.text() + ")"@
            },
            LinuxErrorView::Rename { old, new, source } => {
                "failed to rename interface '"@ + old + "' to '"@ + new + "': "@ + source
            },
            LinuxErrorView::DbusConnect { source } => {
                "failed to connect to the system D-Bus: "@ + source
            },
            LinuxErrorView::NetworkManager { op, iface, source } => {
                "NetworkManager "@ + op + " failed for interface '"@ + iface + "': "@ + source
            },
            LinuxErrorView::Supplicant { op, iface, source } => {
                "wpa_supplicant "@ + op + " failed for interface '"@ + iface + "': "@ + source
            },
        }
    }
}

impl LinuxError {
    /// The message shown for the error.
    pub fn to_string(&self) -> (s: String)
        ensures
            s@ == self@.text(),
    {
        match self {
            LinuxError::NetlinkConnect { kind, phase, source } => {
                let mut s = "failed to open ".to_owned();
                s.append(kind);
                s.append(" netlink socket during ");
                s.append(phase);
                s.append(": ");
                s.append(source.as_str());
                s
            },
            LinuxError::Dump { command, source } => {
                let mut s = "nl80211 ".to_owned();
                s.append(command);
                s.append(" dump failed: ");
                s.append(source.as_str());
                s
            },
            LinuxError::Timeout { command, timeout_ms } => {
                let mut s = "nl80211 ".to_owned();
                s.append(command);
                s.append(" dump timed out after ");
                s.append(&decimal_string(*timeout_ms));
                s.append(" ms");
                s
            },
            LinuxError::OperationTimeout { op, timeout_ms } => {
                let mut s = (*op).to_owned();
                s.append(" timed out after ");
                s.append(&decimal_string(*timeout_ms));
                s.append(" ms");
                s
            },
            LinuxError::LinkSet { op, iface, source } => {
                let mut s = "failed to bring interface '".to_owned();
                s.append(iface.as_str());
                s.append("' link ");
                s.append(op);
                s.append(": ");
                s.append(source.as_str());
                s
            },
            LinuxError::SetMode { iface, source } => {
                let mut s = "failed to set interface '".to_owned();
                s.append(iface.as_str());
                s.append("' mode via nl80211: ");
                s.append(source.as_str());
                s
            },
            LinuxError::SetChannel { iface, source } => {
                let mut s = "failed to set interface '".to_owned();
                s.append(iface.as_str());
                s.append("' channel via nl80211: ");
                s.append(source.as_str());
                s
            },
            LinuxError::ChannelVerifyFailed { iface, requested_mhz, actual } => {
                let mut s = "interface '".to_owned();
                s.append(iface.as_str());
                s.append("' did not tune to ");
                s.append(&decimal_string(*requested_mhz as u64));
                s.append(" MHz after the set (reads as ");
                s.append(&actual.to_string());
                s.append(")");
                s
            },
            LinuxError::WidthVerifyFailed { iface, primary_mhz, requested, actual } => {
                let mut s = "interface '".to_owned();
                s.append(iface.as_str());
                s.append("' tuned to ");
                s.append(&decimal_string(*primary_mhz as u64));
                s.append(" MHz but at ");
                s.append(&actual.to_string());
                s.append(" rather than the requested ");
                s.append(&requested.to_string());
                s
            },
            LinuxError::MonitorVerifyFailed { iface } => {
                let mut s = "interface '".to_owned();
                s.append(iface.as_str());
                s.append("' did not enter monitor mode after the switch");
                s
            },
            LinuxError::ManagedVerifyFailed { iface, actual } => {
                let mut s = "interface '".to_owned();
                s.append(iface.as_str());
                s.append("' did not return to managed mode after the switch (reads as ");
                s.append(&actual.to_string());
                s.append(")");
                s
            },
            LinuxError::Rename { old, new, source } => {
                let mut s = "failed to rename interface '".to_owned();
                s.append(old.as_str());
                s.append("' to '");
                s.append(new.as_str());
                s.append("': ");
                s.append(source.as_str());
                s
            },
            LinuxError::DbusConnect { source } => {
                let mut s = "failed to connect to the system D-Bus: ".to_owned();
                s.append(source.as_str());
                s
            },
            LinuxError::NetworkManager { op, iface, source } => {
                let mut s = "NetworkManager ".to_owned();
                s.append(op);
                s.append(" failed for interface '");
                s.append(iface.as_str());
                s.append("': ");
                s.append(source.as_str());
                s
            },
            LinuxError::Supplicant { op, iface, source } => {
                let mut s = "wpa_supplicant ".to_owned();
                s.append(op);
                s.append(" failed for interface '");
                s.append(iface.as_str());
                s.append("': ");
                s.append(source.as_str());
                s
            },
        }
    }
}

impl ErrorView {
    /// The message shown for the error.
    pub open spec fn text(self) -> Seq<char> {
        match self {
            ErrorView::NoInterfaces => {
                "no wireless interfaces found on this system"@
            },
            ErrorView::NoMonitorCapable { checked } => {
                "no monitor-capable wireless interface found (checked "@
                    + crate::text::decimal(checked as nat) + " interface(s))"@
            },
            ErrorView::AlreadyMonitor { iface } => {
                "interface '"@ + iface
                    + "' is already in monitor mode and may be in use by another tool; release it with stop_monitor(\""@
                    + iface + "\") first if that state is stale"@
            },
            ErrorView::NotFound { name, available } => {
                "wireless interface '"@ + name + "' not found (available: ["@ + available + "])"@
            },
            ErrorView::ChannelUnavailable { channel, iface } => {
                "channel "@ + crate::text::decimal(channel as nat)
                    + " is not available on interface '"@ + iface + "'"@
            },
            ErrorView::ChannelDisabled { channel, iface } => {
                "channel "@ + crate::text::decimal(channel as nat) + " exists on interface '"@
                    + iface
                    + "' but is disabled by the current regulatory domain (check it with `iw reg get`)"@
            },
            ErrorView::WrongBand { channel, iface, alternative } => {
                "channel "@ + crate::text::decimal(channel as nat) + " on '"@ + iface
                    + "' is in another band; use "@ + alternative + "() to tune it"@
            },
            ErrorView::AmbiguousChannel { channel, iface } => {
                "channel "@ + crate::text::decimal(channel as nat) + " is ambiguous on '"@ + iface
                    + "': it matches more than one frequency"@
            },
            ErrorView::InvalidInterfaceName { name, reason } => {
                "invalid interface name '"@ + name + "': "@ + reason
            },
            ErrorView::Linux(e) => e.text(),
            ErrorView::Windows(e) => e.text(),
        }
    }
}

impl Error {
    /// The message shown for the error.
    pub fn to_string(&self) -> (s: String)
        ensures
            s@ == self@.text(),
    {
        match self {
            Error::NoInterfaces => {
                "no wireless interfaces found on this system".to_owned()
            },
            Error::NoMonitorCapable { checked } => {
                let mut s = "no monitor-capable wireless interface found (checked ".to_owned();
                s.append(&decimal_string(*checked as u64));
                s.append(" interface(s))");
                s
            },
            Error::AlreadyMonitor { iface } => {
                let mut s = "interface '".to_owned();
                s.append(iface.as_str());
                s.append("' is already in monitor mode and may be in use by another tool; release it with stop_monitor(\"");
                s.append(iface.as_str());
                s.append("\") first if that state is stale");
                s
            },
            Error::NotFound { name, available } => {
                let mut s = "wireless interface '".to_owned();
                s.append(name.as_str());
                s.append("' not found (available: [");
                s.append(available.as_str());
                s.append("])");
                s
            },
            Error::ChannelUnavailable { channel, iface } => {
                let mut s = "channel ".to_owned();
                s.append(&decimal_string(*channel as u64));
                s.append(" is not available on interface '");
                s.append(iface.as_str());
                s.append("'");
                s
            },
            Error::ChannelDisabled { channel, iface } => {
                let mut s = "channel ".to_owned();
                s.append(&decimal_string(*channel as u64));
                s.append(" exists on interface '");
                s.append(iface.as_str());
                s.append("' but is disabled by the current regulatory domain (check it with `iw reg get`)");
                s
            },
            Error::WrongBand { channel, iface, alternative } => {
                let mut s = "channel ".to_owned();
                s.append(&decimal_string(*channel as u64));
                s.append(" on '");
                s.append(iface.as_str());
                s.append("' is in another band; use ");
                s.append(alternative);
                s.append("() to tune it");
                s
            },
            Error::AmbiguousChannel { channel, iface } => {
                let mut s = "channel ".to_owned();
                s.append(&decimal_string(*channel as u64));
                s.append(" is ambiguous on '");
                s.append(iface.as_str());
                s.append("': it matches more than one frequency");
                s
            },
            Error::InvalidInterfaceName { name, reason } => {
                let mut s = "invalid interface name '".to_owned();
                s.append(name.as_str());
                s.append("': ");
                s.append(reason);
                s
            },
            Error::Linux(e) => e.to_string(),
            Error::Windows(e) => e.to_string(),
        }
    }
}

/// The contents of a result whose failure is an [`Error`].
pub open spec fn unit_result(r: core::result::Result<(), Error>) -> core::result::Result<
    (),
    ErrorView,
> {
    match r {
        Ok(u) => Ok(u),
        Err(e) => Err(e@),
    }
}

} // verus!
