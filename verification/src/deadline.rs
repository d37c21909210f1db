//! Deadlines: no control operation may hang its caller.

use vstd::prelude::*;

use crate::errors::{Error, ErrorView, LinuxError, LinuxErrorView};
use crate::ops::{LinuxOp, LinuxOpView};

verus! {

/// How long a netlink operation may take, in milliseconds. Netlink calls are
/// local and return at once; this is a ceiling, not an expected wait.
pub const NETLINK_TIMEOUT_MS: u64 = 5000;

/// How long a D-Bus operation may take, in milliseconds.
pub const DBUS_TIMEOUT_MS: u64 = 5000;

/// The error of an operation that ran out of time.
pub open spec fn timed_out(op: Seq<char>, timeout_ms: u64) -> ErrorView {
    ErrorView::Linux(LinuxErrorView::OperationTimeout { op, timeout_ms })
}

/// The result of an operation that was run under a deadline, where `outcome` is
/// its own result, or `None` if the deadline passed first.
pub fn with_timeout<T>(op: &'static str, timeout_ms: u64, outcome: Option<Result<T, Error>>) -> (r:
    Result<T, Error>)
    ensures
        outcome matches Some(result) ==> r == result,
        outcome is None ==> r is Err && r->Err_0@ == timed_out(op@, timeout_ms),
        outcome is None ==> r->Err_0@ == ErrorView::Linux(
            LinuxErrorView::OperationTimeout { op: op@, timeout_ms },
        ),
{
    match outcome {
        Some(result) => result,
        None => Err(Error::Linux(LinuxError::OperationTimeout { op, timeout_ms })),
    }
}

/// The deadline an operation runs under as a whole: what it is called, and its
/// length. Enumeration bounds its phases one by one, and a presence probe reads
/// running out of time as absence, so these have none.
pub open spec fn deadline(op: LinuxOpView) -> Option<(Seq<char>, u64)> {
    match op {
        LinuxOpView::SetMode { .. } => Some(("set interface mode"@, NETLINK_TIMEOUT_MS)),
        LinuxOpView::SetFreq { .. } => Some(("set interface channel"@, NETLINK_TIMEOUT_MS)),
        LinuxOpView::Rename { .. } => Some(("rename interface"@, NETLINK_TIMEOUT_MS)),
        LinuxOpView::ReadMode { .. } => Some(("read interface mode"@, NETLINK_TIMEOUT_MS)),
        LinuxOpView::ReadChannel { .. } => Some(("read interface channel"@, NETLINK_TIMEOUT_MS)),
        LinuxOpView::NmRelease { .. } => Some(("NetworkManager release"@, DBUS_TIMEOUT_MS)),
        LinuxOpView::NmReclaim { .. } => Some(("NetworkManager reclaim"@, DBUS_TIMEOUT_MS)),
        LinuxOpView::WpaRelease { .. } => Some(("wpa_supplicant release"@, DBUS_TIMEOUT_MS)),
        LinuxOpView::WpaReclaim { .. } => Some(("wpa_supplicant reclaim"@, DBUS_TIMEOUT_MS)),
        _ => None,
    }
}

/// The deadline an operation runs under as a whole.
pub fn deadline_of(op: &LinuxOp) -> (r: Option<(&'static str, u64)>)
    ensures
        (match r {
            Some((label, ms)) => Some((label@, ms)),
            None => None,
        }) == deadline(op@),
{
    match op {
        LinuxOp::SetMode { index, name, mode } => Some(("set interface mode", NETLINK_TIMEOUT_MS)),
        LinuxOp::SetFreq { index, name, freq_mhz, width } => Some(
            ("set interface channel", NETLINK_TIMEOUT_MS),
        ),
        LinuxOp::Rename { index, old, new } => Some(("rename interface", NETLINK_TIMEOUT_MS)),
        LinuxOp::ReadMode { index } => Some(("read interface mode", NETLINK_TIMEOUT_MS)),
        LinuxOp::ReadChannel { index } => Some(("read interface channel", NETLINK_TIMEOUT_MS)),
        LinuxOp::NmRelease { iface } => Some(("NetworkManager release", DBUS_TIMEOUT_MS)),
        LinuxOp::NmReclaim { iface } => Some(("NetworkManager reclaim", DBUS_TIMEOUT_MS)),
        LinuxOp::WpaRelease { iface } => Some(("wpa_supplicant release", DBUS_TIMEOUT_MS)),
        LinuxOp::WpaReclaim { iface } => Some(("wpa_supplicant reclaim", DBUS_TIMEOUT_MS)),
        _ => None,
    }
}

} // verus!
