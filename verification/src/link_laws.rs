//! What is asked of the kernel for one link, and of a service for one interface,
//! step by step.

use vstd::prelude::*;

use crate::errors::{ErrorView, LinuxErrorView};
use crate::interface::{ChannelWidth, InterfaceMode};
use crate::link::{LinkOpView, LinkReplyView};
use crate::ops::LinuxOpView;
use crate::services::{BusOpView, BusReplyView, ServiceAction};

verus! {

/// The error of a netlink socket that could not be opened.
pub open spec fn socket_error(kind: Seq<char>, source: Seq<char>) -> ErrorView {
    ErrorView::Linux(LinuxErrorView::NetlinkConnect { kind, phase: "connect"@, source })
}

/// The error of a link that could not be brought up or down.
pub open spec fn link_error(op: Seq<char>, iface: Seq<char>, source: Seq<char>) -> ErrorView {
    ErrorView::Linux(LinuxErrorView::LinkSet { op, iface, source })
}

/// A switch brings down the link with the given index, sets the interface type of the
/// mode on it, and brings it up. It succeeds exactly when each of these was done; the
/// failure is that of the step that failed.
pub proof fn a_switch_sets_the_type_of_the_mode(
    index: u32,
    name: Seq<char>,
    mode: InterfaceMode,
    iftype: u32,
    replies: Seq<LinkReplyView>,
)
    requires
        crate::dump_laws::type_of(iftype, mode) || mode == InterfaceMode::Other(iftype),
        replies.len() >= 5,
    ensures
        ({
            let p = crate::link::switch_program(index, name, mode);
            let asked = crate::program::asked(p, replies);
            let r = crate::program::outcome(p, replies);
            let steps = seq![
                LinkOpView::OpenRoute,
                LinkOpView::SetLink { index, up: false },
                LinkOpView::OpenWireless,
                LinkOpView::SetIftype { index, iftype },
                LinkOpView::SetLink { index, up: true },
            ];
            match replies[0] {
                Err(source) => asked == steps.take(1) && r == Some(
                    Err::<(), ErrorView>(socket_error("rtnetlink"@, source)),
                ),
                Ok(u) => match replies[1] {
                    Err(source) => asked == steps.take(2) && r == Some(
                        Err::<(), ErrorView>(link_error("down"@, name, source)),
                    ),
                    Ok(u) => match replies[2] {
                        Err(source) => asked == steps.take(3).push(steps[4]) && r == Some(
                            Err::<(), ErrorView>(socket_error("nl80211"@, source)),
                        ),
                        Ok(u) => {
                            &&& asked == steps
                            &&& match replies[3] {
                                Err(source) => r == Some(
                                    Err::<(), ErrorView>(
                                        ErrorView::Linux(
                                            LinuxErrorView::SetMode { iface: name, source },
                                        ),
                                    ),
                                ),
                                Ok(u) => match replies[4] {
                                    Err(source) => r == Some(
                                        Err::<(), ErrorView>(link_error("up"@, name, source)),
                                    ),
                                    Ok(u) => r matches Some(x) && x is Ok,
                                },
                            }
                        },
                    },
                },
            }
        }),
{
    reveal_with_fuel(crate::program::asked, 6);
    reveal_with_fuel(crate::program::outcome, 6);
    let p = crate::link::switch_program(index, name, mode);
    let asked = crate::program::asked(p, replies);
    let steps = seq![
        LinkOpView::OpenRoute,
        LinkOpView::SetLink { index, up: false },
        LinkOpView::OpenWireless,
        LinkOpView::SetIftype { index, iftype },
        LinkOpView::SetLink { index, up: true },
    ];
    if replies[0] is Err {
        assert(asked =~= steps.take(1));
    } else if replies[1] is Err {
        assert(asked =~= steps.take(2));
    } else if replies[2] is Err {
        assert(asked =~= steps.take(3).push(steps[4]));
    } else {
        assert(asked =~= steps);
    }
}

/// A rename brings down the link with the given index, gives it the new name, and
/// brings it up. It succeeds exactly when each of these was done; the failure is that
/// of the first step that failed.
pub proof fn a_rename_sets_the_new_name(
    index: u32,
    old: Seq<char>,
    new: Seq<char>,
    replies: Seq<LinkReplyView>,
)
    requires
        replies.len() >= 4,
    ensures
        ({
            let p = crate::link::rename_program(index, old, new);
            let asked = crate::program::asked(p, replies);
            let r = crate::program::outcome(p, replies);
            let steps = seq![
                LinkOpView::OpenRoute,
                LinkOpView::SetLink { index, up: false },
                LinkOpView::SetName { index, name: new },
                LinkOpView::SetLink { index, up: true },
            ];
            match replies[0] {
                Err(source) => asked == steps.take(1) && r == Some(
                    Err::<(), ErrorView>(socket_error("rtnetlink"@, source)),
                ),
                Ok(u) => match replies[1] {
                    Err(source) => asked == steps.take(2) && r == Some(
                        Err::<(), ErrorView>(link_error("down"@, old, source)),
                    ),
                    Ok(u) => {
                        &&& asked == steps
                        &&& match replies[2] {
                            Err(source) => r == Some(
                                Err::<(), ErrorView>(
                                    ErrorView::Linux(LinuxErrorView::Rename { old, new, source }),
                                ),
                            ),
                            Ok(u) => match replies[3] {
                                Err(source) => r == Some(
                                    Err::<(), ErrorView>(link_error("up"@, new, source)),
                                ),
                                Ok(u) => r matches Some(x) && x is Ok,
                            },
                        }
                    },
                },
            }
        }),
{
    reveal_with_fuel(crate::program::asked, 6);
    reveal_with_fuel(crate::program::outcome, 6);
    let asked = crate::program::asked(crate::link::rename_program(index, old, new), replies);
    let steps = seq![
        LinkOpView::OpenRoute,
        LinkOpView::SetLink { index, up: false },
        LinkOpView::SetName { index, name: new },
        LinkOpView::SetLink { index, up: true },
    ];
    if replies[0] is Err {
        assert(asked =~= steps.take(1));
    } else if replies[1] is Err {
        assert(asked =~= steps.take(2));
    } else {
        assert(asked =~= steps);
    }
}

/// Tuning sets exactly the given frequency and width on the interface with the given
/// index, and succeeds exactly when that was done.
pub proof fn tuning_sets_what_was_given(
    index: u32,
    name: Seq<char>,
    freq_mhz: u32,
    width: ChannelWidth,
    replies: Seq<LinkReplyView>,
)
    requires
        replies.len() >= 2,
    ensures
        ({
            let p = crate::link::tune_program(index, name, freq_mhz, width);
            let asked = crate::program::asked(p, replies);
            let r = crate::program::outcome(p, replies);
            match replies[0] {
                Err(source) => asked == seq![LinkOpView::OpenWireless] && r == Some(
                    Err::<(), ErrorView>(socket_error("nl80211"@, source)),
                ),
                Ok(u) => {
                    &&& asked == seq![
                        LinkOpView::OpenWireless,
                        LinkOpView::SetWiphy { index, freq_mhz, width },
                    ]
                    &&& match replies[1] {
                        Err(source) => r == Some(
                            Err::<(), ErrorView>(
                                ErrorView::Linux(
                                    LinuxErrorView::SetChannel { iface: name, source },
                                ),
                            ),
                        ),
                        Ok(u) => r matches Some(x) && x is Ok,
                    }
                },
            }
        }),
{
    reveal_with_fuel(crate::program::asked, 4);
    reveal_with_fuel(crate::program::outcome, 4);
    let asked = crate::program::asked(
        crate::link::tune_program(index, name, freq_mhz, width),
        replies,
    );
    if replies[0] is Err {
        assert(asked =~= seq![LinkOpView::OpenWireless]);
    } else {
        assert(asked =~= seq![
            LinkOpView::OpenWireless,
            LinkOpView::SetWiphy { index, freq_mhz, width },
        ]);
    }
}

/// The error of a NetworkManager call.
pub open spec fn manager_error(op: Seq<char>, iface: Seq<char>, source: Seq<char>) -> ErrorView {
    ErrorView::Linux(LinuxErrorView::NetworkManager { op, iface, source })
}

/// NetworkManager is asked for the device of the interface, and to stop managing it on
/// a release or to manage it again on a reclaim. An interface that it says it does not
/// know is left alone, which is a success; any other failure is that of its step.
pub proof fn the_manager_is_asked_about_the_device(
    action: ServiceAction,
    iface: Seq<char>,
    replies: Seq<BusReplyView>,
)
    requires
        action == ServiceAction::NmRelease || action == ServiceAction::NmReclaim,
        replies.len() >= 6,
    ensures
        ({
            let p = crate::services::service_program(action, iface);
            let asked = crate::program::asked(p, replies);
            let r = crate::program::outcome(p, replies);
            let again = action == ServiceAction::NmReclaim;
            let steps = seq![
                BusOpView::Connect,
                BusOpView::Manager,
                BusOpView::GetDevice { iface },
                BusOpView::DevicePath,
                BusOpView::Device,
                BusOpView::SetManaged { value: again },
            ];
            match replies[0] {
                Err(f) => asked == steps.take(1) && r == Some(
                    Err::<(), ErrorView>(
                        ErrorView::Linux(LinuxErrorView::DbusConnect { source: f.text }),
                    ),
                ),
                Ok(u) => match replies[1] {
                    Err(f) => asked == steps.take(2) && r == Some(
                        Err::<(), ErrorView>(manager_error("connect"@, iface, f.text)),
                    ),
                    Ok(u) => match replies[2] {
                        Err(f) => {
                            &&& asked == steps.take(3)
                            &&& if f.name == Some(
                                "org.freedesktop.NetworkManager.UnknownDevice"@,
                            ) {
                                r matches Some(x) && x is Ok
                            } else {
                                r == Some(
                                    Err::<(), ErrorView>(
                                        manager_error("get_device"@, iface, f.text),
                                    ),
                                )
                            }
                        },
                        Ok(u) => match replies[3] {
                            Err(f) => asked == steps.take(4) && r == Some(
                                Err::<(), ErrorView>(manager_error("device_path"@, iface, f.text)),
                            ),
                            Ok(u) => match replies[4] {
                                Err(f) => asked == steps.take(5) && r == Some(
                                    Err::<(), ErrorView>(
                                        manager_error("device_proxy"@, iface, f.text),
                                    ),
                                ),
                                Ok(u) => {
                                    &&& asked == steps
                                    &&& match replies[5] {
                                        Err(f) => r == Some(
                                            Err::<(), ErrorView>(
                                                manager_error(
                                                    if again {
                                                        "set_managed"@
                                                    } else {
                                                        "set_unmanaged"@
                                                    },
                                                    iface,
                                                    f.text,
                                                ),
                                            ),
                                        ),
                                        Ok(u) => r matches Some(x) && x is Ok,
                                    }
                                },
                            },
                        },
                    },
                },
            }
        }),
{
    reveal_with_fuel(crate::program::asked, 7);
    reveal_with_fuel(crate::program::outcome, 7);
    let asked = crate::program::asked(crate::services::service_program(action, iface), replies);
    let steps = seq![
        BusOpView::Connect,
        BusOpView::Manager,
        BusOpView::GetDevice { iface },
        BusOpView::DevicePath,
        BusOpView::Device,
        BusOpView::SetManaged { value: action == ServiceAction::NmReclaim },
    ];
    if replies[0] is Err {
        assert(asked =~= steps.take(1));
    } else if replies[1] is Err {
        assert(asked =~= steps.take(2));
    } else if replies[2] is Err {
        assert(asked =~= steps.take(3));
    } else if replies[3] is Err {
        assert(asked =~= steps.take(4));
    } else if replies[4] is Err {
        assert(asked =~= steps.take(5));
    } else {
        assert(asked =~= steps);
    }
}

/// The error of a wpa_supplicant call.
pub open spec fn supplicant_failed(op: Seq<char>, iface: Seq<char>, source: Seq<char>) -> ErrorView {
    ErrorView::Linux(LinuxErrorView::Supplicant { op, iface, source })
}

/// A failure to reach wpa_supplicant, or of what it is asked to change, is reported as
/// what it is; nothing is asked after it.
pub proof fn a_supplicant_failure_is_reported(
    action: ServiceAction,
    iface: Seq<char>,
    replies: Seq<BusReplyView>,
)
    requires
        action == ServiceAction::WpaRelease || action == ServiceAction::WpaReclaim,
        replies.len() >= 4,
    ensures
        ({
            let p = crate::services::service_program(action, iface);
            let asked = crate::program::asked(p, replies);
            let r = crate::program::outcome(p, replies);
            let release = action == ServiceAction::WpaRelease;
            &&& replies[0] matches Err(f) ==> asked == seq![BusOpView::Connect] && r == Some(
                Err::<(), ErrorView>(
                    ErrorView::Linux(LinuxErrorView::DbusConnect { source: f.text }),
                ),
            )
            &&& replies[0] is Ok ==> (replies[1] matches Err(f) ==> asked == seq![
                BusOpView::Connect,
                BusOpView::Supplicant,
            ] && r == Some(Err::<(), ErrorView>(supplicant_failed("connect"@, ""@, f.text))))
            &&& replies[0] is Ok && replies[1] is Ok && (replies[2] is Ok) == release ==> (
            replies[3] matches Err(f) ==> r == Some(
                Err::<(), ErrorView>(
                    supplicant_failed(
                        if release {
                            "remove_interface"@
                        } else {
                            "create_interface"@
                        },
                        iface,
                        f.text,
                    ),
                ),
            ))
        }),
{
    reveal_with_fuel(crate::program::asked, 6);
    reveal_with_fuel(crate::program::outcome, 6);
    let asked = crate::program::asked(crate::services::service_program(action, iface), replies);
    if replies[0] is Err {
        assert(asked =~= seq![BusOpView::Connect]);
    } else if replies[1] is Err {
        assert(asked =~= seq![BusOpView::Connect, BusOpView::Supplicant]);
    }
}

/// Whatever is asked of the kernel for one interface, and of a service, may take five
/// seconds, under a label of its own. An enumeration and the question whether a
/// service is there have no deadline as a whole.
pub proof fn operations_have_five_seconds(op: LinuxOpView)
    ensures
        op is Detect || op is NmPresent || op is WpaPresent <==> crate::deadline::deadline(
            op,
        ) is None,
        crate::deadline::deadline(op) matches Some((label, ms)) ==> {
            &&& ms == 5000
            &&& label == match op {
                LinuxOpView::SetMode { .. } => "set interface mode"@,
                LinuxOpView::ReadMode { .. } => "read interface mode"@,
                LinuxOpView::SetFreq { .. } => "set interface channel"@,
                LinuxOpView::ReadChannel { .. } => "read interface channel"@,
                LinuxOpView::Rename { .. } => "rename interface"@,
                LinuxOpView::NmRelease { .. } => "NetworkManager release"@,
                LinuxOpView::NmReclaim { .. } => "NetworkManager reclaim"@,
                LinuxOpView::WpaRelease { .. } => "wpa_supplicant release"@,
                _ => "wpa_supplicant reclaim"@,
            }
        },
{
}

} // verus!
