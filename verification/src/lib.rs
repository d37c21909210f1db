//! `rfmon`: driving a wireless interface in and out of 802.11 monitor mode.
//!
//! Entering monitor mode means releasing an interface from the services that
//! manage it, switching its mode, and confirming the switch by reading it back;
//! leaving reverses that. This crate decides what is to be done, in what order,
//! and what to make of each outcome, and proves what every run of that amounts to.
//! It performs nothing itself: every operation is a conversation that names the
//! next thing to do and is told how it went.
//!
//! # Sessions
//!
//! [`start_monitor`], [`start_monitor_on`] and [`start_monitor_as`] describe a
//! session, optionally parked on a channel. Running one yields a [`MonitorGuard`],
//! which owns the session until it is restored or persisted. [`stop_monitor`] and
//! [`stop_all_monitors`] repair interfaces by name, and [`set_channel`] and
//! [`set_channel_6g`] tune them. All of these talk to a platform backend through
//! [`backend::BackendOp`].
//!
//! # Layers
//!
//!   * [`monitor`], [`cleanup`]: sessions over a backend.
//!   * [`backend`]: how Linux performs a backend operation, from [`start`],
//!     [`enter`], [`leave`], [`tune`], [`handover`] and [`rollback`], over the
//!     primitive operations of [`ops`].
//!   * [`detect`], [`link`], [`services`]: how each primitive operation is carried
//!     out, with [`deadline`] and the netlink messages of [`requests`].
//!   * [`interface`], [`channel`], [`select`], [`names`], [`nl80211`]: the data
//!     model and the decisions on it.
//!   * [`cli`], [`dispatch`]: the command line, and what each command does.
//!
//! [`program`] holds the model of a conversation; [`laws`], [`session_laws`],
//! [`start_laws`], [`link_laws`], [`detect_laws`], [`dump_laws`] and [`command_laws`]
//! state what holds of whole conversations, and [`select_laws`], [`channel_laws`] and
//! [`text_laws`] what holds of the decisions in them.

pub mod backend;
pub mod channel;
pub mod channel_laws;
pub mod cleanup;
pub mod cli;
pub mod command_laws;
pub mod deadline;
pub mod detect;
pub mod detect_laws;
pub mod dispatch;
pub mod dump_laws;
pub mod enter;
pub mod errors;
pub mod handover;
pub mod interface;
pub mod laws;
pub mod leave;
pub mod link;
pub mod link_laws;
pub mod mac;
pub mod monitor;
pub mod names;
pub mod nl80211;
pub mod ops;
pub mod program;
pub mod requests;
pub mod rollback;
pub mod select;
pub mod select_laws;
pub mod services;
pub mod session_laws;
pub mod start;
pub mod start_laws;
pub mod text;
pub mod text_laws;
pub mod tune;

pub use channel::{channel_from_mhz, Tuning};
pub use cleanup::MonitorGuard;
pub use errors::Error;
pub use interface::{
    Band, BandKind, BusKind, ChannelWidth, Frequency, InterfaceInfo, InterfaceMode,
    WirelessInterface,
};
pub use mac::MacAddr;
pub use monitor::{
    set_channel, set_channel_6g, start_monitor, start_monitor_as, start_monitor_on,
    stop_all_monitors, stop_monitor, MonitorBuilder, SetChannel,
};
