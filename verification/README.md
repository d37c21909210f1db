# rfmon

Drives a wireless interface in and out of 802.11 monitor mode with clean recovery,
and without killing network daemons: NetworkManager and wpa_supplicant are asked to
release the one interface, and get it back afterwards.

The library is written in [Verus](https://github.com/verus-lang/verus). It decides
what is to be done, in which order, and what to make of each outcome, and every
function states and proves what it returns. It performs nothing itself. An operation
that needs the kernel or a service is a conversation: a value with a `request` that
names the next thing to do and a `resume` that takes the outcome. What remains of a
conversation is a mathematical object (`program::Program`), so that promises about
whole runs can be stated and proved for every sequence of outcomes:

* a mode or channel change counts only once it was read back as requested;
* whatever fails once a service has let go of an interface is rolled back, in reverse
  order, and the interface goes back to exactly the services it was taken from;
* a radio that is already in monitor mode is not touched;
* a link that was brought down for a change is brought up again;
* a session is restored under its own name before anyone is handed the interface.

## Layout

* `src/` - the verified library. `laws.rs`, `session_laws.rs` and `detect_laws.rs`
  hold the promises about whole runs; `requests.rs` is the one place that calls
  other crates (it builds netlink attributes and messages).
* `tests/` - tests that run the library against stand-ins for the kernel, the
  services and the backend.
* `app/` - the command line and everything that does I/O: netlink sockets, D-Bus,
  sysfs, `systemctl`, logging.

## API

| Call | Does |
|---|---|
| `start_monitor()` | Select the best radio, enter monitor mode. |
| `start_monitor_on(iface)` | Enter monitor mode on a named interface. |
| `start_monitor_as(iface, new)` | Enter monitor mode, then rename the interface. |
| `.on_channel(chan)`, `.on_channel_6g(chan)` | On any of these: park on a channel as part of the same session. |
| `set_channel(iface, chan)` | Tune a 2.4 or 5 GHz channel. Takes `.with_width(..)`. |
| `set_channel_6g(iface, chan)` | Tune a 6 GHz channel. |
| `stop_monitor(iface)` | Restore one interface to managed networking, by name. |
| `stop_all_monitors()` | Restore every interface in monitor mode, best effort. |
| `InterfaceInfo::detect()`, `InterfaceInfo::lookup(..)` | Enumerate the interfaces; pick one by name. |

The builders' `run`, and the other calls themselves, start the conversation. Starting
a session yields a `MonitorGuard`, which is restored, persisted, or torn down when it
goes out of scope.
