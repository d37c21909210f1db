//! The command line: what was asked for, and what is reported.

use vstd::prelude::*;
use vstd::string::StringExecFns;

use crate::errors::{Error, ErrorView};
use crate::interface::{BandView, Frequency, InterfaceView, WirelessInterface};
use crate::text::{decimal_string, join, pad_right, same_text};

verus! {

/// Services rfmon coordinates with; restarted (if present) by `reset`.
pub const SERVICES: [&'static str; 2] = ["wpa_supplicant", "NetworkManager"];

/// What the command line accepts.
pub const USAGE: &'static str = "usage:
  rfmon [-v] start_monitor [<iface>]          enter monitor mode (auto-select if no iface)
  rfmon [-v] start_monitor_as <iface> <new>   enter monitor mode, then rename to <new>
  rfmon [-v] stop_monitor <iface>             restore managed networking by name
  rfmon [-v] stop_monitor all                 restore every monitor-mode interface
  rfmon [-v] reset                            stop all monitors + restart wpa_supplicant/NetworkManager
  rfmon [-v] list                             show interfaces, capabilities and channels

  -v, --verbose   debug-level logging
  note: `list` is read-only and does not need root; everything else does.

note: use `stop_monitor all` (or a quoted `'*'`); an unquoted * is expanded by the shell.";

/// A command-line failure: bad arguments, or an error of the library.
#[derive(Debug)]
pub enum CliError {
    /// The arguments make no command.
    Usage(String),
    /// The command failed.
    Rfmon(Error),
}

/// The contents of a [`CliError`].
pub enum CliErrorView {
    /// The arguments make no command.
    Usage(Seq<char>),
    /// The command failed.
    Rfmon(ErrorView),
}

impl View for CliError {
    type V = CliErrorView;

    open spec fn view(&self) -> CliErrorView {
        match self {
            CliError::Usage(message) => CliErrorView::Usage(message@),
            CliError::Rfmon(error) => CliErrorView::Rfmon(error@),
        }
    }
}

impl vstd::std_specs::convert::FromSpecImpl<Error> for CliError {
    open spec fn obeys_from_spec() -> bool {
        true
    }

    open spec fn from_spec(error: Error) -> CliError {
        CliError::Rfmon(error)
    }
}

impl From<Error> for CliError {
    fn from(error: Error) -> (r: CliError) {
        CliError::Rfmon(error)
    }
}

/// A command.
#[derive(Debug, PartialEq, Eq)]
pub enum Command {
    /// Enter monitor mode on the best radio.
    Start,
    /// Enter monitor mode on an interface.
    StartOn {
        /// The interface.
        iface: String,
    },
    /// Enter monitor mode on an interface and rename it.
    StartAs {
        /// The interface.
        iface: String,
        /// The name it gets.
        new_name: String,
    },
    /// Restore an interface.
    Stop {
        /// The interface.
        iface: String,
    },
    /// Restore every interface in monitor mode.
    StopAll,
    /// Restore every interface in monitor mode and restart the services.
    Reset,
    /// Show the interfaces.
    List,
    /// Show the usage.
    Help,
}

/// The contents of a [`Command`].
pub enum CommandView {
    /// Enter monitor mode on the best radio.
    Start,
    /// Enter monitor mode on an interface.
    StartOn { iface: Seq<char> },
    /// Enter monitor mode on an interface and rename it.
    StartAs { iface: Seq<char>, new_name: Seq<char> },
    /// Restore an interface.
    Stop { iface: Seq<char> },
    /// Restore every interface in monitor mode.
    StopAll,
    /// Restore every interface in monitor mode and restart the services.
    Reset,
    /// Show the interfaces.
    List,
    /// Show the usage.
    Help,
}

impl View for Command {
    type V = CommandView;

    open spec fn view(&self) -> CommandView {
        match self {
            Command::Start => CommandView::Start,
            Command::StartOn { iface } => CommandView::StartOn { iface: iface@ },
            Command::StartAs { iface, new_name } => CommandView::StartAs {
                iface: iface@,
                new_name: new_name@,
            },
            Command::Stop { iface } => CommandView::Stop { iface: iface@ },
            Command::StopAll => CommandView::StopAll,
            Command::Reset => CommandView::Reset,
            Command::List => CommandView::List,
            Command::Help => CommandView::Help,
        }
    }
}

/// Whether an argument is a flag, in its short or its long form.
pub open spec fn is_flag(arg: Seq<char>, short: Seq<char>, long: Seq<char>) -> bool {
    arg == short || arg == long
}

/// Whether `i` is where the flag stands first.
pub open spec fn first_flag(
    args: Seq<Seq<char>>,
    short: Seq<char>,
    long: Seq<char>,
    i: int,
) -> bool {
    &&& 0 <= i < args.len()
    &&& is_flag(args[i], short, long)
    &&& forall|j: int| 0 <= j < i ==> !is_flag(#[trigger] args[j], short, long)
}

/// Remove a flag from the arguments, returning whether it was there. Only its
/// first occurrence goes; what is left keeps its order.
pub fn extract_flag(args: &mut Vec<String>, short: &str, long: &str) -> (r: bool)
    ensures
        r == exists|i: int|
            0 <= i < old(args)@.len() && is_flag(#[trigger] old(args)@[i]@, short@, long@),
        r ==> exists|i: int|
            first_flag(crate::text::texts(old(args)@), short@, long@, i) && final(args)@ == old(
                args,
            )@.remove(i),
        !r ==> final(args)@ == old(args)@,
        !r ==> forall|i: int|
            0 <= i < old(args)@.len() ==> (#[trigger] old(args)@[i])@ != short@ && old(args)@[i]@
                != long@,
        r ==> exists|i: int|
            0 <= i < old(args)@.len() && ((#[trigger] old(args)@[i])@ == short@ || old(args)@[i]@
                == long@) && final(args)@ == old(args)@.remove(i) && forall|j: int|
                0 <= j < i ==> (#[trigger] old(args)@[j])@ != short@ && old(args)@[j]@ != long@,
{
    let ghost all = crate::text::texts(args@);
    let mut i: usize = 0;
    while i < args.len()
        invariant
            i <= args.len(),
            args@ == old(args)@,
            all == crate::text::texts(args@),
            forall|j: int| 0 <= j < i ==> !is_flag(#[trigger] all[j], short@, long@),
        decreases args.len() - i,
    {
        if same_text(args[i].as_str(), short) || same_text(args[i].as_str(), long) {
            assert(first_flag(all, short@, long@, i as int));
            assert(is_flag(old(args)@[i as int]@, short@, long@));
            assert forall|j: int| 0 <= j < i implies (#[trigger] old(args)@[j])@ != short@ && old(
                args,
            )@[j]@ != long@ by {
                assert(!is_flag(all[j], short@, long@));
            }
            let flag = args.remove(i);
            return true;
        }
        i += 1;
    }
    assert forall|j: int| 0 <= j < old(args)@.len() implies !is_flag(
        #[trigger] old(args)@[j]@,
        short@,
        long@,
    ) by {
        assert(all[j] == old(args)@[j]@);
    }
    false
}

/// What the arguments ask for, or what is wrong with them.
pub open spec fn parsed(args: Seq<Seq<char>>) -> Result<CommandView, Seq<char>> {
    if args.len() == 0 {
        Err("no command given"@)
    } else {
        let rest = args.drop_first();
        if args[0] == "start_monitor"@ || args[0] == "start"@ {
            if rest.len() == 0 {
                Ok(CommandView::Start)
            } else if rest.len() == 1 {
                Ok(CommandView::StartOn { iface: rest[0] })
            } else {
                Err("start_monitor takes at most one interface"@)
            }
        } else if args[0] == "start_monitor_as"@ {
            if rest.len() == 2 {
                Ok(CommandView::StartAs { iface: rest[0], new_name: rest[1] })
            } else {
                Err("usage: rfmon start_monitor_as <iface> <new_name>"@)
            }
        } else if args[0] == "stop_monitor"@ || args[0] == "stop"@ {
            if rest.len() != 1 {
                Err("usage: rfmon stop_monitor <iface|all>"@)
            } else if rest[0] == "*"@ || rest[0] == "all"@ {
                Ok(CommandView::StopAll)
            } else {
                Ok(CommandView::Stop { iface: rest[0] })
            }
        } else if args[0] == "reset"@ {
            if rest.len() == 0 {
                Ok(CommandView::Reset)
            } else {
                Err("reset takes no arguments"@)
            }
        } else if args[0] == "list"@ || args[0] == "ls"@ {
            if rest.len() == 0 {
                Ok(CommandView::List)
            } else {
                Err("list takes no arguments"@)
            }
        } else if args[0] == "-h"@ || args[0] == "--help"@ || args[0] == "help"@ {
            Ok(CommandView::Help)
        } else {
            Err("unknown command '"@ + args[0] + "'"@)
        }
    }
}

/// The contents of what parsing came to.
pub open spec fn parse_result(r: Result<Command, CliError>) -> Result<CommandView, CliErrorView> {
    match r {
        Ok(c) => Ok(c@),
        Err(e) => Err(e@),
    }
}

fn usage<T>(message: &str) -> (r: Result<T, CliError>)
    ensures
        r is Err,
        r->Err_0@ == CliErrorView::Usage(message@),
{
    Err(CliError::Usage(message.to_owned()))
}

/// Whether an argument is one of two words.
fn is_either(arg: &str, one: &str, other: &str) -> (r: bool)
    ensures
        r == (arg@ == one@ || arg@ == other@),
{
    same_text(arg, one) || same_text(arg, other)
}

/// Make a command of the arguments.
pub fn parse_command(args: &Vec<String>) -> (r: Result<Command, CliError>)
    ensures
        parse_result(r) == match parsed(crate::text::texts(args@)) {
            Ok(c) => Ok::<CommandView, CliErrorView>(c),
            Err(message) => Err(CliErrorView::Usage(message)),
        },
{
    if args.len() == 0 {
        return usage("no command given");
    }
    let ghost all = crate::text::texts(args@);
    let rest: usize = args.len() - 1;
    let command = args[0].as_str();
    if is_either(command, "start_monitor", "start") {
        if rest == 0 {
            Ok(Command::Start)
        } else if rest == 1 {
            Ok(Command::StartOn { iface: args[1].clone() })
        } else {
            usage("start_monitor takes at most one interface")
        }
    } else if same_text(command, "start_monitor_as") {
        if rest == 2 {
            Ok(Command::StartAs { iface: args[1].clone(), new_name: args[2].clone() })
        } else {
            usage("usage: rfmon start_monitor_as <iface> <new_name>")
        }
    } else if is_either(command, "stop_monitor", "stop") {
        if rest != 1 {
            usage("usage: rfmon stop_monitor <iface|all>")
        } else if is_either(args[1].as_str(), "*", "all") {
            Ok(Command::StopAll)
        } else {
            Ok(Command::Stop { iface: args[1].clone() })
        }
    } else if same_text(command, "reset") {
        if rest == 0 {
            Ok(Command::Reset)
        } else {
            usage("reset takes no arguments")
        }
    } else if is_either(command, "list", "ls") {
        if rest == 0 {
            Ok(Command::List)
        } else {
            usage("list takes no arguments")
        }
    } else if same_text(command, "-h") || is_either(command, "--help", "help") {
        Ok(Command::Help)
    } else {
        let mut message = "unknown command '".to_owned();
        message.append(command);
        message.append("'");
        Err(CliError::Usage(message))
    }
}

/// What is printed of bad arguments: what is wrong, and what would be right.
pub fn usage_message(message: &str) -> (r: String)
    ensures
        r@ == "rfmon: "@ + message@ + "\n\n"@ + USAGE@,
{
    let mut text = "rfmon: ".to_owned();
    text.append(message);
    text.append("\n\n");
    text.append(USAGE);
    text
}

/// The exit code of a run.
pub fn exit_code(outcome: &Result<(), CliError>) -> (r: u8)
    ensures
        r == match *outcome {
            Ok(u) => 0u8,
            Err(CliError::Usage(message)) => 2u8,
            Err(CliError::Rfmon(error)) => 1u8,
        },
{
    match outcome {
        Ok(()) => 0,
        Err(CliError::Usage(_)) => 2,
        Err(CliError::Rfmon(_)) => 1,
    }
}

/// The log filter in force unless the environment sets one.
pub fn default_filter(verbose: bool) -> (r: &'static str)
    ensures
        r@ == if verbose {
            "debug,rfmon=debug"@
        } else {
            "info,rfmon=info"@
        },
{
    if verbose {
        "debug,rfmon=debug"
    } else {
        "info,rfmon=info"
    }
}

/// The absolute path of `systemctl`, given whether it is at its canonical place.
/// Never a bare name: a command that runs as root must not search `$PATH`.
pub fn systemctl(canonical_exists: bool) -> (r: &'static str)
    ensures
        r@ == if canonical_exists {
            "/usr/bin/systemctl"@
        } else {
            "/bin/systemctl"@
        },
{
    if canonical_exists {
        "/usr/bin/systemctl"
    } else {
        "/bin/systemctl"
    }
}

/// The `systemctl` arguments that ask whether the exact unit of a service exists.
pub fn probe_args(unit: &str) -> (r: Vec<String>)
    ensures
        crate::text::texts(r@) == seq!["cat"@, "--no-pager"@, unit@ + ".service"@],
{
    let mut file = unit.to_owned();
    file.append(".service");
    let args: Vec<String> = vec!["cat".to_owned(), "--no-pager".to_owned(), file];
    assert(crate::text::texts(args@) =~= seq!["cat"@, "--no-pager"@, unit@ + ".service"@]);
    args
}

/// The `systemctl` arguments that restart a service.
pub fn restart_args(unit: &str) -> (r: Vec<String>)
    ensures
        crate::text::texts(r@) == seq!["restart"@, unit@],
{
    let args: Vec<String> = vec!["restart".to_owned(), unit.to_owned()];
    assert(crate::text::texts(args@) =~= seq!["restart"@, unit@]);
    args
}

/// How the library sees an interface's monitor capability, in the three tiers
/// that selection uses.
pub open spec fn support_text(i: InterfaceView) -> Seq<char> {
    if i.advertises_monitor() {
        "advertised over nl80211"@
    } else if i.plausible() {
        "not advertised, but this driver family supports it in practice"@
    } else {
        "not supported"@
    }
}

/// How the library sees an interface's monitor capability.
pub fn monitor_support(iface: &WirelessInterface) -> (r: &'static str)
    ensures
        r@ == support_text(iface@),
{
    if iface.supports_monitor() {
        "advertised over nl80211"
    } else if iface.is_monitor_plausible() {
        "not advertised, but this driver family supports it in practice"
    } else {
        "not supported"
    }
}

/// A number in decimal, with its sign where it is negative.
pub open spec fn signed(n: int) -> Seq<char> {
    if n < 0 {
        "-"@ + crate::text::decimal((-n) as nat)
    } else {
        crate::text::decimal(n as nat)
    }
}

/// A number in decimal.
pub fn signed_string(n: i32) -> (r: String)
    ensures
        r@ == signed(n as int),
{
    if n < 0 {
        let mut s = "-".to_owned();
        let magnitude: u64 = (0i64 - n as i64) as u64;
        s.append(decimal_string(magnitude).as_str());
        s
    } else {
        decimal_string(n as u64)
    }
}

/// How a usable frequency is listed: by its channel, or else by itself.
pub open spec fn frequency_text(f: Frequency) -> Seq<char> {
    match f.channel {
        Some(channel) => crate::text::decimal(channel as nat),
        None => crate::text::decimal(f.mhz as nat) + "MHz"@,
    }
}

/// The usable frequencies of a band, as they are listed. What the regulatory
/// domain disables is not.
pub open spec fn usable_texts(frequencies: Seq<Frequency>) -> Seq<Seq<char>> {
    frequencies.filter_map(
        |f: Frequency|
            if f.disabled {
                None
            } else {
                Some(frequency_text(f))
            },
    )
}

/// The line on a band.
pub open spec fn band_line(band: BandView) -> Seq<char> {
    "  "@ + crate::text::padded(band.kind.text(), 8) + " "@ + crate::text::decimal(
        usable_texts(band.frequencies).len(),
    ) + " usable: "@ + crate::text::joined(usable_texts(band.frequencies), ","@)
}

/// The lines on an interface.
pub open spec fn interface_lines(i: InterfaceView) -> Seq<Seq<char>> {
    seq![
        i.name + "  (score "@ + signed(i.score()) + ")"@,
        if i.in_monitor() {
            "  mode     monitor  (in use; rfmon will not take this interface)"@
        } else {
            "  mode     "@ + i.mode.text()
        },
        "  device   "@ + (match i.driver {
            Some(driver) => driver,
            None => "unknown driver"@,
        }) + " on "@ + i.bus.text(),
        "  mac      "@ + crate::mac::mac_text(i.mac),
        "  monitor  "@ + support_text(i),
        "  ssid     "@ + (match i.ssid {
            Some(ssid) => ssid,
            None => "-"@,
        }),
    ] + i.bands.map_values(|b: BandView| band_line(b))
}

/// The report on the first interfaces, with an empty line between two.
pub open spec fn report_on(interfaces: Seq<InterfaceView>) -> Seq<Seq<char>>
    decreases interfaces.len(),
{
    if interfaces.len() == 0 {
        Seq::empty()
    } else if interfaces.len() == 1 {
        interface_lines(interfaces[0])
    } else {
        report_on(interfaces.drop_last()) + seq![""@] + interface_lines(interfaces.last())
    }
}

/// The report on every interface, line by line.
pub open spec fn report(interfaces: Seq<InterfaceView>) -> Seq<Seq<char>> {
    if interfaces.len() == 0 {
        seq!["no wireless interfaces found"@]
    } else {
        report_on(interfaces)
    }
}

fn usable_strings(frequencies: &Vec<Frequency>) -> (r: Vec<String>)
    ensures
        crate::text::texts(r@) == usable_texts(frequencies@),
{
    let ghost f = |f: Frequency|
        if f.disabled {
            None
        } else {
            Some(frequency_text(f))
        };
    let mut usable: Vec<String> = Vec::new();
    assert(crate::text::texts(usable@) =~= frequencies@.take(0).filter_map(f));
    let mut i: usize = 0;
    while i < frequencies.len()
        invariant
            i <= frequencies.len(),
            f == |f: Frequency|
                if f.disabled {
                    None
                } else {
                    Some(frequency_text(f))
                },
            crate::text::texts(usable@) == frequencies@.take(i as int).filter_map(f),
        decreases frequencies.len() - i,
    {
        let ghost before = usable@;
        proof {
            frequencies@.lemma_filter_map_take_succ(f, i as int);
        }
        let freq = frequencies[i];
        if !freq.disabled {
            let text = match freq.channel {
                Some(channel) => decimal_string(channel as u64),
                None => {
                    let mut s = decimal_string(freq.mhz as u64);
                    s.append("MHz");
                    s
                },
            };
            usable.push(text);
            assert(crate::text::texts(usable@) =~= crate::text::texts(before) + seq![
                frequency_text(freq),
            ]);
        } else {
            assert(crate::text::texts(before) + Seq::empty() =~= crate::text::texts(before));
        }
        i += 1;
    }
    assert(frequencies@.take(i as int) =~= frequencies@);
    usable
}

/// The lines of the report on one interface.
fn describe(iface: &WirelessInterface) -> (r: Vec<String>)
    ensures
        crate::text::texts(r@) == interface_lines(iface@),
{
    let mut title = iface.name.clone();
    title.append("  (score ");
    title.append(signed_string(iface.monitor_score()).as_str());
    title.append(")");

    let mode = if iface.is_monitor() {
        "  mode     monitor  (in use; rfmon will not take this interface)".to_owned()
    } else {
        let mut s = "  mode     ".to_owned();
        s.append(iface.mode.to_string().as_str());
        s
    };

    let mut device = "  device   ".to_owned();
    match &iface.driver {
        Some(driver) => device.append(driver.as_str()),
        None => device.append("unknown driver"),
    }
    device.append(" on ");
    device.append(iface.bus.to_string().as_str());

    let mut mac = "  mac      ".to_owned();
    mac.append(iface.mac.to_string().as_str());

    let mut monitor = "  monitor  ".to_owned();
    monitor.append(monitor_support(iface));

    let mut ssid = "  ssid     ".to_owned();
    match &iface.ssid {
        Some(name) => ssid.append(name.as_str()),
        None => ssid.append("-"),
    }

    let mut lines: Vec<String> = vec![title, mode, device, mac, monitor, ssid];
    let ghost head = interface_lines(iface@).take(6);
    let ghost bands = iface@.bands.map_values(|b: BandView| band_line(b));
    assert(interface_lines(iface@) =~= head + bands);
    assert(crate::text::texts(lines@) =~= head + bands.take(0));
    let mut i: usize = 0;
    while i < iface.bands.len()
        invariant
            i <= iface.bands.len(),
            bands == iface@.bands.map_values(|b: BandView| band_line(b)),
            crate::text::texts(lines@) == head + bands.take(i as int),
        decreases iface.bands.len() - i,
    {
        let ghost before = lines@;
        let band = &iface.bands[i];
        let usable = usable_strings(&band.frequencies);
        let count: usize = usable.len();
        let mut line = "  ".to_owned();
        line.append(pad_right(band.kind.to_string(), 8).as_str());
        line.append(" ");
        line.append(decimal_string(count as u64).as_str());
        line.append(" usable: ");
        line.append(join(&usable, ",").as_str());
        proof {
            assert(crate::text::texts(usable@).len() == count);
            assert(iface@.bands[i as int] == band@);
        }
        lines.push(line);
        assert(crate::text::texts(lines@) =~= crate::text::texts(before).push(line@));
        assert(head + bands.take(i + 1) =~= (head + bands.take(i as int)).push(bands[i as int]));
        i += 1;
    }
    assert(bands.take(i as int) =~= bands);
    lines
}

/// The report on every wireless interface and what it can do, line by line.
pub fn list_report(interfaces: &Vec<WirelessInterface>) -> (r: Vec<String>)
    ensures
        crate::text::texts(r@) == report(crate::interface::interface_views(interfaces@)),
{
    let ghost all = crate::interface::interface_views(interfaces@);
    let mut lines: Vec<String> = Vec::new();
    if interfaces.len() == 0 {
        lines.push("no wireless interfaces found".to_owned());
        assert(crate::text::texts(lines@) =~= seq!["no wireless interfaces found"@]);
        return lines;
    }
    assert(crate::text::texts(lines@) =~= Seq::empty());
    let mut i: usize = 0;
    while i < interfaces.len()
        invariant
            i <= interfaces.len(),
            all == crate::interface::interface_views(interfaces@),
            crate::text::texts(lines@) == report_on(all.take(i as int)),
        decreases interfaces.len() - i,
    {
        let ghost before = crate::text::texts(lines@);
        if i > 0 {
            lines.push("".to_owned());
        }
        let mut more = describe(&interfaces[i]);
        let ghost added = crate::text::texts(more@);
        let ghost so_far = crate::text::texts(lines@);
        lines.append(&mut more);
        proof {
            assert(all.take(i + 1).drop_last() =~= all.take(i as int));
            assert(all[i as int] == interfaces@[i as int]@);
            assert(crate::text::texts(lines@) =~= so_far + added);
            if i > 0 {
                assert(so_far =~= before + seq![""@]);
            } else {
                assert(so_far + added =~= added);
            }
        }
        i += 1;
    }
    assert(all.take(i as int) =~= all);
    lines
}

} // verus!
