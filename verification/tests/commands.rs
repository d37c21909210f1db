//! Commands, carried out against a stand-in that records every step.

use rfmon::cli::{CliError, USAGE};
use rfmon::dispatch::{CommandOp, CommandReply, Event, Exit, Run};
use rfmon::program::Progress;
use rfmon::Error;

// What the steps come to.
struct Host {
    sweep: Option<Vec<String>>,
    canonical: bool,
    services: Vec<&'static str>,
    restart: fn() -> Exit,
    steps: Vec<String>,
}

impl Host {
    fn new() -> Self {
        Host {
            sweep: Some(Vec::new()),
            canonical: true,
            services: Vec::new(),
            restart: || Exit::Success,
            steps: Vec::new(),
        }
    }

    fn perform(&mut self, op: &CommandOp) -> CommandReply {
        match op {
            CommandOp::Start(_) => {
                self.steps.push("start".to_string());
                CommandReply::Name(Ok("wlan0".to_string()))
            }
            CommandOp::Stop { iface } => {
                self.steps.push(format!("stop {iface}"));
                CommandReply::Name(Ok(iface.to_string()))
            }
            CommandOp::StopAll => {
                self.steps.push("stop all".to_string());
                CommandReply::Names(match &self.sweep {
                    Some(names) => Ok(names.iter().cloned().collect()),
                    None => Err(Error::NoInterfaces),
                })
            }
            CommandOp::Detect => {
                self.steps.push("detect".to_string());
                CommandReply::Interfaces(Ok(Vec::new()))
            }
            CommandOp::FindSystemctl => CommandReply::Found(self.canonical),
            CommandOp::Systemctl { program, args, quiet } => {
                self.steps.push(format!("{program} {} quiet={quiet}", args.join(" ")));
                if args[0] == "cat" {
                    let known = self.services.iter().any(|s| args[2] == format!("{s}.service"));
                    CommandReply::Exited(if known {
                        Exit::Success
                    } else {
                        Exit::Failure { code: Some(1) }
                    })
                } else {
                    CommandReply::Exited((self.restart)())
                }
            }
            CommandOp::Print { lines } => {
                self.steps.push(format!("print {}", lines.join("|")));
                CommandReply::Done
            }
            CommandOp::Log(event) => {
                self.steps.push(match event {
                    Event::Monitor { iface } => format!("monitor {iface}"),
                    Event::Managed { iface } => format!("managed {iface}"),
                    Event::NoneInMonitor => "none in monitor".to_string(),
                    Event::NotPresent { service } => format!("absent {service}"),
                    Event::Restarted { service } => format!("restarted {service}"),
                    Event::RestartFailed { service, code } => format!("failed {service} {code:?}"),
                    Event::NotRun { service, error } => format!("not run {service} {error}"),
                });
                CommandReply::Done
            }
        }
    }

    fn run(&mut self, args: &[&str]) -> Result<(), CliError> {
        let args: Vec<String> = args.iter().map(|a| a.to_string()).collect();
        let mut progress = Run::start(&args);
        loop {
            match progress {
                Progress::Finished(outcome) => return outcome,
                Progress::Pending(task) => {
                    let op = task.request();
                    let reply = self.perform(&op);
                    assert!(op.is_answered_by(&reply));
                    progress = task.resume(reply);
                }
            }
        }
    }
}

#[test]
fn bad_arguments_do_nothing() {
    let mut host = Host::new();
    assert!(matches!(
        host.run(&["frobnicate"]),
        Err(CliError::Usage(message)) if message == "unknown command 'frobnicate'"
    ));
    assert!(host.run(&[]).is_err());
    assert!(host.steps.is_empty());
}

#[test]
fn a_start_is_left_behind_and_told() {
    for args in [&["start"][..], &["start", "wlan0"][..], &["start_monitor_as", "wlan0", "m"][..]] {
        let mut host = Host::new();
        host.run(args).unwrap();
        assert_eq!(host.steps, ["start", "monitor wlan0"]);
    }
}

#[test]
fn a_stop_is_told() {
    let mut host = Host::new();
    host.run(&["stop", "wlan1"]).unwrap();
    assert_eq!(host.steps, ["stop wlan1", "managed wlan1"]);
}

#[test]
fn a_sweep_tells_of_each_interface() {
    let mut host = Host::new();
    host.run(&["stop", "all"]).unwrap();
    assert_eq!(host.steps, ["stop all", "none in monitor"]);

    let mut host = Host::new();
    host.sweep = Some(vec!["wlan0".to_string(), "wlan1".to_string()]);
    host.run(&["stop_monitor", "*"]).unwrap();
    assert_eq!(host.steps, ["stop all", "managed wlan0", "managed wlan1"]);
}

#[test]
fn a_reset_restarts_what_is_there() {
    let mut host = Host::new();
    host.services = vec!["NetworkManager"];
    host.run(&["reset"]).unwrap();
    assert_eq!(
        host.steps,
        [
            "stop all",
            "none in monitor",
            "/usr/bin/systemctl cat --no-pager wpa_supplicant.service quiet=true",
            "absent wpa_supplicant",
            "/usr/bin/systemctl cat --no-pager NetworkManager.service quiet=true",
            "/usr/bin/systemctl restart NetworkManager quiet=false",
            "restarted NetworkManager",
        ]
    );
}

#[test]
fn a_reset_goes_on_after_a_restart_that_failed() {
    let mut host = Host::new();
    host.canonical = false;
    host.services = vec!["wpa_supplicant", "NetworkManager"];
    host.restart = || Exit::Failure { code: Some(5) };
    host.run(&["reset"]).unwrap();
    assert_eq!(
        host.steps[2..],
        [
            "/bin/systemctl cat --no-pager wpa_supplicant.service quiet=true",
            "/bin/systemctl restart wpa_supplicant quiet=false",
            "failed wpa_supplicant Some(5)",
            "/bin/systemctl cat --no-pager NetworkManager.service quiet=true",
            "/bin/systemctl restart NetworkManager quiet=false",
            "failed NetworkManager Some(5)",
        ]
    );

    let mut host = Host::new();
    host.services = vec!["wpa_supplicant"];
    host.restart = || Exit::NotRun { error: "gone".to_string() };
    host.run(&["reset"]).unwrap();
    assert_eq!(host.steps[4], "not run wpa_supplicant gone");
}

#[test]
fn a_reset_that_cannot_sweep_restarts_nothing() {
    let mut host = Host::new();
    host.sweep = None;
    assert!(matches!(host.run(&["reset"]), Err(CliError::Rfmon(Error::NoInterfaces))));
    assert_eq!(host.steps, ["stop all"]);
}

#[test]
fn reports_are_printed() {
    let mut host = Host::new();
    host.run(&["list"]).unwrap();
    host.run(&["help"]).unwrap();
    assert_eq!(
        host.steps,
        [
            "detect".to_string(),
            "print no wireless interfaces found".to_string(),
            format!("print {USAGE}"),
        ]
    );
}
