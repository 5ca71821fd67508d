//! Running `systemctl --user` as a service's user: the user's runtime
//! directory and D-Bus session bus, and the steps that start the bus where it
//! is missing and then run the command.
use vstd::prelude::*;

use crate::effects::{CallV, Effect, EffectV, Outcome, OutcomeV, ProcessCall, plain_call};
use crate::env::views;
use crate::text::{concat2, concat3, concat4, trim, trim_str};

verus! {

/// `/run/user/<uid>`: the user's runtime directory (`XDG_RUNTIME_DIR`).
pub open spec fn runtime_dir(uid: Seq<char>) -> Seq<char> {
    "/run/user/"@ + uid
}

/// `unix:path=/run/user/<uid>/bus`: the address of the user's session bus.
pub open spec fn bus_address(uid: Seq<char>) -> Seq<char> {
    "unix:path="@ + runtime_dir(uid) + "/bus"@
}

/// `/run/user/<uid>/bus`: the socket of the user's session bus.
pub open spec fn bus_socket(uid: Seq<char>) -> Seq<char> {
    "/run/user/"@ + uid + "/bus"@
}

/// The shell line that runs `systemctl --user <command> <service>` with the
/// user's bus and runtime directory exported.
pub open spec fn systemctl_shell(uid: Seq<char>, command: Seq<char>, service: Seq<char>) -> Seq<
    char,
> {
    "export DBUS_SESSION_BUS_ADDRESS="@ + bus_address(uid) + " && export XDG_RUNTIME_DIR="@
        + runtime_dir(uid) + " && systemctl --user "@ + command + " "@ + service
}

/// `id -u <user>`, captured: the user's numeric id.
pub open spec fn uid_call(user: Seq<char>, expect: Seq<char>) -> CallV {
    plain_call("id"@, seq!["-u"@, user], true, Some(expect))
}

/// `sudo -u <user> dbus-daemon --session --fork --address <bus address>`.
pub open spec fn dbus_daemon_call(user: Seq<char>, uid: Seq<char>) -> CallV {
    plain_call(
        "sudo"@,
        seq![
            "-u"@,
            user,
            "dbus-daemon"@,
            "--session"@,
            "--fork"@,
            "--address"@,
            bus_address(uid),
        ],
        false,
        None,
    )
}

/// `su -l <user> -c <systemctl shell line>`, with `DBUS_SESSION_BUS_ADDRESS`
/// set to the user's bus.
pub open spec fn systemctl_call(user: Seq<char>, uid: Seq<char>, command: Seq<char>) -> CallV {
    CallV {
        program: "su"@,
        args: seq!["-l"@, user, "-c"@, systemctl_shell(uid, command, user)],
        current_dir: None,
        env: Some(("DBUS_SESSION_BUS_ADDRESS"@, bus_address(uid))),
        capture: false,
        expect: None,
    }
}

/// Appends `s` to a vector of strings.
pub fn push_str(v: &mut Vec<String>, s: &str)
    ensures
        views(final(v)@) == views(old(v)@).push(s@),
{
    let ghost old_views = views(v@);
    v.push(String::from_str(s));
    assert(views(v@) =~= old_views.push(s@));
}

/// The call `id -u <user>` (see `uid_call`).
pub fn make_uid_call(user: &str, expect: &str) -> (res: ProcessCall)
    ensures
        res@ == uid_call(user@, expect@),
{
    let mut args: Vec<String> = Vec::new();
    push_str(&mut args, "-u");
    push_str(&mut args, user);
    assert(views(args@) =~= seq!["-u"@, user@]);
    ProcessCall {
        program: String::from_str("id"),
        args,
        current_dir: None,
        env: None,
        capture: true,
        expect: Some(String::from_str(expect)),
    }
}

/// The address of the user's session bus (see `bus_address`).
pub fn make_bus_address(uid: &str) -> (res: String)
    ensures
        res@ == bus_address(uid@),
{
    let res = concat4("unix:path=", "/run/user/", uid, "/bus");
    assert(res@ =~= bus_address(uid@));
    res
}

/// The runtime directory of the user (see `runtime_dir`).
pub fn make_runtime_dir(uid: &str) -> (res: String)
    ensures
        res@ == runtime_dir(uid@),
{
    concat2("/run/user/", uid)
}

/// The socket of the user's session bus (see `bus_socket`).
pub fn make_bus_socket(uid: &str) -> (res: String)
    ensures
        res@ == bus_socket(uid@),
{
    concat3("/run/user/", uid, "/bus")
}

/// The call that starts the user's session bus (see `dbus_daemon_call`).
pub fn make_dbus_daemon_call(user: &str, uid: &str) -> (res: ProcessCall)
    ensures
        res@ == dbus_daemon_call(user@, uid@),
{
    let address = make_bus_address(uid);
    let mut args: Vec<String> = Vec::new();
    push_str(&mut args, "-u");
    push_str(&mut args, user);
    push_str(&mut args, "dbus-daemon");
    push_str(&mut args, "--session");
    push_str(&mut args, "--fork");
    push_str(&mut args, "--address");
    push_str(&mut args, address.as_str());
    assert(views(args@) =~= seq![
        "-u"@,
        user@,
        "dbus-daemon"@,
        "--session"@,
        "--fork"@,
        "--address"@,
        bus_address(uid@),
    ]);
    ProcessCall {
        program: String::from_str("sudo"),
        args,
        current_dir: None,
        env: None,
        capture: false,
        expect: None,
    }
}

/// The call that runs `systemctl --user <command> <user>` as the user (see
/// `systemctl_call`).
pub fn make_systemctl_call(user: &str, uid: &str, command: &str) -> (res: ProcessCall)
    ensures
        res@ == systemctl_call(user@, uid@, command@),
{
    let address = make_bus_address(uid);
    let runtime = make_runtime_dir(uid);
    let mut shell = String::from_str("export DBUS_SESSION_BUS_ADDRESS=");
    shell.append(address.as_str());
    shell.append(" && export XDG_RUNTIME_DIR=");
    shell.append(runtime.as_str());
    shell.append(" && systemctl --user ");
    shell.append(command);
    shell.append(" ");
    shell.append(user);
    let mut args: Vec<String> = Vec::new();
    push_str(&mut args, "-l");
    push_str(&mut args, user);
    push_str(&mut args, "-c");
    push_str(&mut args, shell.as_str());
    assert(views(args@) =~= seq!["-l"@, user@, "-c"@, systemctl_shell(uid@, command@, user@)]);
    ProcessCall {
        program: String::from_str("su"),
        args,
        current_dir: None,
        env: Some((String::from_str("DBUS_SESSION_BUS_ADDRESS"), address)),
        capture: false,
        expect: None,
    }
}

/// Where a run of `systemctl` as a service's user stands.
#[derive(Debug, Clone, Copy, PartialEq, Eq, Structural)]
pub enum SystemctlStep {
    /// Nothing done yet.
    Start,
    /// Waiting for the user's id.
    AwaitUid,
    /// Waiting to learn whether the bus socket exists.
    AwaitBus,
    /// Waiting for `dbus-daemon` to have been run.
    AwaitDaemon,
    /// Waiting to learn whether the bus socket exists, looking a second time.
    AwaitBusAgain,
    /// Waiting for `systemctl` to have been run.
    AwaitCommand,
    /// A last message was printed.
    Closing,
    /// Over.
    Done,
}

/// Runs `systemctl --user <command> <service>` as the service's user: finds the
/// user's id, starts the user's session bus if its socket is missing, looks for
/// the socket again and gives up with a message if it is missing, and otherwise
/// runs the command with the bus exported.
pub struct SystemctlFlow {
    pub service: String,
    pub command: String,
    pub uid: String,
    pub step: SystemctlStep,
}

/// The view of a `SystemctlFlow`.
pub struct SystemctlV {
    pub service: Seq<char>,
    pub command: Seq<char>,
    pub uid: Seq<char>,
    pub step: SystemctlStep,
}

impl View for SystemctlFlow {
    type V = SystemctlV;

    open spec fn view(&self) -> SystemctlV {
        SystemctlV {
            service: self.service@,
            command: self.command@,
            uid: self.uid@,
            step: self.step,
        }
    }
}

/// `v` at step `step`.
pub open spec fn sys_at(v: SystemctlV, step: SystemctlStep) -> SystemctlV {
    SystemctlV { step, ..v }
}

/// The next state and request of a `systemctl` run in state `v` given outcome `o`.
pub open spec fn systemctl_next(v: SystemctlV, o: OutcomeV) -> (SystemctlV, EffectV) {
    let done = (sys_at(v, SystemctlStep::Done), EffectV::Finish);
    match v.step {
        SystemctlStep::Start => (
            sys_at(v, SystemctlStep::AwaitUid),
            EffectV::Run(uid_call(v.service, "Failed to get user id"@)),
        ),
        SystemctlStep::AwaitUid => match o {
            OutcomeV::Ran { stdout, .. } => {
                let uid = trim(stdout);
                (
                    SystemctlV { uid, step: SystemctlStep::AwaitBus, ..v },
                    EffectV::Exists(bus_socket(uid)),
                )
            },
            _ => done,
        },
        SystemctlStep::AwaitBus => match o {
            OutcomeV::Found(true) => (
                sys_at(v, SystemctlStep::AwaitBusAgain),
                EffectV::Exists(bus_socket(v.uid)),
            ),
            OutcomeV::Found(false) => (
                sys_at(v, SystemctlStep::AwaitDaemon),
                EffectV::Run(dbus_daemon_call(v.service, v.uid)),
            ),
            _ => done,
        },
        SystemctlStep::AwaitDaemon => match o {
            OutcomeV::SpawnFailed(e) => (
                sys_at(v, SystemctlStep::Closing),
                EffectV::Warn("Failed to start dbus-daemon for user "@ + v.service + ": "@ + e),
            ),
            OutcomeV::Ran { .. } => (
                sys_at(v, SystemctlStep::AwaitBusAgain),
                EffectV::Exists(bus_socket(v.uid)),
            ),
            _ => done,
        },
        SystemctlStep::AwaitBusAgain => match o {
            OutcomeV::Found(true) => (
                sys_at(v, SystemctlStep::AwaitCommand),
                EffectV::Run(systemctl_call(v.service, v.uid, v.command)),
            ),
            OutcomeV::Found(false) => (
                sys_at(v, SystemctlStep::Closing),
                EffectV::Warn("D-Bus session bus not available for user "@ + v.service),
            ),
            _ => done,
        },
        SystemctlStep::AwaitCommand => match o {
            OutcomeV::SpawnFailed(e) => (
                sys_at(v, SystemctlStep::Closing),
                EffectV::Warn("Failed to run systemctl command '"@ + v.command + "': "@ + e),
            ),
            _ => done,
        },
        SystemctlStep::Closing => done,
        SystemctlStep::Done => done,
    }
}

impl SystemctlFlow {
    /// A run of `systemctl --user <command> <service>` that has not started.
    pub fn new(service: &str, command: &str) -> (res: SystemctlFlow)
        ensures
            res@ == (SystemctlV {
                service: service@,
                command: command@,
                uid: Seq::empty(),
                step: SystemctlStep::Start,
            }),
    {
        SystemctlFlow {
            service: String::from_str(service),
            command: String::from_str(command),
            uid: String::new(),
            step: SystemctlStep::Start,
        }
    }

    /// Moves on from the outcome of the last request to the next request.
    pub fn step(&mut self, outcome: Outcome) -> (res: Effect)
        ensures
            (final(self)@, res@) == systemctl_next(old(self)@, outcome@),
    {
        match self.step {
            SystemctlStep::Start => {
                self.step = SystemctlStep::AwaitUid;
                Effect::Run(make_uid_call(self.service.as_str(), "Failed to get user id"))
            },
            SystemctlStep::AwaitUid => match outcome {
                Outcome::Ran { stdout, .. } => {
                    self.uid = trim_str(stdout.as_str());
                    self.step = SystemctlStep::AwaitBus;
                    Effect::Exists(make_bus_socket(self.uid.as_str()))
                },
                _ => self.finish(),
            },
            SystemctlStep::AwaitBus => match outcome {
                Outcome::Found(true) => {
                    self.step = SystemctlStep::AwaitBusAgain;
                    Effect::Exists(make_bus_socket(self.uid.as_str()))
                },
                Outcome::Found(false) => {
                    self.step = SystemctlStep::AwaitDaemon;
                    Effect::Run(make_dbus_daemon_call(self.service.as_str(), self.uid.as_str()))
                },
                _ => self.finish(),
            },
            SystemctlStep::AwaitDaemon => match outcome {
                Outcome::SpawnFailed(e) => {
                    self.step = SystemctlStep::Closing;
                    let mut msg = String::from_str("Failed to start dbus-daemon for user ");
                    msg.append(self.service.as_str());
                    msg.append(": ");
                    msg.append(e.as_str());
                    Effect::Warn(msg)
                },
                Outcome::Ran { .. } => {
                    self.step = SystemctlStep::AwaitBusAgain;
                    Effect::Exists(make_bus_socket(self.uid.as_str()))
                },
                _ => self.finish(),
            },
            SystemctlStep::AwaitBusAgain => match outcome {
                Outcome::Found(true) => {
                    self.step = SystemctlStep::AwaitCommand;
                    Effect::Run(
                        make_systemctl_call(
                            self.service.as_str(),
                            self.uid.as_str(),
                            self.command.as_str(),
                        ),
                    )
                },
                Outcome::Found(false) => {
                    self.step = SystemctlStep::Closing;
                    Effect::Warn(
                        concat2("D-Bus session bus not available for user ", self.service.as_str()),
                    )
                },
                _ => self.finish(),
            },
            SystemctlStep::AwaitCommand => match outcome {
                Outcome::SpawnFailed(e) => {
                    self.step = SystemctlStep::Closing;
                    let mut msg = String::from_str("Failed to run systemctl command '");
                    msg.append(self.command.as_str());
                    msg.append("': ");
                    msg.append(e.as_str());
                    Effect::Warn(msg)
                },
                _ => self.finish(),
            },
            SystemctlStep::Closing => self.finish(),
            SystemctlStep::Done => self.finish(),
        }
    }

    /// Ends the run.
    fn finish(&mut self) -> (res: Effect)
        ensures
            final(self)@ == sys_at(old(self)@, SystemctlStep::Done),
            res@ == EffectV::Finish,
    {
        self.step = SystemctlStep::Done;
        Effect::Finish
    }
}

/// The `systemctl` command is run only once the user's bus socket has been
/// found at the second look: the run enters `AwaitCommand` only from
/// `AwaitBusAgain` on `Found(true)`.
pub proof fn lemma_systemctl_needs_bus(v: SystemctlV, o: OutcomeV)
    requires
        v.step != SystemctlStep::AwaitCommand,
        systemctl_next(v, o).0.step == SystemctlStep::AwaitCommand,
    ensures
        o == OutcomeV::Found(true),
        v.step == SystemctlStep::AwaitBusAgain,
        systemctl_next(v, o).1 == EffectV::Run(systemctl_call(v.service, v.uid, v.command)),
{
}

/// A run that is over stays over and asks for nothing more.
pub proof fn lemma_systemctl_done_is_final(v: SystemctlV, o: OutcomeV)
    requires
        v.step == SystemctlStep::Done,
    ensures
        systemctl_next(v, o) == (v, EffectV::Finish),
{
}

} // verus!
