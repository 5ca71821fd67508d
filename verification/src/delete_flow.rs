//! `delete`: stop a service, remove its systemd configuration, end its user's
//! processes and remove the user with its home directory.
use vstd::prelude::*;

use crate::control::systemctl_start;
use crate::effects::{CallV, Effect, EffectV, Outcome, OutcomeV, ProcessCall, call, plain_call};
use crate::env::views;
use crate::layout::{ServiceLayout, systemd_dir};
use crate::session::{SystemctlFlow, SystemctlV, push_str, systemctl_next};
use crate::text::{concat2, concat3};

verus! {

/// `sudo killall -9 --user <name>`.
pub open spec fn killall_call(name: Seq<char>) -> CallV {
    plain_call(
        "sudo"@,
        seq!["killall"@, "-9"@, "--user"@, name],
        false,
        Some("Failed to execute killall command"@),
    )
}

/// `pgrep -u <name>`: succeeds while the user has processes.
pub open spec fn pgrep_call(name: Seq<char>) -> CallV {
    plain_call("pgrep"@, seq!["-u"@, name], false, Some("Failed to execute pgrep command"@))
}

/// `sudo userdel -r <name>`: removes the user and its home directory.
pub open spec fn userdel_call(name: Seq<char>) -> CallV {
    plain_call(
        "sudo"@,
        seq!["userdel"@, "-r"@, name],
        false,
        Some("Failed to execute userdel command"@),
    )
}

/// Where a `delete` stands.
#[derive(Debug, Clone, Copy, PartialEq, Eq, Structural)]
pub enum DeleteStep {
    Start,
    Announced,
    /// The stop was announced.
    StopAnnounced,
    /// Running `systemctl --user stop`.
    InStop,
    /// Waiting for the systemd configuration to be removed.
    AwaitConfigRemoval,
    /// The removal was reported.
    ConfigReported,
    /// The killing was announced.
    KillAnnounced,
    /// Waiting for `killall` to have run.
    AwaitKill,
    /// `killall` failed, which was reported.
    KillWarned,
    /// Waiting for `pgrep` to have run.
    AwaitPgrep,
    /// Processes remained; waiting before looking again.
    Sleeping,
    /// No process remains, which was reported.
    Terminated,
    /// Waiting for `userdel` to have run.
    AwaitUserdel,
    /// The removal of the user was reported.
    Reported,
    Closing,
    Done,
}

/// The view of a `DeleteFlow`.
pub struct DeleteV {
    pub name: Seq<char>,
    pub step: DeleteStep,
    pub sys: SystemctlV,
}

/// A `delete` of `name` that has not started.
pub open spec fn delete_begin(name: Seq<char>) -> DeleteV {
    DeleteV { name, step: DeleteStep::Start, sys: systemctl_start(name, "stop"@) }
}

/// `v` at step `step`.
pub open spec fn delete_at(v: DeleteV, step: DeleteStep) -> DeleteV {
    DeleteV { step, ..v }
}

/// The next state and request of a `delete` in state `v` given outcome `o`.
pub open spec fn delete_next(v: DeleteV, o: OutcomeV) -> (DeleteV, EffectV) {
    let n = v.name;
    let done = (delete_at(v, DeleteStep::Done), EffectV::Finish);
    match v.step {
        DeleteStep::Start => (
            delete_at(v, DeleteStep::Announced),
            EffectV::Say("Deleting service: "@ + n),
        ),
        DeleteStep::Announced => (
            delete_at(v, DeleteStep::StopAnnounced),
            EffectV::Say("Attempting to stop the service: "@ + n),
        ),
        DeleteStep::StopAnnounced => {
            let (s, e) = systemctl_next(systemctl_start(n, "stop"@), OutcomeV::Begin);
            (DeleteV { step: DeleteStep::InStop, sys: s, ..v }, e)
        },
        DeleteStep::InStop => {
            let (s, e) = systemctl_next(v.sys, o);
            if e is Finish {
                (
                    DeleteV { step: DeleteStep::AwaitConfigRemoval, sys: s, ..v },
                    EffectV::RemoveDirAll(systemd_dir(n)),
                )
            } else {
                (DeleteV { sys: s, ..v }, e)
            }
        },
        DeleteStep::AwaitConfigRemoval => match o {
            OutcomeV::IoFailed(e) => (
                delete_at(v, DeleteStep::ConfigReported),
                EffectV::Warn("Failed to remove systemd service configuration: "@ + e),
            ),
            OutcomeV::IoOk => (
                delete_at(v, DeleteStep::ConfigReported),
                EffectV::Say("Removed systemd service configuration."@),
            ),
            _ => done,
        },
        DeleteStep::ConfigReported => (
            delete_at(v, DeleteStep::KillAnnounced),
            EffectV::Say("Killing any remaining processes for user: "@ + n),
        ),
        DeleteStep::KillAnnounced => (
            delete_at(v, DeleteStep::AwaitKill),
            EffectV::Run(killall_call(n)),
        ),
        DeleteStep::AwaitKill => match o {
            OutcomeV::Ran { success: true, .. } => (
                delete_at(v, DeleteStep::AwaitPgrep),
                EffectV::Run(pgrep_call(n)),
            ),
            OutcomeV::Ran { success: false, .. } => (
                delete_at(v, DeleteStep::KillWarned),
                EffectV::Warn("Warning: Could not kill all processes for user '"@ + n + "'."@),
            ),
            _ => done,
        },
        DeleteStep::KillWarned => (delete_at(v, DeleteStep::AwaitPgrep), EffectV::Run(pgrep_call(n))),
        DeleteStep::AwaitPgrep => match o {
            OutcomeV::Ran { success: false, .. } => (
                delete_at(v, DeleteStep::Terminated),
                EffectV::Say("All processes for user '"@ + n + "' have been terminated."@),
            ),
            OutcomeV::Ran { success: true, .. } => (
                delete_at(v, DeleteStep::Sleeping),
                EffectV::Sleep(500),
            ),
            _ => done,
        },
        DeleteStep::Sleeping => (delete_at(v, DeleteStep::AwaitPgrep), EffectV::Run(pgrep_call(n))),
        DeleteStep::Terminated => (
            delete_at(v, DeleteStep::AwaitUserdel),
            EffectV::Run(userdel_call(n)),
        ),
        DeleteStep::AwaitUserdel => match o {
            OutcomeV::Ran { success: true, .. } => (
                delete_at(v, DeleteStep::Reported),
                EffectV::Say(
                    "User '"@ + n + "' and their home directory removed successfully."@,
                ),
            ),
            OutcomeV::Ran { success: false, .. } => (
                delete_at(v, DeleteStep::Reported),
                EffectV::Warn("Error: Failed to remove user '"@ + n + "'."@),
            ),
            _ => done,
        },
        DeleteStep::Reported => (
            delete_at(v, DeleteStep::Closing),
            EffectV::Say("Service '"@ + n + "' fully deleted."@),
        ),
        DeleteStep::Closing => done,
        DeleteStep::Done => done,
    }
}

/// `delete` of one service: stops it, removes `/home/<name>/.config/systemd`,
/// kills the user's processes and waits (looking every half second) until
/// none is left, then removes the user and its home directory.
pub struct DeleteFlow {
    layout: ServiceLayout,
    step: DeleteStep,
    sys: SystemctlFlow,
}

impl View for DeleteFlow {
    type V = DeleteV;

    closed spec fn view(&self) -> DeleteV {
        DeleteV { name: self.layout.name@, step: self.step, sys: self.sys@ }
    }
}

impl DeleteFlow {
    #[verifier::type_invariant]
    closed spec fn layout_ok(self) -> bool {
        self.layout.matches(self.layout.name@)
    }

    /// A `delete` of `service_name` that has not started.
    pub fn new(service_name: &str) -> (res: DeleteFlow)
        ensures
            res@ == delete_begin(service_name@),
    {
        DeleteFlow {
            layout: ServiceLayout::new(service_name),
            step: DeleteStep::Start,
            sys: SystemctlFlow::new(service_name, "stop"),
        }
    }

    /// The call `pgrep -u <name>`.
    fn make_pgrep_call(&self) -> (res: ProcessCall)
        ensures
            res@ == pgrep_call(self@.name),
    {
        let mut args: Vec<String> = Vec::new();
        push_str(&mut args, "-u");
        push_str(&mut args, self.layout.name.as_str());
        assert(views(args@) =~= seq!["-u"@, self@.name]);
        call("pgrep", args, false, Some("Failed to execute pgrep command"))
    }

    /// The call `sudo killall -9 --user <name>`.
    fn make_killall_call(&self) -> (res: ProcessCall)
        ensures
            res@ == killall_call(self@.name),
    {
        let mut args: Vec<String> = Vec::new();
        push_str(&mut args, "killall");
        push_str(&mut args, "-9");
        push_str(&mut args, "--user");
        push_str(&mut args, self.layout.name.as_str());
        assert(views(args@) =~= seq!["killall"@, "-9"@, "--user"@, self@.name]);
        call("sudo", args, false, Some("Failed to execute killall command"))
    }

    /// The call `sudo userdel -r <name>`.
    fn make_userdel_call(&self) -> (res: ProcessCall)
        ensures
            res@ == userdel_call(self@.name),
    {
        let mut args: Vec<String> = Vec::new();
        push_str(&mut args, "userdel");
        push_str(&mut args, "-r");
        push_str(&mut args, self.layout.name.as_str());
        assert(views(args@) =~= seq!["userdel"@, "-r"@, self@.name]);
        call("sudo", args, false, Some("Failed to execute userdel command"))
    }

    /// Ends the deletion.
    fn finish(&mut self) -> (res: Effect)
        ensures
            final(self)@ == delete_at(old(self)@, DeleteStep::Done),
            res@ == EffectV::Finish,
    {
        proof {
            use_type_invariant(&*self);
        }
        self.step = DeleteStep::Done;
        Effect::Finish
    }

    /// Where it stands.
    pub fn current_step(&self) -> (res: DeleteStep)
        ensures
            res == self@.step,
    {
        self.step
    }

    /// Moves on from the outcome of the last request to the next request.
    pub fn step(&mut self, outcome: Outcome) -> (res: Effect)
        ensures
            (final(self)@, res@) == delete_next(old(self)@, outcome@),
    {
        proof {
            use_type_invariant(&*self);
        }
        match self.step {
            DeleteStep::Start => {
                self.step = DeleteStep::Announced;
                Effect::Say(concat2("Deleting service: ", self.layout.name.as_str()))
            },
            DeleteStep::Announced => {
                self.step = DeleteStep::StopAnnounced;
                Effect::Say(concat2("Attempting to stop the service: ", self.layout.name.as_str()))
            },
            DeleteStep::StopAnnounced => {
                let mut sys = SystemctlFlow::new(self.layout.name.as_str(), "stop");
                let e = sys.step(Outcome::Begin);
                self.sys = sys;
                self.step = DeleteStep::InStop;
                e
            },
            DeleteStep::InStop => {
                let mut sys = SystemctlFlow::new("", "");
                std::mem::swap(&mut sys, &mut self.sys);
                let e = sys.step(outcome);
                self.sys = sys;
                if e.is_finish() {
                    self.step = DeleteStep::AwaitConfigRemoval;
                    Effect::RemoveDirAll(self.layout.systemd_dir.clone())
                } else {
                    e
                }
            },
            DeleteStep::AwaitConfigRemoval => match outcome {
                Outcome::IoFailed(e) => {
                    self.step = DeleteStep::ConfigReported;
                    Effect::Warn(
                        concat2("Failed to remove systemd service configuration: ", e.as_str()),
                    )
                },
                Outcome::IoOk => {
                    self.step = DeleteStep::ConfigReported;
                    Effect::Say(String::from_str("Removed systemd service configuration."))
                },
                _ => self.finish(),
            },
            DeleteStep::ConfigReported => {
                self.step = DeleteStep::KillAnnounced;
                Effect::Say(
                    concat2("Killing any remaining processes for user: ", self.layout.name.as_str()),
                )
            },
            DeleteStep::KillAnnounced => {
                let c = self.make_killall_call();
                self.step = DeleteStep::AwaitKill;
                Effect::Run(c)
            },
            DeleteStep::AwaitKill => match outcome {
                Outcome::Ran { success, .. } => {
                    if success {
                        let c = self.make_pgrep_call();
                        self.step = DeleteStep::AwaitPgrep;
                        Effect::Run(c)
                    } else {
                        self.step = DeleteStep::KillWarned;
                        Effect::Warn(
                            concat3(
                                "Warning: Could not kill all processes for user '",
                                self.layout.name.as_str(),
                                "'.",
                            ),
                        )
                    }
                },
                _ => self.finish(),
            },
            DeleteStep::KillWarned => {
                let c = self.make_pgrep_call();
                self.step = DeleteStep::AwaitPgrep;
                Effect::Run(c)
            },
            DeleteStep::AwaitPgrep => match outcome {
                Outcome::Ran { success, .. } => {
                    if success {
                        self.step = DeleteStep::Sleeping;
                        Effect::Sleep(500)
                    } else {
                        self.step = DeleteStep::Terminated;
                        Effect::Say(
                            concat3(
                                "All processes for user '",
                                self.layout.name.as_str(),
                                "' have been terminated.",
                            ),
                        )
                    }
                },
                _ => self.finish(),
            },
            DeleteStep::Sleeping => {
                let c = self.make_pgrep_call();
                self.step = DeleteStep::AwaitPgrep;
                Effect::Run(c)
            },
            DeleteStep::Terminated => {
                let c = self.make_userdel_call();
                self.step = DeleteStep::AwaitUserdel;
                Effect::Run(c)
            },
            DeleteStep::AwaitUserdel => match outcome {
                Outcome::Ran { success, .. } => {
                    self.step = DeleteStep::Reported;
                    if success {
                        Effect::Say(
                            concat3(
                                "User '",
                                self.layout.name.as_str(),
                                "' and their home directory removed successfully.",
                            ),
                        )
                    } else {
                        Effect::Warn(
                            concat3(
                                "Error: Failed to remove user '",
                                self.layout.name.as_str(),
                                "'.",
                            ),
                        )
                    }
                },
                _ => self.finish(),
            },
            DeleteStep::Reported => {
                self.step = DeleteStep::Closing;
                Effect::Say(concat3("Service '", self.layout.name.as_str(), "' fully deleted."))
            },
            DeleteStep::Closing => self.finish(),
            DeleteStep::Done => self.finish(),
        }
    }
}

/// The user is removed only once no process of it is left: a `delete` enters
/// `Terminated` only from `AwaitPgrep` on a failed `pgrep`, and asks for
/// `userdel` only from `Terminated`.
pub proof fn lemma_delete_userdel_after_processes_gone(v: DeleteV, o: OutcomeV)
    ensures
        delete_next(v, o).0.step == DeleteStep::Terminated && v.step != DeleteStep::Terminated
            ==> v.step == DeleteStep::AwaitPgrep && o is Ran && !o->success,
        delete_next(v, o).0.step == DeleteStep::AwaitUserdel && v.step != DeleteStep::AwaitUserdel
            ==> v.step == DeleteStep::Terminated && delete_next(v, o).1 == EffectV::Run(
            userdel_call(v.name),
        ),
{
}

/// The systemd configuration is removed only after `systemctl --user stop` has
/// run to its end.
pub proof fn lemma_delete_stops_first(v: DeleteV, o: OutcomeV)
    requires
        delete_next(v, o).0.step == DeleteStep::AwaitConfigRemoval,
        v.step != DeleteStep::AwaitConfigRemoval,
    ensures
        v.step == DeleteStep::InStop,
        systemctl_next(v.sys, o).1 is Finish,
        delete_next(v, o).1 == EffectV::RemoveDirAll(systemd_dir(v.name)),
{
}

} // verus!
