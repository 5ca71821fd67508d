//! `stop` and `restart`: run `systemctl --user stop|restart` for a service
//! whose unit file exists.
use vstd::prelude::*;

use crate::effects::{CallV, Effect, EffectV, Outcome, OutcomeV};
use crate::layout::{ServiceLayout, unit_file};
use crate::session::{SystemctlFlow, SystemctlStep, SystemctlV, systemctl_next};
use crate::text::{concat2, concat3};

verus! {

/// Which of the two commands runs.
#[derive(Debug, Clone, Copy, PartialEq, Eq, Structural)]
pub enum ServiceAction {
    Stop,
    Restart,
}

/// The `systemctl` command of the action.
pub open spec fn action_command(a: ServiceAction) -> Seq<char> {
    match a {
        ServiceAction::Stop => "stop"@,
        ServiceAction::Restart => "restart"@,
    }
}

/// The line printed when the action begins.
pub open spec fn action_intro(a: ServiceAction, name: Seq<char>) -> Seq<char> {
    match a {
        ServiceAction::Stop => "Stopping service: "@ + name,
        ServiceAction::Restart => "Restarting service: "@ + name,
    }
}

/// The line printed once `systemctl` has run.
pub open spec fn action_done(a: ServiceAction, name: Seq<char>) -> Seq<char> {
    match a {
        ServiceAction::Stop => "Service "@ + name + " has been stopped."@,
        ServiceAction::Restart => "Service "@ + name + " has been restarted."@,
    }
}

/// The line printed when the service has no unit file.
pub open spec fn action_absent(a: ServiceAction, name: Seq<char>) -> Seq<char> {
    match a {
        ServiceAction::Stop => "No systemd service found for "@ + name
            + ", assuming it's already stopped or does not exist."@,
        ServiceAction::Restart => "No systemd service found for "@ + name
            + ", assuming it does not exist."@,
    }
}

/// A `systemctl` run that has not started.
pub open spec fn systemctl_start(service: Seq<char>, command: Seq<char>) -> SystemctlV {
    SystemctlV { service, command, uid: Seq::empty(), step: SystemctlStep::Start }
}

/// A `stop` or `restart` of `name` that has not started.
pub open spec fn control_begin(name: Seq<char>, action: ServiceAction) -> ControlV {
    ControlV {
        name,
        action,
        step: ControlStep::Start,
        sys: systemctl_start(name, action_command(action)),
    }
}

/// Where a `stop` or `restart` stands.
#[derive(Debug, Clone, Copy, PartialEq, Eq, Structural)]
pub enum ControlStep {
    Start,
    /// The first line was printed.
    Announced,
    /// Waiting to learn whether the unit file exists.
    AwaitUnit,
    /// Running `systemctl`.
    InSystemctl,
    /// A last line was printed.
    Closing,
    Done,
}

/// The view of a `ControlFlow`.
pub struct ControlV {
    pub name: Seq<char>,
    pub action: ServiceAction,
    pub step: ControlStep,
    pub sys: SystemctlV,
}

/// `v` at step `step`.
pub open spec fn control_at(v: ControlV, step: ControlStep) -> ControlV {
    ControlV { step, ..v }
}

/// The next state and request of a `stop`/`restart` in state `v` given outcome `o`.
pub open spec fn control_next(v: ControlV, o: OutcomeV) -> (ControlV, EffectV) {
    match v.step {
        ControlStep::Start => (
            control_at(v, ControlStep::Announced),
            EffectV::Say(action_intro(v.action, v.name)),
        ),
        ControlStep::Announced => (
            control_at(v, ControlStep::AwaitUnit),
            EffectV::Exists(unit_file(v.name)),
        ),
        ControlStep::AwaitUnit => match o {
            OutcomeV::Found(true) => {
                let (s, e) = systemctl_next(
                    systemctl_start(v.name, action_command(v.action)),
                    OutcomeV::Begin,
                );
                (ControlV { step: ControlStep::InSystemctl, sys: s, ..v }, e)
            },
            OutcomeV::Found(false) => (
                control_at(v, ControlStep::Closing),
                EffectV::Say(action_absent(v.action, v.name)),
            ),
            _ => (control_at(v, ControlStep::Done), EffectV::Finish),
        },
        ControlStep::InSystemctl => {
            let (s, e) = systemctl_next(v.sys, o);
            if e is Finish {
                (
                    ControlV { step: ControlStep::Closing, sys: s, ..v },
                    EffectV::Say(action_done(v.action, v.name)),
                )
            } else {
                (ControlV { sys: s, ..v }, e)
            }
        },
        ControlStep::Closing => (control_at(v, ControlStep::Done), EffectV::Finish),
        ControlStep::Done => (v, EffectV::Finish),
    }
}

/// `stop` or `restart` of one service: prints what it does, and runs
/// `systemctl --user stop|restart` as the service's user if the service's unit
/// file exists; otherwise says that there is no such service.
pub struct ControlFlow {
    layout: ServiceLayout,
    action: ServiceAction,
    step: ControlStep,
    sys: SystemctlFlow,
}

impl View for ControlFlow {
    type V = ControlV;

    closed spec fn view(&self) -> ControlV {
        ControlV { name: self.layout.name@, action: self.action, step: self.step, sys: self.sys@ }
    }
}

impl ControlFlow {
    #[verifier::type_invariant]
    closed spec fn layout_ok(self) -> bool {
        self.layout.matches(self.layout.name@)
    }

    /// A `stop` or `restart` of the service `service_name` that has not started.
    pub fn new(service_name: &str, action: ServiceAction) -> (res: ControlFlow)
        ensures
            res@ == control_begin(service_name@, action),
    {
        let command = match action {
            ServiceAction::Stop => "stop",
            ServiceAction::Restart => "restart",
        };
        ControlFlow {
            layout: ServiceLayout::new(service_name),
            action,
            step: ControlStep::Start,
            sys: SystemctlFlow::new(service_name, command),
        }
    }

    /// Where it stands.
    pub fn current_step(&self) -> (res: ControlStep)
        ensures
            res == self@.step,
    {
        self.step
    }

    /// Moves on from the outcome of the last request to the next request.
    pub fn step(&mut self, outcome: Outcome) -> (res: Effect)
        ensures
            (final(self)@, res@) == control_next(old(self)@, outcome@),
    {
        proof {
            use_type_invariant(&*self);
        }
        match self.step {
            ControlStep::Start => {
                self.step = ControlStep::Announced;
                let msg = match self.action {
                    ServiceAction::Stop => concat2("Stopping service: ", self.layout.name.as_str()),
                    ServiceAction::Restart => concat2(
                        "Restarting service: ",
                        self.layout.name.as_str(),
                    ),
                };
                Effect::Say(msg)
            },
            ControlStep::Announced => {
                self.step = ControlStep::AwaitUnit;
                Effect::Exists(self.layout.unit_file.clone())
            },
            ControlStep::AwaitUnit => match outcome {
                Outcome::Found(true) => {
                    let command = match self.action {
                        ServiceAction::Stop => "stop",
                        ServiceAction::Restart => "restart",
                    };
                    let mut sys = SystemctlFlow::new(self.layout.name.as_str(), command);
                    let e = sys.step(Outcome::Begin);
                    self.sys = sys;
                    self.step = ControlStep::InSystemctl;
                    e
                },
                Outcome::Found(false) => {
                    self.step = ControlStep::Closing;
                    let msg = match self.action {
                        ServiceAction::Stop => concat3(
                            "No systemd service found for ",
                            self.layout.name.as_str(),
                            ", assuming it's already stopped or does not exist.",
                        ),
                        ServiceAction::Restart => concat3(
                            "No systemd service found for ",
                            self.layout.name.as_str(),
                            ", assuming it does not exist.",
                        ),
                    };
                    Effect::Say(msg)
                },
                _ => {
                    self.step = ControlStep::Done;
                    Effect::Finish
                },
            },
            ControlStep::InSystemctl => {
                let mut sys = SystemctlFlow::new("", "");
                std::mem::swap(&mut sys, &mut self.sys);
                let e = sys.step(outcome);
                self.sys = sys;
                if e.is_finish() {
                    self.step = ControlStep::Closing;
                    let msg = match self.action {
                        ServiceAction::Stop => concat3(
                            "Service ",
                            self.layout.name.as_str(),
                            " has been stopped.",
                        ),
                        ServiceAction::Restart => concat3(
                            "Service ",
                            self.layout.name.as_str(),
                            " has been restarted.",
                        ),
                    };
                    Effect::Say(msg)
                } else {
                    e
                }
            },
            ControlStep::Closing => {
                self.step = ControlStep::Done;
                Effect::Finish
            },
            ControlStep::Done => Effect::Finish,
        }
    }
}

/// `systemctl` is run only for a service whose unit file was found: a
/// `stop`/`restart` enters `InSystemctl` only from `AwaitUnit` on `Found(true)`.
pub proof fn lemma_control_needs_unit(v: ControlV, o: OutcomeV)
    requires
        v.step != ControlStep::InSystemctl,
        control_next(v, o).0.step == ControlStep::InSystemctl,
    ensures
        v.step == ControlStep::AwaitUnit,
        o == OutcomeV::Found(true),
        control_next(v, o).0.sys.command == action_command(v.action),
{
}

/// A `stop` or `restart` whose unit file is found runs `systemctl --user` as
/// the service's user: on `Found(true)` it first asks for the user's id
/// (`id -u <name>`) and starts a run of the action's command (`stop` for a
/// stop, `restart` for a restart), never reporting the action done at once.
pub proof fn lemma_control_runs_systemctl_when_unit_found(v: ControlV)
    requires
        v.step == ControlStep::AwaitUnit,
    ensures
        control_next(v, OutcomeV::Found(true)).1 == EffectV::Run(
            CallV {
                program: "id"@,
                args: seq!["-u"@, v.name],
                current_dir: None,
                env: None,
                capture: true,
                expect: Some("Failed to get user id"@),
            },
        ),
        control_next(v, OutcomeV::Found(true)).0.step == ControlStep::InSystemctl,
        control_next(v, OutcomeV::Found(true)).0.sys.service == v.name,
        control_next(v, OutcomeV::Found(true)).0.sys.step == SystemctlStep::AwaitUid,
        v.action == ServiceAction::Stop ==> control_next(v, OutcomeV::Found(true)).0.sys.command
            == "stop"@,
        v.action == ServiceAction::Restart ==> control_next(v, OutcomeV::Found(true)).0.sys.command
            == "restart"@,
{
}

/// The action is reported done only once `systemctl` has run to its end:
/// "Service <name> has been stopped." (or "restarted.") is printed only from
/// `InSystemctl`, when the run finishes.
pub proof fn lemma_control_reports_done_after_systemctl(v: ControlV, o: OutcomeV)
    requires
        control_next(v, o).1 == EffectV::Say("Service "@ + v.name + " has been stopped."@)
            || control_next(v, o).1 == EffectV::Say("Service "@ + v.name + " has been restarted."@),
    ensures
        v.step == ControlStep::InSystemctl,
        systemctl_next(v.sys, o).1 is Finish,
{
    reveal_strlit("Service ");
    reveal_strlit("No systemd service found for ");
    reveal_strlit("Stopping service: ");
    reveal_strlit("Restarting service: ");
    let e = control_next(v, o).1;
    if v.step == ControlStep::Start {
        let a = action_intro(v.action, v.name);
        let done_stop = "Service "@ + v.name + " has been stopped."@;
        let done_restart = "Service "@ + v.name + " has been restarted."@;
        assert(done_stop[0] == 'S' && done_stop[1] == 'e');
        assert(done_restart[0] == 'S' && done_restart[1] == 'e');
        match v.action {
            ServiceAction::Stop => {
                assert(a[1] == 't');
            },
            ServiceAction::Restart => {
                assert(a[0] == 'R');
            },
        }
    } else if v.step == ControlStep::AwaitUnit {
        if o == OutcomeV::Found(false) {
            let a = action_absent(v.action, v.name);
            let p = "No systemd service found for "@ + v.name;
            assert(p[0] == 'N');
            assert(a[0] == p[0]);
            assert(("Service "@ + v.name + " has been stopped."@)[0] == 'S');
            assert(("Service "@ + v.name + " has been restarted."@)[0] == 'S');
        } else if o == OutcomeV::Found(true) {
            assert(e is Run);
        }
    }
}

} // verus!
