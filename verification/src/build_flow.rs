//! `build`: run the repository's `build.sh` and, when the build replaces the
//! existing one, move `repo/build` to the home directory.
use vstd::prelude::*;

use crate::effects::{CallV, Effect, EffectV, Outcome, OutcomeV, ProcessCall};
use crate::layout::{ServiceLayout, build_dir, build_script, repo_build_dir, repo_dir};
use crate::session::push_str;
use crate::env::views;
use crate::text::{concat2, concat3};

verus! {

/// `bash /home/<name>/repo/build.sh`, run in the repository, its output shown.
pub open spec fn build_call(name: Seq<char>) -> CallV {
    CallV {
        program: "bash"@,
        args: seq![build_script(name)],
        current_dir: Some(repo_dir(name)),
        env: None,
        capture: false,
        expect: Some("Failed to execute build.sh"@),
    }
}

/// Running `build.sh` and waiting for it to end.
pub open spec fn build_effect(name: Seq<char>) -> EffectV {
    EffectV::SpawnWait { call: build_call(name), wait_expect: "Failed to wait on child process"@ }
}

/// Where a `build` stands.
#[derive(Debug, Clone, Copy, PartialEq, Eq, Structural)]
pub enum BuildStep {
    Start,
    /// Waiting to learn whether `build.sh` exists.
    AwaitScript,
    /// Waiting to learn whether an earlier build is in the home directory.
    AwaitOldBuild,
    /// Waiting for the earlier build to be removed.
    AwaitRemoval,
    /// Waiting for `build.sh` to have run.
    AwaitBuild,
    /// The success was reported.
    Built,
    /// Waiting for the build to be moved to the home directory.
    AwaitMove,
    /// A last line was printed.
    Closing,
    Done,
}

/// The view of a `BuildFlow`.
pub struct BuildV {
    pub name: Seq<char>,
    pub replace_existing: bool,
    pub step: BuildStep,
}

/// `v` at step `step`.
pub open spec fn build_at(v: BuildV, step: BuildStep) -> BuildV {
    BuildV { step, ..v }
}

/// The next state and request of a `build` in state `v` given outcome `o`.
pub open spec fn build_next(v: BuildV, o: OutcomeV) -> (BuildV, EffectV) {
    let n = v.name;
    let done = (build_at(v, BuildStep::Done), EffectV::Finish);
    match v.step {
        BuildStep::Start => (build_at(v, BuildStep::AwaitScript), EffectV::Exists(build_script(n))),
        BuildStep::AwaitScript => match o {
            OutcomeV::Found(false) => (
                build_at(v, BuildStep::Closing),
                EffectV::Warn("Error: build.sh does not exist for service: "@ + n),
            ),
            OutcomeV::Found(true) => if v.replace_existing {
                (build_at(v, BuildStep::AwaitOldBuild), EffectV::Exists(build_dir(n)))
            } else {
                (build_at(v, BuildStep::AwaitBuild), build_effect(n))
            },
            _ => done,
        },
        BuildStep::AwaitOldBuild => match o {
            OutcomeV::Found(true) => (
                build_at(v, BuildStep::AwaitRemoval),
                EffectV::RemoveDirAll(build_dir(n)),
            ),
            OutcomeV::Found(false) => (build_at(v, BuildStep::AwaitBuild), build_effect(n)),
            _ => done,
        },
        BuildStep::AwaitRemoval => match o {
            OutcomeV::IoFailed(e) => (
                build_at(v, BuildStep::Closing),
                EffectV::Warn("Error removing previous build directory in home: "@ + e),
            ),
            OutcomeV::IoOk => (build_at(v, BuildStep::AwaitBuild), build_effect(n)),
            _ => done,
        },
        BuildStep::AwaitBuild => match o {
            OutcomeV::Ran { success: true, .. } => (
                build_at(v, BuildStep::Built),
                EffectV::Say("Service "@ + n + " built successfully."@),
            ),
            OutcomeV::Ran { success: false, .. } => (
                build_at(v, BuildStep::Closing),
                EffectV::Warn("Failed to build service: "@ + n),
            ),
            _ => done,
        },
        BuildStep::Built => if v.replace_existing {
            (
                build_at(v, BuildStep::AwaitMove),
                EffectV::Rename { from: repo_build_dir(n), to: build_dir(n) },
            )
        } else {
            done
        },
        BuildStep::AwaitMove => match o {
            OutcomeV::IoFailed(e) => (
                build_at(v, BuildStep::Closing),
                EffectV::Warn("Error moving build directory to home: "@ + e),
            ),
            OutcomeV::IoOk => (
                build_at(v, BuildStep::Closing),
                EffectV::Say("Build directory moved to home successfully."@),
            ),
            _ => done,
        },
        BuildStep::Closing => done,
        BuildStep::Done => done,
    }
}

/// `build` of one service: runs `build.sh` if it exists; when the build is to
/// replace the existing one, first removes the old `/home/<name>/build` and, on
/// success, moves `repo/build` there.
pub struct BuildFlow {
    layout: ServiceLayout,
    replace_existing: bool,
    step: BuildStep,
}

impl View for BuildFlow {
    type V = BuildV;

    closed spec fn view(&self) -> BuildV {
        BuildV {
            name: self.layout.name@,
            replace_existing: self.replace_existing,
            step: self.step,
        }
    }
}

impl BuildFlow {
    #[verifier::type_invariant]
    closed spec fn layout_ok(self) -> bool {
        self.layout.matches(self.layout.name@)
    }

    /// A `build` of `service_name` that has not started.
    pub fn new(service_name: &str, replace_existing: bool) -> (res: BuildFlow)
        ensures
            res@ == (BuildV {
                name: service_name@,
                replace_existing,
                step: BuildStep::Start,
            }),
    {
        BuildFlow { layout: ServiceLayout::new(service_name), replace_existing, step: BuildStep::Start }
    }

    /// The call that runs `build.sh`.
    fn make_build_call(&self) -> (res: ProcessCall)
        ensures
            res@ == build_call(self@.name),
    {
        proof {
            use_type_invariant(self);
        }
        let mut args: Vec<String> = Vec::new();
        push_str(&mut args, self.layout.build_script.as_str());
        assert(views(args@) =~= seq![build_script(self@.name)]);
        ProcessCall {
            program: String::from_str("bash"),
            args,
            current_dir: Some(self.layout.repo_dir.clone()),
            env: None,
            capture: false,
            expect: Some(String::from_str("Failed to execute build.sh")),
        }
    }

    /// The request that runs `build.sh` and waits for it.
    fn make_build_effect(&self) -> (res: Effect)
        ensures
            res@ == build_effect(self@.name),
    {
        Effect::SpawnWait {
            call: self.make_build_call(),
            wait_expect: String::from_str("Failed to wait on child process"),
        }
    }

    /// Ends the build.
    fn finish(&mut self) -> (res: Effect)
        ensures
            final(self)@ == build_at(old(self)@, BuildStep::Done),
            res@ == EffectV::Finish,
    {
        proof {
            use_type_invariant(&*self);
        }
        self.step = BuildStep::Done;
        Effect::Finish
    }

    /// Where it stands.
    pub fn current_step(&self) -> (res: BuildStep)
        ensures
            res == self@.step,
    {
        self.step
    }

    /// Moves on from the outcome of the last request to the next request.
    pub fn step(&mut self, outcome: Outcome) -> (res: Effect)
        ensures
            (final(self)@, res@) == build_next(old(self)@, outcome@),
    {
        proof {
            use_type_invariant(&*self);
        }
        match self.step {
            BuildStep::Start => {
                self.step = BuildStep::AwaitScript;
                Effect::Exists(self.layout.build_script.clone())
            },
            BuildStep::AwaitScript => match outcome {
                Outcome::Found(false) => {
                    self.step = BuildStep::Closing;
                    Effect::Warn(
                        concat2(
                            "Error: build.sh does not exist for service: ",
                            self.layout.name.as_str(),
                        ),
                    )
                },
                Outcome::Found(true) => {
                    if self.replace_existing {
                        self.step = BuildStep::AwaitOldBuild;
                        Effect::Exists(self.layout.build_dir.clone())
                    } else {
                        self.step = BuildStep::AwaitBuild;
                        self.make_build_effect()
                    }
                },
                _ => self.finish(),
            },
            BuildStep::AwaitOldBuild => match outcome {
                Outcome::Found(true) => {
                    self.step = BuildStep::AwaitRemoval;
                    Effect::RemoveDirAll(self.layout.build_dir.clone())
                },
                Outcome::Found(false) => {
                    self.step = BuildStep::AwaitBuild;
                    self.make_build_effect()
                },
                _ => self.finish(),
            },
            BuildStep::AwaitRemoval => match outcome {
                Outcome::IoFailed(e) => {
                    self.step = BuildStep::Closing;
                    Effect::Warn(
                        concat2("Error removing previous build directory in home: ", e.as_str()),
                    )
                },
                Outcome::IoOk => {
                    self.step = BuildStep::AwaitBuild;
                    self.make_build_effect()
                },
                _ => self.finish(),
            },
            BuildStep::AwaitBuild => match outcome {
                Outcome::Ran { success, .. } => {
                    if success {
                        self.step = BuildStep::Built;
                        Effect::Say(
                            concat3("Service ", self.layout.name.as_str(), " built successfully."),
                        )
                    } else {
                        self.step = BuildStep::Closing;
                        Effect::Warn(concat2("Failed to build service: ", self.layout.name.as_str()))
                    }
                },
                _ => self.finish(),
            },
            BuildStep::Built => {
                if self.replace_existing {
                    self.step = BuildStep::AwaitMove;
                    Effect::Rename {
                        from: self.layout.repo_build_dir.clone(),
                        to: self.layout.build_dir.clone(),
                    }
                } else {
                    self.finish()
                }
            },
            BuildStep::AwaitMove => match outcome {
                Outcome::IoFailed(e) => {
                    self.step = BuildStep::Closing;
                    Effect::Warn(concat2("Error moving build directory to home: ", e.as_str()))
                },
                Outcome::IoOk => {
                    self.step = BuildStep::Closing;
                    Effect::Say(String::from_str("Build directory moved to home successfully."))
                },
                _ => self.finish(),
            },
            BuildStep::Closing => self.finish(),
            BuildStep::Done => self.finish(),
        }
    }
}

/// The steps that only a replacing build goes through are reached only by one.
pub open spec fn build_reachable(v: BuildV) -> bool {
    (v.step == BuildStep::AwaitOldBuild || v.step == BuildStep::AwaitRemoval || v.step
        == BuildStep::AwaitMove) ==> v.replace_existing
}

/// Every step keeps `build_reachable`, which holds of a build that has not started.
pub proof fn lemma_build_reachable_kept(v: BuildV, o: OutcomeV)
    requires
        build_reachable(v),
    ensures
        build_reachable(build_next(v, o).0),
        build_next(v, o).0.name == v.name,
        build_next(v, o).0.replace_existing == v.replace_existing,
{
}

/// A build that keeps the existing one never removes or replaces
/// `/home/<name>/build`: with `replace_existing` false, no step asks to remove
/// a directory or to rename one.
pub proof fn lemma_build_keeps_existing(v: BuildV, o: OutcomeV)
    requires
        build_reachable(v),
        !v.replace_existing,
    ensures
        !(build_next(v, o).1 is RemoveDirAll),
        !(build_next(v, o).1 is Rename),
{
}

/// The old build is removed only once `build.sh` is known to exist, and only by
/// a build that replaces it.
pub proof fn lemma_build_removes_after_script_found(v: BuildV, o: OutcomeV)
    requires
        build_reachable(v),
        build_next(v, o).1 is RemoveDirAll,
    ensures
        v.step == BuildStep::AwaitOldBuild,
        v.replace_existing,
        o == OutcomeV::Found(true),
{
}

/// A failed `build.sh` leaves `/home/<name>/build` alone, whether or not the
/// build was to replace it: the failure is reported and the build ends, with no
/// rename or removal requested.
pub proof fn lemma_build_failure_moves_nothing(v: BuildV, o: OutcomeV, next: OutcomeV)
    requires
        v.step == BuildStep::AwaitBuild,
        o is Ran,
        !o->success,
    ensures
        build_next(v, o).1 == EffectV::Warn("Failed to build service: "@ + v.name),
        build_next(build_next(v, o).0, next).1 == EffectV::Finish,
        build_next(build_next(v, o).0, next).0.step == BuildStep::Done,
{
}

/// The new build is moved into the home directory only after `build.sh` has
/// succeeded: the step that asks for the move (`Built`) is entered only from
/// `AwaitBuild` on a successful run, and a rename is asked for only there.
pub proof fn lemma_build_moves_only_after_success(v: BuildV, o: OutcomeV)
    ensures
        build_next(v, o).0.step == BuildStep::Built && v.step != BuildStep::Built ==> v.step
            == BuildStep::AwaitBuild && o is Ran && o->success,
        build_next(v, o).1 is Rename ==> v.step == BuildStep::Built && v.replace_existing,
{
}

/// A successful `build.sh` is reported; a build that replaces the existing one
/// then moves `/home/<name>/repo/build` to `/home/<name>/build`, and one that
/// keeps it ends there.
pub proof fn lemma_build_success_moves_when_replacing(v: BuildV, o: OutcomeV, next: OutcomeV)
    requires
        v.step == BuildStep::AwaitBuild,
        o is Ran,
        o->success,
    ensures
        build_next(v, o).1 == EffectV::Say("Service "@ + v.name + " built successfully."@),
        v.replace_existing ==> build_next(build_next(v, o).0, next).1 == (EffectV::Rename {
            from: "/home/"@ + v.name + "/repo/build"@,
            to: "/home/"@ + v.name + "/build"@,
        }),
        !v.replace_existing ==> build_next(build_next(v, o).0, next).1 == EffectV::Finish,
{
}

} // verus!
