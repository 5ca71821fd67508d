//! `update`: pull the repository, build it, stop the service, put the new build
//! in place of the old one and start the service again.
use vstd::prelude::*;

use crate::build_flow::{BuildFlow, BuildStep, BuildV, build_next};
use crate::control::{ControlFlow, ControlV, ServiceAction, control_begin, control_next};
use crate::effects::{CallV, Effect, EffectV, Outcome, OutcomeV, ProcessCall};
use crate::env::views;
use crate::layout::{ServiceLayout, build_dir, repo_build_dir, repo_dir};
use crate::session::push_str;
use crate::start_flow::{StartFlow, StartV, start_begin, start_next};
use crate::text::{concat2, concat3, concat4};
use crate::release::{
    checkout_call,
    fetch_call,
    latest_release_tag,
    latest_tag,
    make_checkout_call,
    make_fetch_call,
    make_tag_list_call,
    tag_list_call,
};

verus! {

/// `git pull` in the repository, its output shown.
pub open spec fn pull_call(name: Seq<char>) -> CallV {
    CallV {
        program: "git"@,
        args: seq!["pull"@],
        current_dir: Some(repo_dir(name)),
        env: None,
        capture: false,
        expect: Some("Failed to execute git pull"@),
    }
}

/// A `build` of `name` that keeps the existing build, not started.
pub open spec fn build_begin(name: Seq<char>) -> BuildV {
    BuildV { name, replace_existing: false, step: BuildStep::Start }
}

/// Where an `update` stands.
#[derive(Debug, Clone, Copy, PartialEq, Eq, Structural)]
pub enum UpdateStep {
    Start,
    Announced,
    /// Waiting for `git pull` to have run.
    AwaitPull,
    /// Waiting for `git fetch --tags` to have run.
    AwaitFetch,
    /// Waiting for the list of the repository's tags.
    AwaitTags,
    /// Waiting for the latest release to have been checked out.
    AwaitCheckout,
    /// The pull was reported.
    Pulled,
    /// Building.
    InBuild,
    /// Stopping the service.
    InStop,
    /// Waiting to learn whether `/home/<name>/build` exists.
    AwaitBuildDir,
    /// Waiting for its entries to be opened, to empty it.
    ClearOpen,
    /// Waiting for its next entry.
    ClearNext,
    /// Waiting for that entry to be removed.
    ClearRemove,
    /// Waiting for it to be created.
    AwaitCreate,
    /// It is ready, which was reported.
    Prepared,
    /// Waiting for the entries of the new build to be opened.
    MoveOpen,
    /// Waiting for the next entry of the new build.
    MoveNext,
    /// Waiting for that entry to be moved into `/home/<name>/build`.
    MoveEntry,
    /// The move was reported.
    Moved,
    /// Starting the service.
    InStart,
    Closing,
    Done,
}

/// The view of an `UpdateFlow`.
pub struct UpdateV {
    pub name: Seq<char>,
    pub latest_release: bool,
    pub tag: Seq<char>,
    pub step: UpdateStep,
    pub build: BuildV,
    pub stop: ControlV,
    pub start: StartV,
}

/// An `update` of `name` that has not started.
pub open spec fn update_begin(name: Seq<char>, latest_release: bool) -> UpdateV {
    UpdateV {
        name,
        latest_release,
        tag: Seq::empty(),
        step: UpdateStep::Start,
        build: build_begin(name),
        stop: control_begin(name, ServiceAction::Stop),
        start: start_begin(name, true),
    }
}

/// `v` at step `step`.
pub open spec fn update_at(v: UpdateV, step: UpdateStep) -> UpdateV {
    UpdateV { step, ..v }
}

/// The next state and request of an `update` in state `v` given outcome `o`.
pub open spec fn update_next(v: UpdateV, o: OutcomeV) -> (UpdateV, EffectV) {
    let n = v.name;
    let done = (update_at(v, UpdateStep::Done), EffectV::Finish);
    match v.step {
        UpdateStep::Start => (
            update_at(v, UpdateStep::Announced),
            EffectV::Say("Updating service: "@ + n),
        ),
        UpdateStep::Announced => if v.latest_release {
            (update_at(v, UpdateStep::AwaitFetch), EffectV::Run(fetch_call(n)))
        } else {
            (update_at(v, UpdateStep::AwaitPull), EffectV::Run(pull_call(n)))
        },
        UpdateStep::AwaitFetch => match o {
            OutcomeV::Ran { success: false, .. } => (
                update_at(v, UpdateStep::Closing),
                EffectV::Warn("Failed to pull latest changes for service: "@ + n),
            ),
            OutcomeV::Ran { success: true, .. } => (
                update_at(v, UpdateStep::AwaitTags),
                EffectV::Run(tag_list_call(n)),
            ),
            _ => done,
        },
        UpdateStep::AwaitTags => match o {
            OutcomeV::Ran { success, stdout, .. } => match latest_tag(stdout) {
                Some(t) => if success {
                    (
                        UpdateV { tag: t, step: UpdateStep::AwaitCheckout, ..v },
                        EffectV::Run(checkout_call(n, t)),
                    )
                } else {
                    (
                        update_at(v, UpdateStep::Closing),
                        EffectV::Warn("No release found for service: "@ + n),
                    )
                },
                None => (
                    update_at(v, UpdateStep::Closing),
                    EffectV::Warn("No release found for service: "@ + n),
                ),
            },
            _ => done,
        },
        UpdateStep::AwaitCheckout => match o {
            OutcomeV::Ran { success: true, .. } => (
                update_at(v, UpdateStep::Pulled),
                EffectV::Say("Checked out latest release "@ + v.tag + " for service: "@ + n),
            ),
            OutcomeV::Ran { success: false, .. } => (
                update_at(v, UpdateStep::Closing),
                EffectV::Warn("Failed to check out release "@ + v.tag + " for service: "@ + n),
            ),
            _ => done,
        },
        UpdateStep::AwaitPull => match o {
            OutcomeV::Ran { success: false, .. } => (
                update_at(v, UpdateStep::Closing),
                EffectV::Warn("Failed to pull latest changes for service: "@ + n),
            ),
            OutcomeV::Ran { success: true, .. } => (
                update_at(v, UpdateStep::Pulled),
                EffectV::Say("Latest changes pulled successfully for service: "@ + n),
            ),
            _ => done,
        },
        UpdateStep::Pulled => {
            let (b, e) = build_next(build_begin(n), OutcomeV::Begin);
            (UpdateV { step: UpdateStep::InBuild, build: b, ..v }, e)
        },
        UpdateStep::InBuild => {
            let (b, e) = build_next(v.build, o);
            if e is Finish {
                let (c, e2) = control_next(control_begin(n, ServiceAction::Stop), OutcomeV::Begin);
                (UpdateV { step: UpdateStep::InStop, build: b, stop: c, ..v }, e2)
            } else {
                (UpdateV { build: b, ..v }, e)
            }
        },
        UpdateStep::InStop => {
            let (c, e) = control_next(v.stop, o);
            if e is Finish {
                (
                    UpdateV { step: UpdateStep::AwaitBuildDir, stop: c, ..v },
                    EffectV::Exists(build_dir(n)),
                )
            } else {
                (UpdateV { stop: c, ..v }, e)
            }
        },
        UpdateStep::AwaitBuildDir => match o {
            OutcomeV::Found(true) => (
                update_at(v, UpdateStep::ClearOpen),
                EffectV::OpenDir(build_dir(n)),
            ),
            OutcomeV::Found(false) => (
                update_at(v, UpdateStep::AwaitCreate),
                EffectV::CreateDirAll { path: build_dir(n), or_panic: None },
            ),
            _ => done,
        },
        UpdateStep::ClearOpen | UpdateStep::ClearNext | UpdateStep::ClearRemove => match o {
            OutcomeV::IoFailed(e) => (
                update_at(v, UpdateStep::Closing),
                EffectV::Warn("Error clearing existing build directory: "@ + e),
            ),
            OutcomeV::IoOk => if v.step == UpdateStep::ClearNext {
                done
            } else {
                (update_at(v, UpdateStep::ClearNext), EffectV::NextEntry)
            },
            OutcomeV::Entry { is_dir } => if v.step == UpdateStep::ClearNext {
                (update_at(v, UpdateStep::ClearRemove), EffectV::RemoveEntry { as_dir: is_dir })
            } else {
                done
            },
            OutcomeV::NoMoreEntries => if v.step == UpdateStep::ClearNext {
                (
                    update_at(v, UpdateStep::Prepared),
                    EffectV::Say("Existing build directory cleared successfully."@),
                )
            } else {
                done
            },
            _ => done,
        },
        UpdateStep::AwaitCreate => match o {
            OutcomeV::IoFailed(e) => (
                update_at(v, UpdateStep::Closing),
                EffectV::Warn("Error creating build directory: "@ + e),
            ),
            OutcomeV::IoOk => (
                update_at(v, UpdateStep::Prepared),
                EffectV::Say("Build directory created successfully."@),
            ),
            _ => done,
        },
        UpdateStep::Prepared => (
            update_at(v, UpdateStep::MoveOpen),
            EffectV::OpenDir(repo_build_dir(n)),
        ),
        UpdateStep::MoveOpen | UpdateStep::MoveNext | UpdateStep::MoveEntry => match o {
            OutcomeV::IoFailed(e) => (
                update_at(v, UpdateStep::Closing),
                EffectV::Warn("Error moving new build contents: "@ + e),
            ),
            OutcomeV::IoOk => if v.step == UpdateStep::MoveNext {
                done
            } else {
                (update_at(v, UpdateStep::MoveNext), EffectV::NextEntry)
            },
            OutcomeV::Entry { .. } => if v.step == UpdateStep::MoveNext {
                (update_at(v, UpdateStep::MoveEntry), EffectV::MoveEntryInto(build_dir(n)))
            } else {
                done
            },
            OutcomeV::NoMoreEntries => if v.step == UpdateStep::MoveNext {
                (
                    update_at(v, UpdateStep::Moved),
                    EffectV::Say("New build contents moved successfully."@),
                )
            } else {
                done
            },
            _ => done,
        },
        UpdateStep::Moved => {
            let (s, e) = start_next(start_begin(n, true), OutcomeV::Begin);
            (UpdateV { step: UpdateStep::InStart, start: s, ..v }, e)
        },
        UpdateStep::InStart => {
            let (s, e) = start_next(v.start, o);
            if e is Finish {
                (
                    UpdateV { step: UpdateStep::Closing, start: s, ..v },
                    EffectV::Say("Service '"@ + n + "' updated successfully."@),
                )
            } else {
                (UpdateV { start: s, ..v }, e)
            }
        },
        UpdateStep::Closing => done,
        UpdateStep::Done => done,
    }
}

/// `update` of one service: `git pull`, or, for the latest release, `git fetch
/// --tags` and `git checkout` of the newest tag (giving up where there is
/// none); if that succeeds, builds the service (keeping the existing build), stops it,
/// empties (or creates) `/home/<name>/build`, moves the new build's contents
/// there and starts the service, leaving its `.env` as it is.
pub struct UpdateFlow {
    layout: ServiceLayout,
    latest_release: bool,
    tag: String,
    step: UpdateStep,
    build: BuildFlow,
    stop: ControlFlow,
    start: StartFlow,
}

impl View for UpdateFlow {
    type V = UpdateV;

    closed spec fn view(&self) -> UpdateV {
        UpdateV {
            name: self.layout.name@,
            latest_release: self.latest_release,
            tag: self.tag@,
            step: self.step,
            build: self.build@,
            stop: self.stop@,
            start: self.start@,
        }
    }
}

impl UpdateFlow {
    #[verifier::type_invariant]
    closed spec fn layout_ok(self) -> bool {
        self.layout.matches(self.layout.name@)
    }

    /// An `update` of `service_name` that has not started.
    pub fn new(service_name: &str, latest_release: bool) -> (res: UpdateFlow)
        ensures
            res@ == update_begin(service_name@, latest_release),
    {
        UpdateFlow {
            layout: ServiceLayout::new(service_name),
            latest_release,
            tag: String::new(),
            step: UpdateStep::Start,
            build: BuildFlow::new(service_name, false),
            stop: ControlFlow::new(service_name, ServiceAction::Stop),
            start: StartFlow::new(service_name, true),
        }
    }

    /// The call `git pull`.
    fn make_pull_call(&self) -> (res: ProcessCall)
        ensures
            res@ == pull_call(self@.name),
    {
        proof {
            use_type_invariant(self);
        }
        let mut args: Vec<String> = Vec::new();
        push_str(&mut args, "pull");
        assert(views(args@) =~= seq!["pull"@]);
        ProcessCall {
            program: String::from_str("git"),
            args,
            current_dir: Some(self.layout.repo_dir.clone()),
            env: None,
            capture: false,
            expect: Some(String::from_str("Failed to execute git pull")),
        }
    }

    /// Ends the update.
    fn finish(&mut self) -> (res: Effect)
        ensures
            final(self)@ == update_at(old(self)@, UpdateStep::Done),
            res@ == EffectV::Finish,
    {
        proof {
            use_type_invariant(&*self);
        }
        self.step = UpdateStep::Done;
        Effect::Finish
    }

    /// Hands the outcome to the running build.
    fn forward_build(&mut self, outcome: Outcome) -> (res: Effect)
        ensures
            final(self)@ == (UpdateV { build: build_next(old(self)@.build, outcome@).0, ..old(self)@ }),
            res@ == build_next(old(self)@.build, outcome@).1,
            final(self).layout == old(self).layout,
    {
        proof {
            use_type_invariant(&*self);
        }
        let mut b = BuildFlow::new("", false);
        std::mem::swap(&mut b, &mut self.build);
        let e = b.step(outcome);
        self.build = b;
        e
    }

    /// Hands the outcome to the running stop.
    fn forward_stop(&mut self, outcome: Outcome) -> (res: Effect)
        ensures
            final(self)@ == (UpdateV { stop: control_next(old(self)@.stop, outcome@).0, ..old(self)@ }),
            res@ == control_next(old(self)@.stop, outcome@).1,
            final(self).layout == old(self).layout,
    {
        proof {
            use_type_invariant(&*self);
        }
        let mut c = ControlFlow::new("", ServiceAction::Stop);
        std::mem::swap(&mut c, &mut self.stop);
        let e = c.step(outcome);
        self.stop = c;
        e
    }

    /// Hands the outcome to the running start.
    fn forward_start(&mut self, outcome: Outcome) -> (res: Effect)
        ensures
            final(self)@ == (UpdateV { start: start_next(old(self)@.start, outcome@).0, ..old(self)@ }),
            res@ == start_next(old(self)@.start, outcome@).1,
            final(self).layout == old(self).layout,
    {
        proof {
            use_type_invariant(&*self);
        }
        let mut s = StartFlow::new("", true);
        std::mem::swap(&mut s, &mut self.start);
        let e = s.step(outcome);
        self.start = s;
        e
    }

    /// Where it stands.
    pub fn current_step(&self) -> (res: UpdateStep)
        ensures
            res == self@.step,
    {
        self.step
    }

    /// Moves on from the outcome of the last request to the next request.
    pub fn step(&mut self, outcome: Outcome) -> (res: Effect)
        ensures
            (final(self)@, res@) == update_next(old(self)@, outcome@),
    {
        proof {
            use_type_invariant(&*self);
        }
        match self.step {
            UpdateStep::Start => {
                self.step = UpdateStep::Announced;
                Effect::Say(concat2("Updating service: ", self.layout.name.as_str()))
            },
            UpdateStep::Announced => {
                if self.latest_release {
                    self.step = UpdateStep::AwaitFetch;
                    Effect::Run(make_fetch_call(self.layout.name.as_str()))
                } else {
                    let c = self.make_pull_call();
                    self.step = UpdateStep::AwaitPull;
                    Effect::Run(c)
                }
            },
            UpdateStep::AwaitFetch => match outcome {
                Outcome::Ran { success, .. } => {
                    if success {
                        self.step = UpdateStep::AwaitTags;
                        Effect::Run(make_tag_list_call(self.layout.name.as_str()))
                    } else {
                        self.step = UpdateStep::Closing;
                        Effect::Warn(
                            concat2(
                                "Failed to pull latest changes for service: ",
                                self.layout.name.as_str(),
                            ),
                        )
                    }
                },
                _ => self.finish(),
            },
            UpdateStep::AwaitTags => match outcome {
                Outcome::Ran { success, stdout, .. } => match latest_release_tag(stdout.as_str()) {
                    Some(t) => {
                        if success {
                            let c = make_checkout_call(self.layout.name.as_str(), t.as_str());
                            self.tag = t;
                            self.step = UpdateStep::AwaitCheckout;
                            Effect::Run(c)
                        } else {
                            self.step = UpdateStep::Closing;
                            Effect::Warn(
                                concat2("No release found for service: ", self.layout.name.as_str()),
                            )
                        }
                    },
                    None => {
                        self.step = UpdateStep::Closing;
                        Effect::Warn(
                            concat2("No release found for service: ", self.layout.name.as_str()),
                        )
                    },
                },
                _ => self.finish(),
            },
            UpdateStep::AwaitCheckout => match outcome {
                Outcome::Ran { success, .. } => {
                    if success {
                        self.step = UpdateStep::Pulled;
                        Effect::Say(
                            concat4(
                                "Checked out latest release ",
                                self.tag.as_str(),
                                " for service: ",
                                self.layout.name.as_str(),
                            ),
                        )
                    } else {
                        self.step = UpdateStep::Closing;
                        Effect::Warn(
                            concat4(
                                "Failed to check out release ",
                                self.tag.as_str(),
                                " for service: ",
                                self.layout.name.as_str(),
                            ),
                        )
                    }
                },
                _ => self.finish(),
            },
            UpdateStep::AwaitPull => match outcome {
                Outcome::Ran { success, .. } => {
                    if success {
                        self.step = UpdateStep::Pulled;
                        Effect::Say(
                            concat2(
                                "Latest changes pulled successfully for service: ",
                                self.layout.name.as_str(),
                            ),
                        )
                    } else {
                        self.step = UpdateStep::Closing;
                        Effect::Warn(
                            concat2(
                                "Failed to pull latest changes for service: ",
                                self.layout.name.as_str(),
                            ),
                        )
                    }
                },
                _ => self.finish(),
            },
            UpdateStep::Pulled => {
                self.build = BuildFlow::new(self.layout.name.as_str(), false);
                self.step = UpdateStep::InBuild;
                self.forward_build(Outcome::Begin)
            },
            UpdateStep::InBuild => {
                let e = self.forward_build(outcome);
                if e.is_finish() {
                    self.stop = ControlFlow::new(self.layout.name.as_str(), ServiceAction::Stop);
                    self.step = UpdateStep::InStop;
                    self.forward_stop(Outcome::Begin)
                } else {
                    e
                }
            },
            UpdateStep::InStop => {
                let e = self.forward_stop(outcome);
                if e.is_finish() {
                    self.step = UpdateStep::AwaitBuildDir;
                    Effect::Exists(self.layout.build_dir.clone())
                } else {
                    e
                }
            },
            UpdateStep::AwaitBuildDir => match outcome {
                Outcome::Found(true) => {
                    self.step = UpdateStep::ClearOpen;
                    Effect::OpenDir(self.layout.build_dir.clone())
                },
                Outcome::Found(false) => {
                    self.step = UpdateStep::AwaitCreate;
                    Effect::CreateDirAll { path: self.layout.build_dir.clone(), or_panic: None }
                },
                _ => self.finish(),
            },
            UpdateStep::ClearOpen | UpdateStep::ClearNext | UpdateStep::ClearRemove => {
                let at_next = self.step == UpdateStep::ClearNext;
                match outcome {
                    Outcome::IoFailed(e) => {
                        self.step = UpdateStep::Closing;
                        Effect::Warn(
                            concat2("Error clearing existing build directory: ", e.as_str()),
                        )
                    },
                    Outcome::IoOk if !at_next => {
                        self.step = UpdateStep::ClearNext;
                        Effect::NextEntry
                    },
                    Outcome::Entry { is_dir } if at_next => {
                        self.step = UpdateStep::ClearRemove;
                        Effect::RemoveEntry { as_dir: is_dir }
                    },
                    Outcome::NoMoreEntries if at_next => {
                        self.step = UpdateStep::Prepared;
                        Effect::Say(
                            String::from_str("Existing build directory cleared successfully."),
                        )
                    },
                    _ => self.finish(),
                }
            },
            UpdateStep::AwaitCreate => match outcome {
                Outcome::IoFailed(e) => {
                    self.step = UpdateStep::Closing;
                    Effect::Warn(concat2("Error creating build directory: ", e.as_str()))
                },
                Outcome::IoOk => {
                    self.step = UpdateStep::Prepared;
                    Effect::Say(String::from_str("Build directory created successfully."))
                },
                _ => self.finish(),
            },
            UpdateStep::Prepared => {
                self.step = UpdateStep::MoveOpen;
                Effect::OpenDir(self.layout.repo_build_dir.clone())
            },
            UpdateStep::MoveOpen | UpdateStep::MoveNext | UpdateStep::MoveEntry => {
                let at_next = self.step == UpdateStep::MoveNext;
                match outcome {
                    Outcome::IoFailed(e) => {
                        self.step = UpdateStep::Closing;
                        Effect::Warn(concat2("Error moving new build contents: ", e.as_str()))
                    },
                    Outcome::IoOk if !at_next => {
                        self.step = UpdateStep::MoveNext;
                        Effect::NextEntry
                    },
                    Outcome::Entry { .. } if at_next => {
                        self.step = UpdateStep::MoveEntry;
                        Effect::MoveEntryInto(self.layout.build_dir.clone())
                    },
                    Outcome::NoMoreEntries if at_next => {
                        self.step = UpdateStep::Moved;
                        Effect::Say(String::from_str("New build contents moved successfully."))
                    },
                    _ => self.finish(),
                }
            },
            UpdateStep::Moved => {
                self.start = StartFlow::new(self.layout.name.as_str(), true);
                self.step = UpdateStep::InStart;
                self.forward_start(Outcome::Begin)
            },
            UpdateStep::InStart => {
                let e = self.forward_start(outcome);
                if e.is_finish() {
                    self.step = UpdateStep::Closing;
                    Effect::Say(
                        concat3("Service '", self.layout.name.as_str(), "' updated successfully."),
                    )
                } else {
                    e
                }
            },
            UpdateStep::Closing => self.finish(),
            UpdateStep::Done => self.finish(),
        }
    }
}

/// The running build is touched only once the service has been stopped: an
/// `update` reaches `AwaitBuildDir` only from `InStop` when the stop is over.
pub proof fn lemma_update_stops_before_replacing(v: UpdateV, o: OutcomeV)
    requires
        v.step != UpdateStep::AwaitBuildDir,
        update_next(v, o).0.step == UpdateStep::AwaitBuildDir,
    ensures
        v.step == UpdateStep::InStop,
        control_next(v.stop, o).1 is Finish,
{
}

/// The service is started again only once the new build has been moved into
/// place: an `update` reaches `InStart` only from `Moved`.
pub proof fn lemma_update_starts_after_move(v: UpdateV, o: OutcomeV)
    requires
        v.step != UpdateStep::InStart,
        update_next(v, o).0.step == UpdateStep::InStart,
    ensures
        v.step == UpdateStep::Moved,
{
}

/// A failed `git pull` (or `git fetch --tags`, for the latest release) ends the
/// update: nothing is built, stopped or moved.
pub proof fn lemma_update_pull_failure_ends(v: UpdateV, o: OutcomeV)
    requires
        v.step == UpdateStep::AwaitPull || v.step == UpdateStep::AwaitFetch,
        o is Ran,
        !o->success,
    ensures
        update_next(v, o).0.step == UpdateStep::Closing,
        update_next(update_next(v, o).0, OutcomeV::Completed).1 is Finish,
{
}

/// Plain `update`s pull; `update`s to the latest release fetch and check out.
pub open spec fn update_reachable(v: UpdateV) -> bool {
    &&& v.step == UpdateStep::AwaitPull ==> !v.latest_release
    &&& (v.step == UpdateStep::AwaitFetch || v.step == UpdateStep::AwaitTags || v.step
        == UpdateStep::AwaitCheckout) ==> v.latest_release
}

/// Every step keeps `update_reachable`, which holds of an `update` that has not
/// started.
pub proof fn lemma_update_reachable_kept(v: UpdateV, o: OutcomeV)
    requires
        update_reachable(v),
    ensures
        update_reachable(update_next(v, o).0),
        update_next(v, o).0.latest_release == v.latest_release,
{
}

/// The build is updated only once its source is in place: an `update` starts
/// building (`Pulled`) only after a successful `git pull`, or, for the latest
/// release, after checking out the newest tag.
pub proof fn lemma_update_builds_after_source(v: UpdateV, o: OutcomeV)
    requires
        update_reachable(v),
        v.step != UpdateStep::Pulled,
        update_next(v, o).0.step == UpdateStep::Pulled,
    ensures
        !v.latest_release ==> v.step == UpdateStep::AwaitPull,
        v.latest_release ==> v.step == UpdateStep::AwaitCheckout,
        o is Ran && o->success,
{
}

/// Emptying `/home/<name>/build` removes each entry as what it is: a directory
/// with its contents, anything else as a file; the new build's entries are each
/// moved into `/home/<name>/build`. After the last entry the walk is reported
/// and the update goes on.
pub proof fn lemma_update_walks_entries(v: UpdateV, is_dir: bool)
    ensures
        v.step == UpdateStep::ClearNext ==> update_next(v, OutcomeV::Entry { is_dir }) == (
            update_at(v, UpdateStep::ClearRemove),
            EffectV::RemoveEntry { as_dir: is_dir },
        ),
        v.step == UpdateStep::ClearRemove ==> update_next(v, OutcomeV::IoOk) == (
            update_at(v, UpdateStep::ClearNext),
            EffectV::NextEntry,
        ),
        v.step == UpdateStep::ClearNext ==> update_next(v, OutcomeV::NoMoreEntries).0.step
            == UpdateStep::Prepared,
        v.step == UpdateStep::MoveNext ==> update_next(v, OutcomeV::Entry { is_dir }) == (
            update_at(v, UpdateStep::MoveEntry),
            EffectV::MoveEntryInto(build_dir(v.name)),
        ),
        v.step == UpdateStep::MoveEntry ==> update_next(v, OutcomeV::IoOk) == (
            update_at(v, UpdateStep::MoveNext),
            EffectV::NextEntry,
        ),
        v.step == UpdateStep::MoveNext ==> update_next(v, OutcomeV::NoMoreEntries).0.step
            == UpdateStep::Moved,
{
}

/// The new build is moved in only into a directory that is ready: an `update`
/// reaches `Prepared` only once every entry of the old build was removed, or
/// once the directory was created.
pub proof fn lemma_update_moves_into_ready_dir(v: UpdateV, o: OutcomeV)
    requires
        v.step != UpdateStep::Prepared,
        update_next(v, o).0.step == UpdateStep::Prepared,
    ensures
        (v.step == UpdateStep::ClearNext && o is NoMoreEntries) || (v.step
            == UpdateStep::AwaitCreate && o is IoOk),
{
}

/// A failure while emptying or creating `/home/<name>/build`, or while moving
/// the new build in, is reported and ends the update: the service is not
/// started again.
pub proof fn lemma_update_dir_failure_ends(v: UpdateV, e: Seq<char>)
    requires
        v.step == UpdateStep::ClearOpen || v.step == UpdateStep::ClearNext || v.step
            == UpdateStep::ClearRemove || v.step == UpdateStep::AwaitCreate || v.step
            == UpdateStep::MoveOpen || v.step == UpdateStep::MoveNext || v.step
            == UpdateStep::MoveEntry,
    ensures
        update_next(v, OutcomeV::IoFailed(e)).0.step == UpdateStep::Closing,
        update_next(v, OutcomeV::IoFailed(e)).1 is Warn,
        update_next(update_next(v, OutcomeV::IoFailed(e)).0, OutcomeV::Completed).1 is Finish,
{
}

/// An `update` to the latest release checks out the newest tag that a
/// successful listing gave, after fetching the tags.
pub proof fn lemma_update_checks_out_latest(v: UpdateV, o: OutcomeV)
    requires
        update_reachable(v),
        v.step != UpdateStep::AwaitCheckout,
        update_next(v, o).0.step == UpdateStep::AwaitCheckout,
    ensures
        v.step == UpdateStep::AwaitTags,
        v.latest_release,
        o is Ran && o->success,
        latest_tag(o->stdout) == Some(update_next(v, o).0.tag),
        update_next(v, o).1 == EffectV::Run(checkout_call(v.name, update_next(v, o).0.tag)),
{
}

} // verus!
