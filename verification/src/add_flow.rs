//! `add`: create the user that runs a service, set up its systemd session,
//! clone the repository into its home directory and record the service.
use vstd::prelude::*;

use crate::console::{affirmative, question_text};
use crate::delete_flow::{DeleteFlow, DeleteV, delete_begin, delete_next};
use crate::effects::{CallV, Effect, EffectV, Outcome, OutcomeV, ProcessCall, call, opt_view, plain_call};
use crate::env::views;
use crate::files::{config_text, service_config};
use crate::layout::{ServiceLayout, build_script, config_file, repo_dir};
use crate::naming::{derived_service_name, service_name_for};
use crate::release::{checkout_call, latest_release_tag, latest_tag, make_checkout_call, make_tag_list_call, tag_list_call};
use crate::session::{
    bus_address,
    make_bus_address,
    make_runtime_dir,
    make_uid_call,
    push_str,
    runtime_dir,
    uid_call,
};
use crate::text::{concat2, concat3, concat4, trim, trim_str};

verus! {

/// `id <name>`, captured: succeeds when the user exists.
pub open spec fn user_check_call(name: Seq<char>) -> CallV {
    plain_call("id"@, seq![name], true, Some("Failed to execute id command"@))
}

/// `sudo useradd -m <name>`, captured.
pub open spec fn useradd_call(name: Seq<char>) -> CallV {
    plain_call(
        "sudo"@,
        seq!["useradd"@, "-m"@, name],
        true,
        Some("Failed to execute useradd command"@),
    )
}

/// `sudo loginctl enable-linger <name>`: the user's services outlive its sessions.
pub open spec fn linger_call(name: Seq<char>) -> CallV {
    plain_call(
        "sudo"@,
        seq!["loginctl"@, "enable-linger"@, name],
        false,
        Some("Failed to enable linger for the user"@),
    )
}

/// The shell line that `add` runs to check `systemctl --user daemon-reload` for
/// the new user, with the user's session bus and runtime directory exported.
pub open spec fn reload_shell(uid: Seq<char>) -> Seq<char> {
    "export DBUS_SESSION_BUS_ADDRESS="@ + bus_address(uid) + " && export XDG_RUNTIME_DIR="@
        + runtime_dir(uid) + " && systemctl --user daemon-reload"@
}

/// `su -l <name> -c <reload shell line>`.
pub open spec fn reload_call(name: Seq<char>, uid: Seq<char>) -> CallV {
    plain_call(
        "su"@,
        seq!["-l"@, name, "-c"@, reload_shell(uid)],
        false,
        Some("Failed to set DBUS_SESSION_BUS_ADDRESS or reload systemctl"@),
    )
}

/// `git clone [-b <branch>] <url> /home/<name>/repo`.
pub open spec fn clone_call(name: Seq<char>, url: Seq<char>, branch: Option<Seq<char>>) -> CallV {
    plain_call(
        "git"@,
        match branch {
            Some(b) => seq!["clone"@, "-b"@, b, url, repo_dir(name)],
            None => seq!["clone"@, url, repo_dir(name)],
        },
        false,
        Some("Failed to execute git clone"@),
    )
}

/// The question asked before an existing user is wiped.
pub open spec fn wipe_question() -> Seq<char> {
    question_text("Do you want to continue?"@)
}

/// Where an `add` stands.
#[derive(Debug, Clone, Copy, PartialEq, Eq, Structural)]
pub enum AddStep {
    Start,
    Announced,
    /// Waiting to learn whether the user exists.
    AwaitUserCheck,
    /// The user exists, which was reported.
    Warned,
    /// Waiting for the answer to the question whether to go on.
    AwaitConfirm,
    /// Deleting the existing service.
    InDelete,
    /// Waiting for `useradd` to have run.
    AwaitUseradd,
    /// The user was created, which was reported.
    UserCreated,
    /// Waiting for `loginctl enable-linger` to have run.
    AwaitLinger,
    /// Waiting for the user's id.
    AwaitUid,
    /// Waiting for `systemctl --user daemon-reload` to have run.
    AwaitReload,
    /// Waiting for `git clone` to have run.
    AwaitClone,
    /// The clone was reported.
    Cloned,
    /// Waiting for the list of the repository's tags.
    AwaitTags,
    /// Waiting for the latest release to have been checked out.
    AwaitCheckout,
    /// The checkout was reported.
    ReleaseReported,
    /// Waiting for the time.
    AwaitClock,
    /// Waiting for the record to have been written.
    AwaitConfig,
    /// That was reported.
    ConfigReported,
    /// Waiting to learn whether `build.sh` exists.
    AwaitBuildScript,
    Closing,
    Done,
}

/// The view of an `AddFlow`.
pub struct AddV {
    pub name: Seq<char>,
    pub repo_url: Seq<char>,
    pub branch: Option<Seq<char>>,
    pub uid: Seq<char>,
    pub tag: Seq<char>,
    pub step: AddStep,
    pub delete: DeleteV,
}

/// An `add` of the service `name` from `repo_url` that has not started.
pub open spec fn add_begin(name: Seq<char>, repo_url: Seq<char>, branch: Option<Seq<char>>) -> AddV {
    AddV {
        name,
        repo_url,
        branch,
        uid: Seq::empty(),
        tag: Seq::empty(),
        step: AddStep::Start,
        delete: delete_begin(name),
    }
}

/// `v` at step `step`.
pub open spec fn add_at(v: AddV, step: AddStep) -> AddV {
    AddV { step, ..v }
}

/// The next state and request of an `add` in state `v` given outcome `o`.
pub open spec fn add_next(v: AddV, o: OutcomeV) -> (AddV, EffectV) {
    let n = v.name;
    let done = (add_at(v, AddStep::Done), EffectV::Finish);
    match v.step {
        AddStep::Start => (
            add_at(v, AddStep::Announced),
            EffectV::Say("Adding service: "@ + n + " from: "@ + v.repo_url),
        ),
        AddStep::Announced => (
            add_at(v, AddStep::AwaitUserCheck),
            EffectV::Run(user_check_call(n)),
        ),
        AddStep::AwaitUserCheck => match o {
            OutcomeV::Ran { success: true, .. } => (
                add_at(v, AddStep::Warned),
                EffectV::Say(
                    "User "@ + n
                        + " already exists. Adding the service again will wipe and overwrite the existing service's data entirely."@,
                ),
            ),
            OutcomeV::Ran { success: false, .. } => (
                add_at(v, AddStep::AwaitUseradd),
                EffectV::Run(useradd_call(n)),
            ),
            _ => done,
        },
        AddStep::Warned => (
            add_at(v, AddStep::AwaitConfirm),
            EffectV::Ask { prompt: wipe_question(), expect: "Failed to read line"@ },
        ),
        AddStep::AwaitConfirm => match o {
            OutcomeV::Answer(a) => if affirmative(trim(a)) {
                let (d, e) = delete_next(delete_begin(n), OutcomeV::Begin);
                (AddV { step: AddStep::InDelete, delete: d, ..v }, e)
            } else {
                (add_at(v, AddStep::Closing), EffectV::Say("Operation aborted."@))
            },
            _ => done,
        },
        AddStep::InDelete => {
            let (d, e) = delete_next(v.delete, o);
            if e is Finish {
                (AddV { step: AddStep::AwaitUseradd, delete: d, ..v }, EffectV::Run(useradd_call(n)))
            } else {
                (AddV { delete: d, ..v }, e)
            }
        },
        AddStep::AwaitUseradd => match o {
            OutcomeV::Ran { success: true, .. } => (
                add_at(v, AddStep::UserCreated),
                EffectV::Say("User "@ + n + " created successfully."@),
            ),
            OutcomeV::Ran { success: false, stderr, .. } => (
                add_at(v, AddStep::Closing),
                EffectV::Warn("Failed to create user: "@ + stderr),
            ),
            _ => done,
        },
        AddStep::UserCreated => (add_at(v, AddStep::AwaitLinger), EffectV::Run(linger_call(n))),
        AddStep::AwaitLinger => (
            add_at(v, AddStep::AwaitUid),
            EffectV::Run(uid_call(n, "Failed to get user ID"@)),
        ),
        AddStep::AwaitUid => match o {
            OutcomeV::Ran { stdout, .. } => {
                let uid = trim(stdout);
                (AddV { uid, step: AddStep::AwaitReload, ..v }, EffectV::Run(reload_call(n, uid)))
            },
            _ => done,
        },
        AddStep::AwaitReload => match o {
            OutcomeV::Ran { success: false, status, .. } => (
                add_at(v, AddStep::Closing),
                EffectV::Warn("Failed to set up systemctl for user "@ + n + ": "@ + status),
            ),
            OutcomeV::Ran { success: true, .. } => (
                add_at(v, AddStep::AwaitClone),
                EffectV::Run(clone_call(n, v.repo_url, v.branch)),
            ),
            _ => done,
        },
        AddStep::AwaitClone => match o {
            OutcomeV::Ran { success: true, .. } => (
                add_at(v, AddStep::Cloned),
                EffectV::Say("Repository cloned successfully into "@ + repo_dir(n)),
            ),
            OutcomeV::Ran { success: false, .. } => (
                add_at(v, AddStep::Closing),
                EffectV::Warn("Failed to clone repository."@),
            ),
            _ => done,
        },
        AddStep::Cloned => match v.branch {
            Some(_) => (add_at(v, AddStep::AwaitClock), EffectV::Clock),
            None => (add_at(v, AddStep::AwaitTags), EffectV::Run(tag_list_call(n))),
        },
        AddStep::AwaitTags => match o {
            OutcomeV::Ran { success, stdout, .. } => match latest_tag(stdout) {
                Some(t) => if success {
                    (AddV { tag: t, step: AddStep::AwaitCheckout, ..v }, EffectV::Run(checkout_call(n, t)))
                } else {
                    (add_at(v, AddStep::AwaitClock), EffectV::Clock)
                },
                None => (add_at(v, AddStep::AwaitClock), EffectV::Clock),
            },
            _ => done,
        },
        AddStep::AwaitCheckout => match o {
            OutcomeV::Ran { success: true, .. } => (
                add_at(v, AddStep::ReleaseReported),
                EffectV::Say("Checked out latest release: "@ + v.tag),
            ),
            OutcomeV::Ran { success: false, .. } => (
                add_at(v, AddStep::ReleaseReported),
                EffectV::Warn(
                    "Failed to check out release "@ + v.tag + "; keeping the default branch."@,
                ),
            ),
            _ => done,
        },
        AddStep::ReleaseReported => (add_at(v, AddStep::AwaitClock), EffectV::Clock),
        AddStep::AwaitClock => match o {
            OutcomeV::Time(t) => (
                add_at(v, AddStep::AwaitConfig),
                EffectV::WriteFile {
                    path: config_file(n),
                    content: config_text(n, v.repo_url, t as nat),
                    expect_create: "Failed to create config file"@,
                    expect_write: "Failed to write to config file"@,
                },
            ),
            _ => done,
        },
        AddStep::AwaitConfig => (
            add_at(v, AddStep::ConfigReported),
            EffectV::Say("Service configuration file created at: "@ + config_file(n)),
        ),
        AddStep::ConfigReported => (
            add_at(v, AddStep::AwaitBuildScript),
            EffectV::Exists(build_script(n)),
        ),
        AddStep::AwaitBuildScript => match o {
            OutcomeV::Found(false) => (
                add_at(v, AddStep::Closing),
                EffectV::Warn("Service has an invalid repo structure: missing build.sh"@),
            ),
            OutcomeV::Found(true) => (
                add_at(v, AddStep::Closing),
                EffectV::Say("Service created successfully: "@ + n),
            ),
            _ => done,
        },
        AddStep::Closing => done,
        AddStep::Done => done,
    }
}

/// `add` of a service from a repository: names the service (see `naming`),
/// and where its user exists already asks whether to wipe it and, on yes,
/// deletes it; then creates the user, lets its services linger, checks that
/// `systemctl --user` works for it, clones the repository into
/// `/home/<name>/repo` on `branch` where one is given, else at its latest
/// release (its newest tag, where it has one; otherwise its default branch
/// stays checked out), writes the service's record and checks that the
/// repository has a `build.sh`.
pub struct AddFlow {
    layout: ServiceLayout,
    repo_url: String,
    branch: Option<String>,
    uid: String,
    tag: String,
    step: AddStep,
    delete: DeleteFlow,
}

impl View for AddFlow {
    type V = AddV;

    closed spec fn view(&self) -> AddV {
        AddV {
            name: self.layout.name@,
            repo_url: self.repo_url@,
            branch: opt_view(self.branch),
            uid: self.uid@,
            tag: self.tag@,
            step: self.step,
            delete: self.delete@,
        }
    }
}

impl AddFlow {
    #[verifier::type_invariant]
    closed spec fn layout_ok(self) -> bool {
        self.layout.matches(self.layout.name@)
    }

    /// An `add` from `repo_url` that has not started; the service is named
    /// `name` where one is given, else after the repository (cleaned either way).
    pub fn new(repo_url: &str, name: Option<String>, branch: Option<String>) -> (res: AddFlow)
        ensures
            res@ == add_begin(
                derived_service_name(repo_url@, opt_view(name)),
                repo_url@,
                opt_view(branch),
            ),
    {
        let service_name = service_name_for(repo_url, &name);
        AddFlow {
            layout: ServiceLayout::new(service_name.as_str()),
            repo_url: String::from_str(repo_url),
            branch,
            uid: String::new(),
            tag: String::new(),
            step: AddStep::Start,
            delete: DeleteFlow::new(service_name.as_str()),
        }
    }

    /// The name the service gets.
    pub fn service_name(&self) -> (res: String)
        ensures
            res@ == self@.name,
    {
        self.layout.name.clone()
    }

    /// Ends the `add`.
    fn finish(&mut self) -> (res: Effect)
        ensures
            final(self)@ == add_at(old(self)@, AddStep::Done),
            res@ == EffectV::Finish,
    {
        proof {
            use_type_invariant(&*self);
        }
        self.step = AddStep::Done;
        Effect::Finish
    }

    /// The call `id <name>`.
    fn make_user_check_call(&self) -> (res: ProcessCall)
        ensures
            res@ == user_check_call(self@.name),
    {
        let mut args: Vec<String> = Vec::new();
        push_str(&mut args, self.layout.name.as_str());
        assert(views(args@) =~= seq![self@.name]);
        call("id", args, true, Some("Failed to execute id command"))
    }

    /// The call `sudo useradd -m <name>`.
    fn make_useradd_call(&self) -> (res: ProcessCall)
        ensures
            res@ == useradd_call(self@.name),
    {
        let mut args: Vec<String> = Vec::new();
        push_str(&mut args, "useradd");
        push_str(&mut args, "-m");
        push_str(&mut args, self.layout.name.as_str());
        assert(views(args@) =~= seq!["useradd"@, "-m"@, self@.name]);
        call("sudo", args, true, Some("Failed to execute useradd command"))
    }

    /// The call `sudo loginctl enable-linger <name>`.
    fn make_linger_call(&self) -> (res: ProcessCall)
        ensures
            res@ == linger_call(self@.name),
    {
        let mut args: Vec<String> = Vec::new();
        push_str(&mut args, "loginctl");
        push_str(&mut args, "enable-linger");
        push_str(&mut args, self.layout.name.as_str());
        assert(views(args@) =~= seq!["loginctl"@, "enable-linger"@, self@.name]);
        call("sudo", args, false, Some("Failed to enable linger for the user"))
    }

    /// The call that reloads the user's systemd with its session exported.
    fn make_reload_call(&self) -> (res: ProcessCall)
        ensures
            res@ == reload_call(self@.name, self@.uid),
    {
        let runtime = make_runtime_dir(self.uid.as_str());
        let address = make_bus_address(self.uid.as_str());
        let mut shell = String::from_str("export DBUS_SESSION_BUS_ADDRESS=");
        shell.append(address.as_str());
        shell.append(" && export XDG_RUNTIME_DIR=");
        shell.append(runtime.as_str());
        shell.append(" && systemctl --user daemon-reload");
        let mut args: Vec<String> = Vec::new();
        push_str(&mut args, "-l");
        push_str(&mut args, self.layout.name.as_str());
        push_str(&mut args, "-c");
        push_str(&mut args, shell.as_str());
        assert(views(args@) =~= seq!["-l"@, self@.name, "-c"@, reload_shell(self@.uid)]);
        call("su", args, false, Some("Failed to set DBUS_SESSION_BUS_ADDRESS or reload systemctl"))
    }

    /// The call `git clone [-b <branch>] <url> /home/<name>/repo`.
    fn make_clone_call(&self) -> (res: ProcessCall)
        ensures
            res@ == clone_call(self@.name, self@.repo_url, self@.branch),
    {
        proof {
            use_type_invariant(self);
        }
        let mut args: Vec<String> = Vec::new();
        push_str(&mut args, "clone");
        match &self.branch {
            Some(b) => {
                push_str(&mut args, "-b");
                push_str(&mut args, b.as_str());
                push_str(&mut args, self.repo_url.as_str());
                push_str(&mut args, self.layout.repo_dir.as_str());
                assert(views(args@) =~= seq![
                    "clone"@,
                    "-b"@,
                    b@,
                    self@.repo_url,
                    repo_dir(self@.name),
                ]);
            },
            None => {
                push_str(&mut args, self.repo_url.as_str());
                push_str(&mut args, self.layout.repo_dir.as_str());
                assert(views(args@) =~= seq!["clone"@, self@.repo_url, repo_dir(self@.name)]);
            },
        }
        call("git", args, false, Some("Failed to execute git clone"))
    }

    /// Hands the outcome to the running deletion.
    fn forward_delete(&mut self, outcome: Outcome) -> (res: Effect)
        ensures
            final(self)@ == (AddV { delete: delete_next(old(self)@.delete, outcome@).0, ..old(self)@ }),
            res@ == delete_next(old(self)@.delete, outcome@).1,
            final(self).layout == old(self).layout,
    {
        proof {
            use_type_invariant(&*self);
        }
        let mut d = DeleteFlow::new("");
        std::mem::swap(&mut d, &mut self.delete);
        let e = d.step(outcome);
        self.delete = d;
        e
    }

    /// Where it stands.
    pub fn current_step(&self) -> (res: AddStep)
        ensures
            res == self@.step,
    {
        self.step
    }

    /// Moves on from the outcome of the last request to the next request.
    pub fn step(&mut self, outcome: Outcome) -> (res: Effect)
        ensures
            (final(self)@, res@) == add_next(old(self)@, outcome@),
    {
        proof {
            use_type_invariant(&*self);
        }
        match self.step {
            AddStep::Start => {
                self.step = AddStep::Announced;
                Effect::Say(
                    concat4(
                        "Adding service: ",
                        self.layout.name.as_str(),
                        " from: ",
                        self.repo_url.as_str(),
                    ),
                )
            },
            AddStep::Announced => {
                let c = self.make_user_check_call();
                self.step = AddStep::AwaitUserCheck;
                Effect::Run(c)
            },
            AddStep::AwaitUserCheck => match outcome {
                Outcome::Ran { success, .. } => {
                    if success {
                        self.step = AddStep::Warned;
                        Effect::Say(
                            concat3(
                                "User ",
                                self.layout.name.as_str(),
                                " already exists. Adding the service again will wipe and overwrite the existing service's data entirely.",
                            ),
                        )
                    } else {
                        let c = self.make_useradd_call();
                        self.step = AddStep::AwaitUseradd;
                        Effect::Run(c)
                    }
                },
                _ => self.finish(),
            },
            AddStep::Warned => {
                self.step = AddStep::AwaitConfirm;
                Effect::Ask {
                    prompt: crate::console::question("Do you want to continue?"),
                    expect: String::from_str("Failed to read line"),
                }
            },
            AddStep::AwaitConfirm => match outcome {
                Outcome::Answer(a) => {
                    if crate::console::is_yes(a.as_str()) {
                        self.delete = DeleteFlow::new(self.layout.name.as_str());
                        self.step = AddStep::InDelete;
                        self.forward_delete(Outcome::Begin)
                    } else {
                        self.step = AddStep::Closing;
                        Effect::Say(String::from_str("Operation aborted."))
                    }
                },
                _ => self.finish(),
            },
            AddStep::InDelete => {
                let e = self.forward_delete(outcome);
                if e.is_finish() {
                    let c = self.make_useradd_call();
                    self.step = AddStep::AwaitUseradd;
                    Effect::Run(c)
                } else {
                    e
                }
            },
            AddStep::AwaitUseradd => match outcome {
                Outcome::Ran { success, stderr, .. } => {
                    if success {
                        self.step = AddStep::UserCreated;
                        Effect::Say(
                            concat3("User ", self.layout.name.as_str(), " created successfully."),
                        )
                    } else {
                        self.step = AddStep::Closing;
                        Effect::Warn(concat2("Failed to create user: ", stderr.as_str()))
                    }
                },
                _ => self.finish(),
            },
            AddStep::UserCreated => {
                let c = self.make_linger_call();
                self.step = AddStep::AwaitLinger;
                Effect::Run(c)
            },
            AddStep::AwaitLinger => {
                self.step = AddStep::AwaitUid;
                Effect::Run(make_uid_call(self.layout.name.as_str(), "Failed to get user ID"))
            },
            AddStep::AwaitUid => match outcome {
                Outcome::Ran { stdout, .. } => {
                    self.uid = trim_str(stdout.as_str());
                    self.step = AddStep::AwaitReload;
                    Effect::Run(self.make_reload_call())
                },
                _ => self.finish(),
            },
            AddStep::AwaitReload => match outcome {
                Outcome::Ran { success, status, .. } => {
                    if success {
                        let c = self.make_clone_call();
                        self.step = AddStep::AwaitClone;
                        Effect::Run(c)
                    } else {
                        self.step = AddStep::Closing;
                        Effect::Warn(
                            concat4(
                                "Failed to set up systemctl for user ",
                                self.layout.name.as_str(),
                                ": ",
                                status.as_str(),
                            ),
                        )
                    }
                },
                _ => self.finish(),
            },
            AddStep::AwaitClone => match outcome {
                Outcome::Ran { success, .. } => {
                    if success {
                        self.step = AddStep::Cloned;
                        Effect::Say(
                            concat2(
                                "Repository cloned successfully into ",
                                self.layout.repo_dir.as_str(),
                            ),
                        )
                    } else {
                        self.step = AddStep::Closing;
                        Effect::Warn(String::from_str("Failed to clone repository."))
                    }
                },
                _ => self.finish(),
            },
            AddStep::Cloned => {
                if self.branch.is_some() {
                    self.step = AddStep::AwaitClock;
                    Effect::Clock
                } else {
                    self.step = AddStep::AwaitTags;
                    Effect::Run(make_tag_list_call(self.layout.name.as_str()))
                }
            },
            AddStep::AwaitTags => match outcome {
                Outcome::Ran { success, stdout, .. } => match latest_release_tag(stdout.as_str()) {
                    Some(t) => {
                        if success {
                            let c = make_checkout_call(self.layout.name.as_str(), t.as_str());
                            self.tag = t;
                            self.step = AddStep::AwaitCheckout;
                            Effect::Run(c)
                        } else {
                            self.step = AddStep::AwaitClock;
                            Effect::Clock
                        }
                    },
                    None => {
                        self.step = AddStep::AwaitClock;
                        Effect::Clock
                    },
                },
                _ => self.finish(),
            },
            AddStep::AwaitCheckout => match outcome {
                Outcome::Ran { success, .. } => {
                    self.step = AddStep::ReleaseReported;
                    if success {
                        Effect::Say(concat2("Checked out latest release: ", self.tag.as_str()))
                    } else {
                        Effect::Warn(
                            concat3(
                                "Failed to check out release ",
                                self.tag.as_str(),
                                "; keeping the default branch.",
                            ),
                        )
                    }
                },
                _ => self.finish(),
            },
            AddStep::ReleaseReported => {
                self.step = AddStep::AwaitClock;
                Effect::Clock
            },
            AddStep::AwaitClock => match outcome {
                Outcome::Time(t) => {
                    self.step = AddStep::AwaitConfig;
                    Effect::WriteFile {
                        path: self.layout.config_file.clone(),
                        content: service_config(
                            self.layout.name.as_str(),
                            self.repo_url.as_str(),
                            t,
                        ),
                        expect_create: String::from_str("Failed to create config file"),
                        expect_write: String::from_str("Failed to write to config file"),
                    }
                },
                _ => self.finish(),
            },
            AddStep::AwaitConfig => {
                self.step = AddStep::ConfigReported;
                Effect::Say(
                    concat2(
                        "Service configuration file created at: ",
                        self.layout.config_file.as_str(),
                    ),
                )
            },
            AddStep::ConfigReported => {
                self.step = AddStep::AwaitBuildScript;
                Effect::Exists(self.layout.build_script.clone())
            },
            AddStep::AwaitBuildScript => match outcome {
                Outcome::Found(false) => {
                    self.step = AddStep::Closing;
                    Effect::Warn(
                        String::from_str("Service has an invalid repo structure: missing build.sh"),
                    )
                },
                Outcome::Found(true) => {
                    self.step = AddStep::Closing;
                    Effect::Say(
                        concat2("Service created successfully: ", self.layout.name.as_str()),
                    )
                },
                _ => self.finish(),
            },
            AddStep::Closing => self.finish(),
            AddStep::Done => self.finish(),
        }
    }
}

/// An existing user's data is wiped only with the user's consent: an `add`
/// starts deleting the existing service only from `AwaitConfirm`, on an answer
/// that means yes.
pub proof fn lemma_add_wipes_only_after_yes(v: AddV, o: OutcomeV)
    requires
        v.step != AddStep::InDelete,
        add_next(v, o).0.step == AddStep::InDelete,
    ensures
        v.step == AddStep::AwaitConfirm,
        o is Answer,
        affirmative(trim(o->Answer_0)),
{
}

/// An answer that does not mean yes aborts the `add`: "Operation aborted." is
/// printed and the command ends, with no user created or deleted.
pub proof fn lemma_add_decline_aborts(v: AddV, a: Seq<char>)
    requires
        v.step == AddStep::AwaitConfirm,
        !affirmative(trim(a)),
    ensures
        add_next(v, OutcomeV::Answer(a)) == (
            add_at(v, AddStep::Closing),
            EffectV::Say("Operation aborted."@),
        ),
        add_next(add_at(v, AddStep::Closing), OutcomeV::Completed).1 is Finish,
{
}

/// The user is created only where it did not exist, or once the existing one
/// has been deleted: `useradd` is asked for only from `AwaitUserCheck` on a
/// failed `id`, or from `InDelete` when the deletion is over.
pub proof fn lemma_add_creates_user_when_free(v: AddV, o: OutcomeV)
    requires
        v.step != AddStep::AwaitUseradd,
        add_next(v, o).0.step == AddStep::AwaitUseradd,
    ensures
        (v.step == AddStep::AwaitUserCheck && o is Ran && !o->success) || (v.step
            == AddStep::InDelete && delete_next(v.delete, o).1 is Finish),
        add_next(v, o).1 == EffectV::Run(useradd_call(v.name)),
{
}

/// The release steps are taken only by an `add` without a branch.
pub open spec fn add_reachable(v: AddV) -> bool {
    (v.step == AddStep::AwaitTags || v.step == AddStep::AwaitCheckout || v.step
        == AddStep::ReleaseReported) ==> v.branch is None
}

/// Every step keeps `add_reachable`, which holds of an `add` that has not started.
pub proof fn lemma_add_reachable_kept(v: AddV, o: OutcomeV)
    requires
        add_reachable(v),
    ensures
        add_reachable(add_next(v, o).0),
        add_next(v, o).0.branch == v.branch,
        add_next(v, o).0.name == v.name,
{
}

/// Without a branch, the repository is put at its latest release before the
/// service is recorded: the record's clock is read only after the listing of
/// the tags (none found) or after the checkout of the newest tag; with a
/// branch, right after the clone.
pub proof fn lemma_add_release_before_record(v: AddV, o: OutcomeV)
    requires
        add_reachable(v),
        v.step != AddStep::AwaitClock,
        add_next(v, o).0.step == AddStep::AwaitClock,
    ensures
        v.branch is Some ==> v.step == AddStep::Cloned,
        v.branch is None ==> v.step == AddStep::AwaitTags || v.step == AddStep::ReleaseReported,
{
}

/// The tag checked out is the newest one that a successful listing gave.
pub proof fn lemma_add_checks_out_latest(v: AddV, o: OutcomeV)
    requires
        add_reachable(v),
        v.step != AddStep::AwaitCheckout,
        add_next(v, o).0.step == AddStep::AwaitCheckout,
    ensures
        v.step == AddStep::AwaitTags,
        v.branch is None,
        o is Ran && o->success,
        latest_tag(o->stdout) == Some(add_next(v, o).0.tag),
        add_next(v, o).1 == EffectV::Run(checkout_call(v.name, add_next(v, o).0.tag)),
{
}

/// A confirmed wipe deletes the old service and then adds it again: once the
/// deletion has run to its end, the `add` asks for `sudo useradd -m <name>` for
/// the same name, never finishing there.
pub proof fn lemma_add_recreates_after_wipe(v: AddV, o: OutcomeV)
    requires
        v.step == AddStep::InDelete,
        delete_next(v.delete, o).1 is Finish,
    ensures
        add_next(v, o).1 == EffectV::Run(
            CallV {
                program: "sudo"@,
                args: seq!["useradd"@, "-m"@, v.name],
                current_dir: None,
                env: None,
                capture: true,
                expect: Some("Failed to execute useradd command"@),
            },
        ),
        add_next(v, o).0.step == AddStep::AwaitUseradd,
        add_next(v, o).0.name == v.name,
        add_next(v, o).0.repo_url == v.repo_url,
        add_next(v, o).0.branch == v.branch,
{
}

} // verus!
