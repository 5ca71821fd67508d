//! `start`: write the service's `.env` from its template (asking for the
//! values the template leaves empty), write its systemd unit and link it into
//! `default.target.wants`, then reload, enable and start it.
use vstd::prelude::*;

use crate::control::systemctl_start;
use crate::effects::{Effect, EffectV, Outcome, OutcomeV};
use crate::env::{
    TemplateEntry,
    entry_views,
    env_from,
    parse_template_line,
    populate_env,
    prompt_count,
    lemma_resolve_ignores_later_answers,
    lemma_template_line_empty_value,
    lemma_template_line_given_value,
    render_env,
    resolve,
    template_entries,
    template_line,
    views,
};
use crate::files::{service_unit, unit_text};
use crate::layout::{
    ServiceLayout,
    env_file,
    env_template,
    run_script,
    unit_dir,
    unit_file,
    wants_dir,
    wants_link,
};
use crate::session::{SystemctlFlow, SystemctlV, systemctl_next};
use crate::text::{concat2, concat3, concat4, trim};

verus! {

/// The line that asks for the value of `key`.
pub open spec fn value_prompt(key: Seq<char>) -> Seq<char> {
    "Enter value for "@ + key + ": "@
}

/// Where a `start` stands.
#[derive(Debug, Clone, Copy, PartialEq, Eq, Structural)]
pub enum StartStep {
    Start,
    Announced,
    /// The template's path was printed.
    TemplateShown,
    /// Waiting to learn whether the template exists.
    AwaitTemplate,
    /// Waiting for the template to be opened.
    Opening,
    /// Waiting for the template's next line.
    Reading,
    /// Waiting for the value of the last entry read.
    Asking,
    /// Waiting for `.env` to have been written.
    AwaitEnvWritten,
    /// `.env` was written, or the template was found missing; either was
    /// reported.
    EnvDone,
    /// Waiting to learn whether `run.sh` exists.
    AwaitRunScript,
    /// Waiting for the unit directory to exist.
    AwaitUnitDir,
    /// Waiting for the unit file to have been written.
    AwaitUnitWritten,
    /// That was reported.
    UnitReported,
    /// Waiting for `default.target.wants` to exist.
    AwaitWantsDir,
    /// Waiting to learn whether the link exists already.
    AwaitLinkCheck,
    /// Waiting for the old link to be removed.
    AwaitLinkRemoved,
    /// Waiting for the link to be made.
    AwaitLinked,
    /// Running `systemctl --user daemon-reload`.
    InReload,
    /// Running `systemctl --user enable`.
    InEnable,
    /// Running `systemctl --user start`.
    InStartUnit,
    Closing,
    Done,
}

/// The view of a `StartFlow`.
pub struct StartV {
    pub name: Seq<char>,
    pub skip_env_creation: bool,
    pub step: StartStep,
    /// The template's lines read so far.
    pub read: Seq<Seq<char>>,
    /// The declarations among them.
    pub entries: Seq<(Seq<char>, Seq<char>)>,
    /// The values typed in, one for each declaration with an empty value.
    pub answers: Seq<Seq<char>>,
    pub sys: SystemctlV,
}

/// A `start` of `name` that has not begun.
pub open spec fn start_begin(name: Seq<char>, skip_env_creation: bool) -> StartV {
    StartV {
        name,
        skip_env_creation,
        step: StartStep::Start,
        read: Seq::empty(),
        entries: Seq::empty(),
        answers: Seq::empty(),
        sys: systemctl_start(name, "daemon-reload"@),
    }
}

/// `v` at step `step`.
pub open spec fn start_at(v: StartV, step: StartStep) -> StartV {
    StartV { step, ..v }
}

/// The answers given fit the declarations read: one for each empty value,
/// but for the last declaration while its value is being asked for (until
/// `.env` is written).
pub open spec fn answers_match(
    step: StartStep,
    entries: Seq<(Seq<char>, Seq<char>)>,
    answers: nat,
) -> bool {
    if step is Asking {
        &&& entries.len() > 0
        &&& entries.last().1.len() == 0
        &&& answers + 1 == prompt_count(entries)
    } else if step is Start || step is Announced || step is TemplateShown || step is AwaitTemplate
        || step is Opening || step is Reading {
        answers == prompt_count(entries)
    } else {
        true
    }
}

/// The request that reads the template's next line.
pub open spec fn next_line() -> EffectV {
    EffectV::NextLine { expect: "Failed to read line"@ }
}

/// Takes in a line of the template: a declaration is kept, and where its value
/// is empty it is asked for; then the next line is read.
pub open spec fn take_line(v: StartV, line: Seq<char>) -> (StartV, EffectV) {
    let read = v.read.push(line);
    match template_line(line) {
        Some(e) => {
            let w = StartV { read, entries: v.entries.push(e), ..v };
            if e.1.len() == 0 {
                (
                    start_at(w, StartStep::Asking),
                    EffectV::Ask { prompt: value_prompt(e.0), expect: "Failed to read user input"@ },
                )
            } else {
                (start_at(w, StartStep::Reading), next_line())
            }
        },
        None => (StartV { read, step: StartStep::Reading, ..v }, next_line()),
    }
}

/// The request that writes `.env` from the declarations and answers of `v`.
pub open spec fn write_env(v: StartV) -> EffectV {
    EffectV::WriteFile {
        path: env_file(v.name),
        content: render_env(env_from(resolve(v.entries, v.answers))),
        expect_create: "Failed to create .env file"@,
        expect_write: "Failed to write to .env file"@,
    }
}

/// The request that writes the unit file of `name`.
pub open spec fn unit_write(name: Seq<char>) -> EffectV {
    EffectV::WriteFile {
        path: unit_file(name),
        content: unit_text(name, env_file(name), run_script(name)),
        expect_create: "Failed to create service file"@,
        expect_write: "Failed to write to service file"@,
    }
}

/// The link in `default.target.wants` to the unit file.
pub open spec fn link_effect(name: Seq<char>) -> EffectV {
    EffectV::Symlink {
        target: unit_file(name),
        link: wants_link(name),
        expect: "Failed to create symbolic link"@,
    }
}

/// Starts running `systemctl --user <command>` from state `v`, moving to `step`.
pub open spec fn start_systemctl(v: StartV, command: Seq<char>, step: StartStep) -> (
    StartV,
    EffectV,
) {
    let (s, e) = systemctl_next(systemctl_start(v.name, command), OutcomeV::Begin);
    (StartV { step, sys: s, ..v }, e)
}

/// The next state and request of a `start` in state `v` given outcome `o`.
pub open spec fn start_next(v: StartV, o: OutcomeV) -> (StartV, EffectV) {
    let n = v.name;
    let done = (start_at(v, StartStep::Done), EffectV::Finish);
    match v.step {
        StartStep::Start => (
            start_at(v, StartStep::Announced),
            EffectV::Say("Starting service: "@ + n),
        ),
        StartStep::Announced => if v.skip_env_creation {
            (start_at(v, StartStep::AwaitRunScript), EffectV::Exists(run_script(n)))
        } else {
            (start_at(v, StartStep::TemplateShown), EffectV::Warn(env_template(n)))
        },
        StartStep::TemplateShown => (
            start_at(v, StartStep::AwaitTemplate),
            EffectV::Exists(env_template(n)),
        ),
        StartStep::AwaitTemplate => match o {
            OutcomeV::Found(false) => (
                start_at(v, StartStep::EnvDone),
                EffectV::Warn("Error: .metal-deploy.env does not exist for service: "@ + n),
            ),
            OutcomeV::Found(true) => (
                start_at(v, StartStep::Opening),
                EffectV::OpenLines {
                    path: env_template(n),
                    expect: "Failed to open .metal-deploy.env"@,
                },
            ),
            _ => done,
        },
        StartStep::Opening => (start_at(v, StartStep::Reading), next_line()),
        StartStep::Reading => match o {
            OutcomeV::Line(Some(line)) => take_line(v, line),
            OutcomeV::Line(None) => (start_at(v, StartStep::AwaitEnvWritten), write_env(v)),
            _ => done,
        },
        StartStep::Asking => match o {
            OutcomeV::Answer(a) => (
                StartV { answers: v.answers.push(a), step: StartStep::Reading, ..v },
                next_line(),
            ),
            _ => done,
        },
        StartStep::AwaitEnvWritten => (
            start_at(v, StartStep::EnvDone),
            EffectV::Say(".env file created at: "@ + env_file(n)),
        ),
        StartStep::EnvDone => (
            start_at(v, StartStep::AwaitRunScript),
            EffectV::Exists(run_script(n)),
        ),
        StartStep::AwaitRunScript => match o {
            OutcomeV::Found(false) => (
                start_at(v, StartStep::Closing),
                EffectV::Warn("Error: run.sh does not exist for service: "@ + n),
            ),
            OutcomeV::Found(true) => (
                start_at(v, StartStep::AwaitUnitDir),
                EffectV::CreateDirAll {
                    path: unit_dir(n),
                    or_panic: Some("Failed to create service directory"@),
                },
            ),
            _ => done,
        },
        StartStep::AwaitUnitDir => (start_at(v, StartStep::AwaitUnitWritten), unit_write(n)),
        StartStep::AwaitUnitWritten => (
            start_at(v, StartStep::UnitReported),
            EffectV::Say("Service file created at: "@ + unit_file(n)),
        ),
        StartStep::UnitReported => (
            start_at(v, StartStep::AwaitWantsDir),
            EffectV::CreateDirAll {
                path: wants_dir(n),
                or_panic: Some("Failed to create default.target.wants directory"@),
            },
        ),
        StartStep::AwaitWantsDir => (
            start_at(v, StartStep::AwaitLinkCheck),
            EffectV::Exists(wants_link(n)),
        ),
        StartStep::AwaitLinkCheck => match o {
            OutcomeV::Found(true) => (
                start_at(v, StartStep::AwaitLinkRemoved),
                EffectV::RemoveFile {
                    path: wants_link(n),
                    expect: "Failed to remove existing symbolic link"@,
                },
            ),
            OutcomeV::Found(false) => (start_at(v, StartStep::AwaitLinked), link_effect(n)),
            _ => done,
        },
        StartStep::AwaitLinkRemoved => (start_at(v, StartStep::AwaitLinked), link_effect(n)),
        StartStep::AwaitLinked => start_systemctl(v, "daemon-reload"@, StartStep::InReload),
        StartStep::InReload => {
            let (s, e) = systemctl_next(v.sys, o);
            if e is Finish {
                start_systemctl(v, "enable"@, StartStep::InEnable)
            } else {
                (StartV { sys: s, ..v }, e)
            }
        },
        StartStep::InEnable => {
            let (s, e) = systemctl_next(v.sys, o);
            if e is Finish {
                start_systemctl(v, "start"@, StartStep::InStartUnit)
            } else {
                (StartV { sys: s, ..v }, e)
            }
        },
        StartStep::InStartUnit => {
            let (s, e) = systemctl_next(v.sys, o);
            if e is Finish {
                (
                    StartV { step: StartStep::Closing, sys: s, ..v },
                    EffectV::Say(
                        "Service "@ + n + " has been created and started for user "@ + n,
                    ),
                )
            } else {
                (StartV { sys: s, ..v }, e)
            }
        },
        StartStep::Closing => done,
        StartStep::Done => done,
    }
}

/// `start` of one service: from `/home/<name>/repo/.metal-deploy.env` writes
/// `/home/<name>/.env` (asking on the terminal for each value the template
/// leaves empty), writes the systemd unit that runs `build/run.sh`, links it
/// into `default.target.wants`, and runs `systemctl --user daemon-reload`,
/// `enable` and `start` as the user. Where the template is missing it says so
/// and goes on without writing `.env`; with `skip_env_creation` it leaves
/// `.env` alone. Gives up with a message when `run.sh` is missing.
pub struct StartFlow {
    layout: ServiceLayout,
    skip_env_creation: bool,
    step: StartStep,
    read: Ghost<Seq<Seq<char>>>,
    entries: Vec<TemplateEntry>,
    answers: Vec<String>,
    sys: SystemctlFlow,
}

impl View for StartFlow {
    type V = StartV;

    closed spec fn view(&self) -> StartV {
        StartV {
            name: self.layout.name@,
            skip_env_creation: self.skip_env_creation,
            step: self.step,
            read: self.read@,
            entries: entry_views(self.entries@),
            answers: views(self.answers@),
            sys: self.sys@,
        }
    }
}

impl StartFlow {
    #[verifier::type_invariant]
    closed spec fn well_formed(self) -> bool {
        &&& self.layout.matches(self.layout.name@)
        &&& answers_match(self.step, entry_views(self.entries@), self.answers@.len())
    }

    /// A `start` of `service_name` that has not started; with
    /// `skip_env_creation`, `.env` is left as it is.
    pub fn new(service_name: &str, skip_env_creation: bool) -> (res: StartFlow)
        ensures
            res@ == start_begin(service_name@, skip_env_creation),
    {
        let res = StartFlow {
            layout: ServiceLayout::new(service_name),
            skip_env_creation,
            step: StartStep::Start,
            read: Ghost(Seq::empty()),
            entries: Vec::new(),
            answers: Vec::new(),
            sys: SystemctlFlow::new(service_name, "daemon-reload"),
        };
        assert(entry_views(res.entries@) =~= Seq::<(Seq<char>, Seq<char>)>::empty());
        assert(views(res.answers@) =~= Seq::<Seq<char>>::empty());
        res
    }

    /// Ends the start.
    fn finish(&mut self) -> (res: Effect)
        ensures
            final(self)@ == start_at(old(self)@, StartStep::Done),
            res@ == EffectV::Finish,
    {
        proof {
            use_type_invariant(&*self);
        }
        self.step = StartStep::Done;
        Effect::Finish
    }

    /// Takes in a line of the template (see `take_line`).
    fn take_template_line(&mut self, line: String) -> (res: Effect)
        requires
            old(self)@.step is Reading,
        ensures
            (final(self)@, res@) == take_line(old(self)@, line@),
    {
        proof {
            use_type_invariant(&*self);
        }
        let parsed = parse_template_line(line.as_str());
        let ghost new_read = self.read@.push(line@);
        let mut tmp = StartFlow::new("", true);
        std::mem::swap(&mut tmp, self);
        proof {
            use_type_invariant(&tmp);
        }
        let StartFlow { layout, skip_env_creation, step: _, read: _, mut entries, answers, sys } =
            tmp;
        match parsed {
            Some(e) => {
                let asking = e.value.as_str().is_empty();
                let prompt = concat3("Enter value for ", e.key.as_str(), ": ");
                let ghost old_entries = entry_views(entries@);
                let ghost ev = e@;
                entries.push(e);
                proof {
                    assert(entry_views(entries@) =~= old_entries.push(ev));
                    assert(entry_views(entries@).drop_last() =~= old_entries);
                }
                if asking {
                    *self = StartFlow {
                        layout,
                        skip_env_creation,
                        step: StartStep::Asking,
                        read: Ghost(new_read),
                        entries,
                        answers,
                        sys,
                    };
                    Effect::Ask { prompt, expect: String::from_str("Failed to read user input") }
                } else {
                    *self = StartFlow {
                        layout,
                        skip_env_creation,
                        step: StartStep::Reading,
                        read: Ghost(new_read),
                        entries,
                        answers,
                        sys,
                    };
                    Effect::NextLine { expect: String::from_str("Failed to read line") }
                }
            },
            None => {
                *self = StartFlow {
                    layout,
                    skip_env_creation,
                    step: StartStep::Reading,
                    read: Ghost(new_read),
                    entries,
                    answers,
                    sys,
                };
                Effect::NextLine { expect: String::from_str("Failed to read line") }
            },
        }
    }

    /// Records the answer to the pending question and reads on.
    fn take_answer(&mut self, answer: String) -> (res: Effect)
        requires
            old(self)@.step is Asking,
        ensures
            final(self)@ == (StartV {
                answers: old(self)@.answers.push(answer@),
                step: StartStep::Reading,
                ..old(self)@
            }),
            res@ == next_line(),
    {
        proof {
            use_type_invariant(&*self);
        }
        let mut tmp = StartFlow::new("", true);
        std::mem::swap(&mut tmp, self);
        proof {
            use_type_invariant(&tmp);
        }
        let StartFlow { layout, skip_env_creation, step: _, read, entries, mut answers, sys } = tmp;
        let ghost old_answers = views(answers@);
        answers.push(answer);
        proof {
            assert(views(answers@) =~= old_answers.push(answer@));
        }
        *self = StartFlow {
            layout,
            skip_env_creation,
            step: StartStep::Reading,
            read,
            entries,
            answers,
            sys,
        };
        Effect::NextLine { expect: String::from_str("Failed to read line") }
    }

    /// Writes `.env` from the declarations read and the answers given.
    fn write_env_file(&mut self) -> (res: Effect)
        requires
            old(self)@.step is Reading,
        ensures
            final(self)@ == start_at(old(self)@, StartStep::AwaitEnvWritten),
            res@ == write_env(old(self)@),
    {
        proof {
            use_type_invariant(&*self);
        }
        let env = populate_env(&self.entries, &self.answers);
        let content = env.render();
        self.step = StartStep::AwaitEnvWritten;
        Effect::WriteFile {
            path: self.layout.env_file.clone(),
            content,
            expect_create: String::from_str("Failed to create .env file"),
            expect_write: String::from_str("Failed to write to .env file"),
        }
    }

    /// Starts running `systemctl --user <command>`, moving to `step`.
    fn begin_systemctl(&mut self, command: &str, step: StartStep) -> (res: Effect)
        requires
            step is InReload || step is InEnable || step is InStartUnit,
        ensures
            (final(self)@, res@) == start_systemctl(old(self)@, command@, step),
    {
        proof {
            use_type_invariant(&*self);
        }
        let mut sys = SystemctlFlow::new(self.layout.name.as_str(), command);
        let e = sys.step(Outcome::Begin);
        self.sys = sys;
        self.step = step;
        e
    }

    /// Where it stands.
    pub fn current_step(&self) -> (res: StartStep)
        ensures
            res == self@.step,
    {
        self.step
    }

    /// Moves on from the outcome of the last request to the next request.
    pub fn step(&mut self, outcome: Outcome) -> (res: Effect)
        ensures
            (final(self)@, res@) == start_next(old(self)@, outcome@),
    {
        proof {
            use_type_invariant(&*self);
        }
        match self.step {
            StartStep::Start => {
                self.step = StartStep::Announced;
                Effect::Say(concat2("Starting service: ", self.layout.name.as_str()))
            },
            StartStep::Announced => {
                if self.skip_env_creation {
                    self.step = StartStep::AwaitRunScript;
                    Effect::Exists(self.layout.run_script.clone())
                } else {
                    self.step = StartStep::TemplateShown;
                    Effect::Warn(self.layout.env_template.clone())
                }
            },
            StartStep::TemplateShown => {
                self.step = StartStep::AwaitTemplate;
                Effect::Exists(self.layout.env_template.clone())
            },
            StartStep::AwaitTemplate => match outcome {
                Outcome::Found(false) => {
                    self.step = StartStep::EnvDone;
                    Effect::Warn(
                        concat2(
                            "Error: .metal-deploy.env does not exist for service: ",
                            self.layout.name.as_str(),
                        ),
                    )
                },
                Outcome::Found(true) => {
                    self.step = StartStep::Opening;
                    Effect::OpenLines {
                        path: self.layout.env_template.clone(),
                        expect: String::from_str("Failed to open .metal-deploy.env"),
                    }
                },
                _ => self.finish(),
            },
            StartStep::Opening => {
                self.step = StartStep::Reading;
                Effect::NextLine { expect: String::from_str("Failed to read line") }
            },
            StartStep::Reading => match outcome {
                Outcome::Line(Some(line)) => self.take_template_line(line),
                Outcome::Line(None) => self.write_env_file(),
                _ => self.finish(),
            },
            StartStep::Asking => match outcome {
                Outcome::Answer(a) => self.take_answer(a),
                _ => self.finish(),
            },
            StartStep::AwaitEnvWritten => {
                self.step = StartStep::EnvDone;
                Effect::Say(concat2(".env file created at: ", self.layout.env_file.as_str()))
            },
            StartStep::EnvDone => {
                self.step = StartStep::AwaitRunScript;
                Effect::Exists(self.layout.run_script.clone())
            },
            StartStep::AwaitRunScript => match outcome {
                Outcome::Found(false) => {
                    self.step = StartStep::Closing;
                    Effect::Warn(
                        concat2(
                            "Error: run.sh does not exist for service: ",
                            self.layout.name.as_str(),
                        ),
                    )
                },
                Outcome::Found(true) => {
                    self.step = StartStep::AwaitUnitDir;
                    Effect::CreateDirAll {
                        path: self.layout.unit_dir.clone(),
                        or_panic: Some(String::from_str("Failed to create service directory")),
                    }
                },
                _ => self.finish(),
            },
            StartStep::AwaitUnitDir => {
                self.step = StartStep::AwaitUnitWritten;
                Effect::WriteFile {
                    path: self.layout.unit_file.clone(),
                    content: service_unit(
                        self.layout.name.as_str(),
                        self.layout.env_file.as_str(),
                        self.layout.run_script.as_str(),
                    ),
                    expect_create: String::from_str("Failed to create service file"),
                    expect_write: String::from_str("Failed to write to service file"),
                }
            },
            StartStep::AwaitUnitWritten => {
                self.step = StartStep::UnitReported;
                Effect::Say(concat2("Service file created at: ", self.layout.unit_file.as_str()))
            },
            StartStep::UnitReported => {
                self.step = StartStep::AwaitWantsDir;
                Effect::CreateDirAll {
                    path: self.layout.wants_dir.clone(),
                    or_panic: Some(
                        String::from_str("Failed to create default.target.wants directory"),
                    ),
                }
            },
            StartStep::AwaitWantsDir => {
                self.step = StartStep::AwaitLinkCheck;
                Effect::Exists(self.layout.wants_link.clone())
            },
            StartStep::AwaitLinkCheck => match outcome {
                Outcome::Found(true) => {
                    self.step = StartStep::AwaitLinkRemoved;
                    Effect::RemoveFile {
                        path: self.layout.wants_link.clone(),
                        expect: String::from_str("Failed to remove existing symbolic link"),
                    }
                },
                Outcome::Found(false) => {
                    self.step = StartStep::AwaitLinked;
                    self.make_link()
                },
                _ => self.finish(),
            },
            StartStep::AwaitLinkRemoved => {
                self.step = StartStep::AwaitLinked;
                self.make_link()
            },
            StartStep::AwaitLinked => self.begin_systemctl("daemon-reload", StartStep::InReload),
            StartStep::InReload => {
                let e = self.forward(outcome);
                if e.is_finish() {
                    self.begin_systemctl("enable", StartStep::InEnable)
                } else {
                    e
                }
            },
            StartStep::InEnable => {
                let e = self.forward(outcome);
                if e.is_finish() {
                    self.begin_systemctl("start", StartStep::InStartUnit)
                } else {
                    e
                }
            },
            StartStep::InStartUnit => {
                let e = self.forward(outcome);
                if e.is_finish() {
                    self.step = StartStep::Closing;
                    Effect::Say(
                        concat4(
                            "Service ",
                            self.layout.name.as_str(),
                            " has been created and started for user ",
                            self.layout.name.as_str(),
                        ),
                    )
                } else {
                    e
                }
            },
            StartStep::Closing => self.finish(),
            StartStep::Done => self.finish(),
        }
    }

    /// The link in `default.target.wants` to the unit file.
    fn make_link(&self) -> (res: Effect)
        ensures
            res@ == link_effect(self@.name),
    {
        proof {
            use_type_invariant(self);
        }
        Effect::Symlink {
            target: self.layout.unit_file.clone(),
            link: self.layout.wants_link.clone(),
            expect: String::from_str("Failed to create symbolic link"),
        }
    }

    /// Hands the outcome to the running `systemctl`.
    fn forward(&mut self, outcome: Outcome) -> (res: Effect)
        ensures
            final(self)@ == (StartV { sys: systemctl_next(old(self)@.sys, outcome@).0, ..old(self)@ }),
            res@ == systemctl_next(old(self)@.sys, outcome@).1,
            final(self).layout == old(self).layout,
            final(self).step == old(self).step,
    {
        proof {
            use_type_invariant(&*self);
        }
        let mut sys = SystemctlFlow::new("", "");
        std::mem::swap(&mut sys, &mut self.sys);
        let e = sys.step(outcome);
        self.sys = sys;
        e
    }
}

/// The unit is enabled and started only once its file and link are written:
/// `systemctl --user` first runs (for `daemon-reload`) only from `AwaitLinked`,
/// which follows the link's creation.
pub proof fn lemma_start_units_after_files(v: StartV, o: OutcomeV)
    requires
        v.step != StartStep::InReload,
        start_next(v, o).0.step == StartStep::InReload,
    ensures
        v.step == StartStep::AwaitLinked,
        start_next(v, o).0.sys.command == "daemon-reload"@,
{
}

/// The steps that deal with the template and `.env`.
pub open spec fn in_env_part(step: StartStep) -> bool {
    step is TemplateShown || step is AwaitTemplate || step is Opening || step is Reading
        || step is Asking || step is AwaitEnvWritten
}

/// In a state that a `start` reaches, the declarations are those of the lines
/// read, the answers fit them (see `answers_match`), and a `start` that skips
/// `.env` is never in the steps that deal with it.
pub open spec fn start_reachable(v: StartV) -> bool {
    &&& v.entries == template_entries(v.read)
    &&& answers_match(v.step, v.entries, v.answers.len())
    &&& v.skip_env_creation ==> !in_env_part(v.step)
}

/// A `start` that has not begun is in a reachable state.
pub proof fn lemma_start_begin_reachable(name: Seq<char>, skip_env_creation: bool)
    ensures
        start_reachable(start_begin(name, skip_env_creation)),
{
}

/// Every step keeps `start_reachable`.
pub proof fn lemma_start_reachable_kept(v: StartV, o: OutcomeV)
    requires
        start_reachable(v),
    ensures
        start_reachable(start_next(v, o).0),
        start_next(v, o).0.name == v.name,
        start_next(v, o).0.skip_env_creation == v.skip_env_creation,
{
    if v.step is Reading {
        if let OutcomeV::Line(Some(line)) = o {
            let r = v.read.push(line);
            assert(r.drop_last() =~= v.read);
            assert(r.last() == line);
            if let Some(e) = template_line(line) {
                assert(v.entries.push(e).drop_last() =~= v.entries);
            }
        }
    }
}

/// `.env` is written once the template has been read to its end, every value
/// it leaves empty asked for, one answer each: the declarations are those of
/// the lines read, and the content gives the keys their values, the answers
/// (trimmed) standing for the empty ones, a key set twice keeping its last
/// value.
pub proof fn lemma_start_env_content(v: StartV, o: OutcomeV)
    requires
        start_reachable(v),
        start_next(v, o).1 is WriteFile,
        v.step is Reading,
    ensures
        o == OutcomeV::Line(None),
        start_next(v, o).1->WriteFile_path == env_file(v.name),
        start_next(v, o).1->WriteFile_content == render_env(
            env_from(resolve(template_entries(v.read), v.answers)),
        ),
        v.answers.len() == prompt_count(template_entries(v.read)),
{
}

/// A question is asked for each declaration with an empty value, as it is read
/// and before the next line: `Asking` is entered only from `Reading` on a line
/// that declares a key with an empty value, and the question names that key.
pub proof fn lemma_start_asks_for_empty(v: StartV, o: OutcomeV)
    requires
        v.step != StartStep::Asking,
        start_next(v, o).0.step == StartStep::Asking,
    ensures
        v.step == StartStep::Reading,
        declared(o) is Some,
        declared(o).unwrap().1.len() == 0,
        start_next(v, o).1 == (EffectV::Ask {
            prompt: value_prompt(declared(o).unwrap().0),
            expect: "Failed to read user input"@,
        }),
{
}

/// What the outcome, a line of the template, declares.
pub open spec fn declared(o: OutcomeV) -> Option<(Seq<char>, Seq<char>)> {
    match o {
        OutcomeV::Line(Some(l)) => template_line(l),
        _ => None,
    }
}

/// A `start` that skips the creation of `.env` never reads the template, asks
/// for a value or writes `.env`: the only file it writes is the unit file.
pub proof fn lemma_start_skip_leaves_env(v: StartV, o: OutcomeV)
    requires
        start_reachable(v),
        v.skip_env_creation,
    ensures
        !(start_next(v, o).1 is Ask),
        !(start_next(v, o).1 is OpenLines),
        !(start_next(v, o).1 is NextLine),
        start_next(v, o).1 is WriteFile ==> start_next(v, o).1->WriteFile_path == unit_file(v.name),
{
}

/// The unit is reloaded, then enabled, then started, each once the one before
/// has run to its end: `InEnable` is entered only from `InReload` and
/// `InStartUnit` only from `InEnable`, when the running `systemctl` finishes.
pub proof fn lemma_start_reload_enable_start(v: StartV, o: OutcomeV)
    ensures
        start_next(v, o).0.step == StartStep::InEnable && v.step != StartStep::InEnable ==> v.step
            == StartStep::InReload && systemctl_next(v.sys, o).1 is Finish
            && start_next(v, o).0.sys.command == "enable"@,
        start_next(v, o).0.step == StartStep::InStartUnit && v.step != StartStep::InStartUnit
            ==> v.step == StartStep::InEnable && systemctl_next(v.sys, o).1 is Finish
            && start_next(v, o).0.sys.command == "start"@,
{
}

/// Writing the unit file and its link again gives the same result. Whatever
/// else two `start`s of one service hold and whatever they are answered, they
/// write the same text to the same unit file; and each ends with the same link
/// to it, removing first a link that is already there (as one left by an
/// earlier `start`).
pub proof fn lemma_start_unit_and_link_repeatable(
    v1: StartV,
    v2: StartV,
    o1: OutcomeV,
    o2: OutcomeV,
)
    requires
        v1.name == v2.name,
    ensures
        v1.step == StartStep::AwaitUnitDir && v2.step == StartStep::AwaitUnitDir ==> start_next(
            v1,
            o1,
        ).1 == start_next(v2, o2).1 && start_next(v1, o1).1 == unit_write(v1.name),
        v1.step == StartStep::AwaitLinkCheck && o1 == OutcomeV::Found(true) ==> start_next(
            v1,
            o1,
        ).1 == (EffectV::RemoveFile {
            path: wants_link(v1.name),
            expect: "Failed to remove existing symbolic link"@,
        }) && start_next(start_next(v1, o1).0, o2).1 == link_effect(v1.name),
        v1.step == StartStep::AwaitLinkCheck && o1 == OutcomeV::Found(false) ==> start_next(
            v1,
            o1,
        ).1 == link_effect(v1.name),
{
}

/// The value written to `.env` for a key that the template leaves empty is the
/// whole line typed in answer, trimmed (spaces inside it kept). From any state
/// reached while reading the template, the line `key=`, the answer `a` and the
/// end of the template lead to `.env` holding what the earlier lines gave,
/// then `key` set to `trim(a)`.
pub proof fn lemma_start_answer_is_value(v: StartV, key: Seq<char>, a: Seq<char>)
    requires
        start_reachable(v),
        v.step is Reading,
        forall|i: int| 0 <= i < key.len() ==> key[i] != '=',
        !(key.len() > 0 && key[0] == '#'),
    ensures
        ({
            let s1 = start_next(v, OutcomeV::Line(Some(key + seq!['='])));
            let s2 = start_next(s1.0, OutcomeV::Answer(a));
            let s3 = start_next(s2.0, OutcomeV::Line(None));
            &&& s1.1 == (EffectV::Ask {
                prompt: "Enter value for "@ + key + ": "@,
                expect: "Failed to read user input"@,
            })
            &&& s2.1 == (EffectV::NextLine { expect: "Failed to read line"@ })
            &&& s3.1 == (EffectV::WriteFile {
                path: env_file(v.name),
                content: render_env(env_from(resolve(v.entries, v.answers).push((key, trim(a))))),
                expect_create: "Failed to create .env file"@,
                expect_write: "Failed to write to .env file"@,
            })
        }),
{
    lemma_template_line_empty_value(key);
    let s1 = start_next(v, OutcomeV::Line(Some(key + seq!['='])));
    let s2 = start_next(s1.0, OutcomeV::Answer(a));
    let e = v.entries.push((key, Seq::<char>::empty()));
    let ans = v.answers.push(a);
    assert(s2.0.entries == e);
    assert(s2.0.answers == ans);
    assert(e.drop_last() =~= v.entries);
    assert(e.last() == (key, Seq::<char>::empty()));
    assert(prompt_count(v.entries) == v.answers.len());
    lemma_resolve_ignores_later_answers(v.entries, v.answers, a);
    assert(ans[v.answers.len() as int] == a);
    assert(resolve(e, ans) == resolve(v.entries, v.answers).push((key, trim(a))));
}

/// A template made of the one line `key=`: `.env` is written with the single
/// line `key=<trimmed answer>`.
pub proof fn lemma_start_single_answer_env(v: StartV, key: Seq<char>, a: Seq<char>)
    requires
        start_reachable(v),
        v.step is Reading,
        v.entries.len() == 0,
        forall|i: int| 0 <= i < key.len() ==> key[i] != '=',
        !(key.len() > 0 && key[0] == '#'),
    ensures
        start_next(
            start_next(start_next(v, OutcomeV::Line(Some(key + seq!['=']))).0, OutcomeV::Answer(a)).0,
            OutcomeV::Line(None),
        ).1 == (EffectV::WriteFile {
            path: env_file(v.name),
            content: key + "="@ + trim(a) + "\n"@,
            expect_create: "Failed to create .env file"@,
            expect_write: "Failed to write to .env file"@,
        }),
{
    lemma_start_answer_is_value(v, key, a);
    let r = resolve(v.entries, v.answers).push((key, trim(a)));
    assert(resolve(v.entries, v.answers) =~= Seq::<(Seq<char>, Seq<char>)>::empty());
    assert(r =~= seq![(key, trim(a))]);
    assert(r.drop_last() =~= Seq::<(Seq<char>, Seq<char>)>::empty());
    assert(env_from(Seq::<(Seq<char>, Seq<char>)>::empty()) =~= Seq::<(Seq<char>, Seq<char>)>::empty());
    let one = seq![(key, trim(a))];
    assert(env_from(r) =~= one);
    assert(one.drop_last() =~= Seq::<(Seq<char>, Seq<char>)>::empty());
    reveal_strlit("=");
    reveal_strlit("\n");
    assert(render_env(one) == render_env(one.drop_last()) + key + seq!['='] + trim(a) + seq!['\n']);
    assert(render_env(one) =~= key + "="@ + trim(a) + "\n"@);
}

/// A value that the template gives is written as it stands (not trimmed, an
/// `=` in it kept), and nothing is asked for it: from any state reached while
/// reading the template, the line `key=value` with `value` not empty and the
/// end of the template lead to `.env` holding what the earlier lines gave,
/// then `key` set to `value`.
pub proof fn lemma_start_given_value_kept(v: StartV, key: Seq<char>, value: Seq<char>)
    requires
        start_reachable(v),
        v.step is Reading,
        value.len() > 0,
        forall|i: int| 0 <= i < key.len() ==> key[i] != '=',
        !(key.len() > 0 && key[0] == '#'),
    ensures
        ({
            let s1 = start_next(v, OutcomeV::Line(Some(key + seq!['='] + value)));
            let s2 = start_next(s1.0, OutcomeV::Line(None));
            &&& s1.1 == (EffectV::NextLine { expect: "Failed to read line"@ })
            &&& s2.1 == (EffectV::WriteFile {
                path: env_file(v.name),
                content: render_env(env_from(resolve(v.entries, v.answers).push((key, value)))),
                expect_create: "Failed to create .env file"@,
                expect_write: "Failed to write to .env file"@,
            })
        }),
{
    lemma_template_line_given_value(key, value);
    let e = v.entries.push((key, value));
    assert(e.drop_last() =~= v.entries);
    assert(prompt_count(e) == prompt_count(v.entries));
}

} // verus!
