use metal_deploy::add_flow::{AddFlow, AddStep};
use metal_deploy::build_flow::{BuildFlow, BuildStep};
use metal_deploy::control::{ControlFlow, ServiceAction};
use metal_deploy::delete_flow::{DeleteFlow, DeleteStep};
use metal_deploy::effects::{Effect, Outcome, ProcessCall};
use metal_deploy::session::{SystemctlFlow, SystemctlStep};
use metal_deploy::start_flow::{StartFlow, StartStep};
use metal_deploy::update_flow::{UpdateFlow, UpdateStep};

fn s(x: &str) -> String {
    x.to_string()
}

fn say(x: &str) -> Effect {
    Effect::Say(s(x))
}

fn warn(x: &str) -> Effect {
    Effect::Warn(s(x))
}

fn run(program: &str, args: &[&str], capture: bool, expect: Option<&str>) -> Effect {
    Effect::Run(ProcessCall {
        program: s(program),
        args: args.iter().map(|a| s(a)).collect(),
        current_dir: None,
        env: None,
        capture,
        expect: expect.map(s),
    })
}

fn ran(success: bool) -> Outcome {
    Outcome::Ran { success, stdout: s(""), stderr: s(""), status: s("") }
}

fn ran_out(stdout: &str) -> Outcome {
    Outcome::Ran { success: true, stdout: s(stdout), stderr: s(""), status: s("") }
}

fn systemctl_effect(user: &str, uid: &str, command: &str) -> Effect {
    let bus = format!("unix:path=/run/user/{}/bus", uid);
    Effect::Run(ProcessCall {
        program: s("su"),
        args: vec![
            s("-l"),
            s(user),
            s("-c"),
            format!(
                "export DBUS_SESSION_BUS_ADDRESS={} && export XDG_RUNTIME_DIR=/run/user/{} && systemctl --user {} {}",
                bus, uid, command, user
            ),
        ],
        current_dir: None,
        env: Some((s("DBUS_SESSION_BUS_ADDRESS"), bus)),
        capture: false,
        expect: None,
    })
}

/// Drives a `systemctl` run of a child flow with the bus present.
fn expect_systemctl<F: FnMut(Outcome) -> Effect>(step: &mut F, first: Effect, user: &str, command: &str) {
    assert_eq!(first, run("id", &["-u", user], true, Some("Failed to get user id")));
    assert_eq!(step(ran_out("1001\n")), Effect::Exists(s("/run/user/1001/bus")));
    assert_eq!(step(Outcome::Found(true)), Effect::Exists(s("/run/user/1001/bus")));
    assert_eq!(step(Outcome::Found(true)), systemctl_effect(user, "1001", command));
}

#[test]
fn systemctl_with_bus_present() {
    let mut f = SystemctlFlow::new("svc", "stop");
    let first = f.step(Outcome::Begin);
    expect_systemctl(&mut |o| f.step(o), first, "svc", "stop");
    assert_eq!(f.step(ran(true)), Effect::Finish);
    assert_eq!(f.step, SystemctlStep::Done);
    assert_eq!(f.step(Outcome::Completed), Effect::Finish);
}

#[test]
fn systemctl_starts_bus_then_runs() {
    let mut f = SystemctlFlow::new("svc", "enable");
    f.step(Outcome::Begin);
    assert_eq!(f.step(ran_out(" 42 ")), Effect::Exists(s("/run/user/42/bus")));
    assert_eq!(
        f.step(Outcome::Found(false)),
        run(
            "sudo",
            &["-u", "svc", "dbus-daemon", "--session", "--fork", "--address", "unix:path=/run/user/42/bus"],
            false,
            None
        )
    );
    assert_eq!(f.step(ran(false)), Effect::Exists(s("/run/user/42/bus")));
    assert_eq!(f.step(Outcome::Found(true)), systemctl_effect("svc", "42", "enable"));
    assert_eq!(f.step(Outcome::SpawnFailed(s("boom"))), warn("Failed to run systemctl command 'enable': boom"));
    assert_eq!(f.step(Outcome::Completed), Effect::Finish);
}

#[test]
fn systemctl_gives_up_without_bus() {
    let mut f = SystemctlFlow::new("svc", "stop");
    f.step(Outcome::Begin);
    f.step(ran_out("7"));
    f.step(Outcome::Found(false));
    assert_eq!(f.step(ran(true)), Effect::Exists(s("/run/user/7/bus")));
    assert_eq!(f.step(Outcome::Found(false)), warn("D-Bus session bus not available for user svc"));
    assert_eq!(f.step(Outcome::Completed), Effect::Finish);

    let mut g = SystemctlFlow::new("svc", "stop");
    g.step(Outcome::Begin);
    g.step(ran_out("7"));
    g.step(Outcome::Found(false));
    assert_eq!(
        g.step(Outcome::SpawnFailed(s("no sudo"))),
        warn("Failed to start dbus-daemon for user svc: no sudo")
    );
    assert_eq!(g.step(Outcome::Completed), Effect::Finish);
}

#[test]
fn stop_without_unit_file() {
    let mut f = ControlFlow::new("svc", ServiceAction::Stop);
    assert_eq!(f.step(Outcome::Begin), say("Stopping service: svc"));
    assert_eq!(
        f.step(Outcome::Completed),
        Effect::Exists(s("/home/svc/.config/systemd/user/svc.service"))
    );
    assert_eq!(
        f.step(Outcome::Found(false)),
        say("No systemd service found for svc, assuming it's already stopped or does not exist.")
    );
    assert_eq!(f.step(Outcome::Completed), Effect::Finish);
}

#[test]
fn restart_with_unit_file() {
    let mut f = ControlFlow::new("svc", ServiceAction::Restart);
    assert_eq!(f.step(Outcome::Begin), say("Restarting service: svc"));
    f.step(Outcome::Completed);
    let first = f.step(Outcome::Found(true));
    expect_systemctl(&mut |o| f.step(o), first, "svc", "restart");
    assert_eq!(f.step(ran(true)), say("Service svc has been restarted."));
    assert_eq!(f.step(Outcome::Completed), Effect::Finish);

    let mut g = ControlFlow::new("svc", ServiceAction::Restart);
    g.step(Outcome::Begin);
    g.step(Outcome::Completed);
    assert_eq!(
        g.step(Outcome::Found(false)),
        say("No systemd service found for svc, assuming it does not exist.")
    );
}

fn build_call() -> Effect {
    Effect::SpawnWait {
        call: ProcessCall {
            program: s("bash"),
            args: vec![s("/home/svc/repo/build.sh")],
            current_dir: Some(s("/home/svc/repo")),
            env: None,
            capture: false,
            expect: Some(s("Failed to execute build.sh")),
        },
        wait_expect: s("Failed to wait on child process"),
    }
}

#[test]
fn build_replacing_existing() {
    let mut f = BuildFlow::new("svc", true);
    assert_eq!(f.step(Outcome::Begin), Effect::Exists(s("/home/svc/repo/build.sh")));
    assert_eq!(f.step(Outcome::Found(true)), Effect::Exists(s("/home/svc/build")));
    assert_eq!(f.step(Outcome::Found(true)), Effect::RemoveDirAll(s("/home/svc/build")));
    assert_eq!(f.step(Outcome::IoOk), build_call());
    assert_eq!(f.step(ran(true)), say("Service svc built successfully."));
    assert_eq!(
        f.step(Outcome::Completed),
        Effect::Rename { from: s("/home/svc/repo/build"), to: s("/home/svc/build") }
    );
    assert_eq!(f.step(Outcome::IoOk), say("Build directory moved to home successfully."));
    assert_eq!(f.step(Outcome::Completed), Effect::Finish);
    assert_eq!(f.current_step(), BuildStep::Done);
}

#[test]
fn build_errors() {
    let mut f = BuildFlow::new("svc", true);
    f.step(Outcome::Begin);
    assert_eq!(f.step(Outcome::Found(false)), warn("Error: build.sh does not exist for service: svc"));
    assert_eq!(f.step(Outcome::Completed), Effect::Finish);

    let mut g = BuildFlow::new("svc", true);
    g.step(Outcome::Begin);
    g.step(Outcome::Found(true));
    g.step(Outcome::Found(true));
    assert_eq!(
        g.step(Outcome::IoFailed(s("Os { code: 13 }"))),
        warn("Error removing previous build directory in home: Os { code: 13 }")
    );

    let mut h = BuildFlow::new("svc", false);
    h.step(Outcome::Begin);
    assert_eq!(h.step(Outcome::Found(true)), build_call());
    assert_eq!(h.step(ran(false)), warn("Failed to build service: svc"));
    assert_eq!(h.step(Outcome::Completed), Effect::Finish);

    let mut k = BuildFlow::new("svc", false);
    k.step(Outcome::Begin);
    k.step(Outcome::Found(true));
    assert_eq!(k.step(ran(true)), say("Service svc built successfully."));
    assert_eq!(k.step(Outcome::Completed), Effect::Finish);

    let mut m = BuildFlow::new("svc", true);
    m.step(Outcome::Begin);
    m.step(Outcome::Found(true));
    assert_eq!(m.step(Outcome::Found(false)), build_call());
    m.step(ran(true));
    m.step(Outcome::Completed);
    assert_eq!(
        m.step(Outcome::IoFailed(s("NotFound"))),
        warn("Error moving build directory to home: NotFound")
    );
}

fn pgrep() -> Effect {
    run("pgrep", &["-u", "svc"], false, Some("Failed to execute pgrep command"))
}

#[test]
fn delete_whole_sequence() {
    let mut f = DeleteFlow::new("svc");
    assert_eq!(f.step(Outcome::Begin), say("Deleting service: svc"));
    assert_eq!(f.step(Outcome::Completed), say("Attempting to stop the service: svc"));
    let first = f.step(Outcome::Completed);
    expect_systemctl(&mut |o| f.step(o), first, "svc", "stop");
    assert_eq!(f.step(ran(true)), Effect::RemoveDirAll(s("/home/svc/.config/systemd")));
    assert_eq!(
        f.step(Outcome::IoFailed(s("NotFound"))),
        warn("Failed to remove systemd service configuration: NotFound")
    );
    assert_eq!(f.step(Outcome::Completed), say("Killing any remaining processes for user: svc"));
    assert_eq!(
        f.step(Outcome::Completed),
        run("sudo", &["killall", "-9", "--user", "svc"], false, Some("Failed to execute killall command"))
    );
    assert_eq!(f.step(ran(false)), warn("Warning: Could not kill all processes for user 'svc'."));
    assert_eq!(f.step(Outcome::Completed), pgrep());
    assert_eq!(f.step(ran(true)), Effect::Sleep(500));
    assert_eq!(f.current_step(), DeleteStep::Sleeping);
    assert_eq!(f.step(Outcome::Completed), pgrep());
    assert_eq!(f.step(ran(false)), say("All processes for user 'svc' have been terminated."));
    assert_eq!(
        f.step(Outcome::Completed),
        run("sudo", &["userdel", "-r", "svc"], false, Some("Failed to execute userdel command"))
    );
    assert_eq!(f.step(ran(true)), say("User 'svc' and their home directory removed successfully."));
    assert_eq!(f.step(Outcome::Completed), say("Service 'svc' fully deleted."));
    assert_eq!(f.step(Outcome::Completed), Effect::Finish);
}

#[test]
fn delete_with_userdel_failure() {
    let mut f = DeleteFlow::new("svc");
    f.step(Outcome::Begin);
    f.step(Outcome::Completed);
    f.step(Outcome::Completed);
    f.step(ran_out("5"));
    f.step(Outcome::Found(true));
    f.step(Outcome::Found(true));
    f.step(ran(true));
    assert_eq!(f.step(Outcome::IoOk), say("Removed systemd service configuration."));
    f.step(Outcome::Completed);
    f.step(Outcome::Completed);
    assert_eq!(f.step(ran(true)), pgrep());
    f.step(ran(false));
    f.step(Outcome::Completed);
    assert_eq!(f.step(ran(false)), warn("Error: Failed to remove user 'svc'."));
    assert_eq!(f.step(Outcome::Completed), say("Service 'svc' fully deleted."));
}

#[test]
fn start_without_template() {
    let mut f = StartFlow::new("svc", false);
    assert_eq!(f.step(Outcome::Begin), say("Starting service: svc"));
    assert_eq!(f.step(Outcome::Completed), warn("/home/svc/repo/.metal-deploy.env"));
    assert_eq!(f.step(Outcome::Completed), Effect::Exists(s("/home/svc/repo/.metal-deploy.env")));
    assert_eq!(
        f.step(Outcome::Found(false)),
        warn("Error: .metal-deploy.env does not exist for service: svc")
    );
    // The deployment goes on without `.env`.
    assert_eq!(f.step(Outcome::Completed), Effect::Exists(s("/home/svc/build/run.sh")));
    assert_eq!(f.step(Outcome::Found(false)), warn("Error: run.sh does not exist for service: svc"));
    assert_eq!(f.step(Outcome::Completed), Effect::Finish);
}

#[test]
fn start_skipping_env_creation() {
    let mut f = StartFlow::new("svc", true);
    assert_eq!(f.step(Outcome::Begin), say("Starting service: svc"));
    assert_eq!(f.step(Outcome::Completed), Effect::Exists(s("/home/svc/build/run.sh")));
    assert_eq!(f.current_step(), StartStep::AwaitRunScript);
}

fn line(x: &str) -> Outcome {
    Outcome::Line(Some(s(x)))
}

fn next_line() -> Effect {
    Effect::NextLine { expect: s("Failed to read line") }
}

fn ask(k: &str) -> Effect {
    Effect::Ask { prompt: format!("Enter value for {}: ", k), expect: s("Failed to read user input") }
}

#[test]
fn start_whole_sequence() {
    let mut f = StartFlow::new("svc", false);
    f.step(Outcome::Begin);
    f.step(Outcome::Completed);
    f.step(Outcome::Completed);
    assert_eq!(
        f.step(Outcome::Found(true)),
        Effect::OpenLines {
            path: s("/home/svc/repo/.metal-deploy.env"),
            expect: s("Failed to open .metal-deploy.env")
        }
    );
    assert_eq!(f.step(Outcome::Completed), next_line());
    assert_eq!(f.step(line("# c")), next_line());
    assert_eq!(f.step(line("A=1")), next_line());
    // Each empty value is asked for as its line is read.
    assert_eq!(f.step(line("B=")), ask("B"));
    assert_eq!(f.current_step(), StartStep::Asking);
    assert_eq!(f.step(Outcome::Answer(s(" two\n"))), next_line());
    assert_eq!(f.step(line("C=")), ask("C"));
    assert_eq!(f.step(Outcome::Answer(s("three\n"))), next_line());
    assert_eq!(
        f.step(Outcome::Line(None)),
        Effect::WriteFile {
            path: s("/home/svc/.env"),
            content: s("A=1\nB=two\nC=three\n"),
            expect_create: s("Failed to create .env file"),
            expect_write: s("Failed to write to .env file"),
        }
    );
    assert_eq!(f.step(Outcome::Completed), say(".env file created at: /home/svc/.env"));
    assert_eq!(f.step(Outcome::Completed), Effect::Exists(s("/home/svc/build/run.sh")));
    assert_eq!(
        f.step(Outcome::Found(true)),
        Effect::CreateDirAll {
            path: s("/home/svc/.config/systemd/user"),
            or_panic: Some(s("Failed to create service directory"))
        }
    );
    match f.step(Outcome::IoOk) {
        Effect::WriteFile { path, content, .. } => {
            assert_eq!(path, "/home/svc/.config/systemd/user/svc.service");
            assert!(content.contains("ExecStart=/home/svc/build/run.sh"));
            assert!(content.contains("EnvironmentFile=/home/svc/.env"));
        }
        other => panic!("unexpected {:?}", other),
    }
    assert_eq!(
        f.step(Outcome::Completed),
        say("Service file created at: /home/svc/.config/systemd/user/svc.service")
    );
    assert_eq!(
        f.step(Outcome::Completed),
        Effect::CreateDirAll {
            path: s("/home/svc/.config/systemd/user/default.target.wants"),
            or_panic: Some(s("Failed to create default.target.wants directory"))
        }
    );
    let link = s("/home/svc/.config/systemd/user/default.target.wants/svc.service");
    assert_eq!(f.step(Outcome::IoOk), Effect::Exists(link.clone()));
    assert_eq!(
        f.step(Outcome::Found(true)),
        Effect::RemoveFile { path: link.clone(), expect: s("Failed to remove existing symbolic link") }
    );
    assert_eq!(
        f.step(Outcome::Completed),
        Effect::Symlink {
            target: s("/home/svc/.config/systemd/user/svc.service"),
            link: link.clone(),
            expect: s("Failed to create symbolic link")
        }
    );
    for command in ["daemon-reload", "enable", "start"] {
        let first = f.step(Outcome::Completed);
        expect_systemctl(&mut |o| f.step(o), first, "svc", command);
    }
    assert_eq!(f.step(ran(true)), say("Service svc has been created and started for user svc"));
    assert_eq!(f.step(Outcome::Completed), Effect::Finish);
}

/// Drives a `start` with `.env` skipped up to its unit file, and returns it.
fn unit_file_request(f: &mut StartFlow) -> Effect {
    f.step(Outcome::Begin);
    f.step(Outcome::Completed);
    f.step(Outcome::Found(true));
    f.step(Outcome::IoOk)
}

#[test]
fn start_twice_writes_same_unit_and_link() {
    let mut first = StartFlow::new("svc", true);
    let mut second = StartFlow::new("svc", true);
    let unit = unit_file_request(&mut first);
    assert_eq!(unit, unit_file_request(&mut second));
    let link = s("/home/svc/.config/systemd/user/default.target.wants/svc.service");
    let make_link = Effect::Symlink {
        target: s("/home/svc/.config/systemd/user/svc.service"),
        link: link.clone(),
        expect: s("Failed to create symbolic link"),
    };
    for f in [&mut first, &mut second] {
        f.step(Outcome::Completed);
        f.step(Outcome::Completed);
        assert_eq!(f.step(Outcome::IoOk), Effect::Exists(link.clone()));
    }
    // The first finds no link and makes it; the second removes it and makes it again.
    assert_eq!(first.step(Outcome::Found(false)), make_link);
    assert_eq!(
        second.step(Outcome::Found(true)),
        Effect::RemoveFile { path: link.clone(), expect: s("Failed to remove existing symbolic link") }
    );
    assert_eq!(second.step(Outcome::Completed), make_link);
}

#[test]
fn start_without_run_script() {
    let mut f = StartFlow::new("svc", false);
    f.step(Outcome::Begin);
    f.step(Outcome::Completed);
    f.step(Outcome::Completed);
    f.step(Outcome::Found(true));
    f.step(Outcome::Completed);
    assert_eq!(f.step(line("A=1")), next_line());
    assert_eq!(
        f.step(Outcome::Line(None)),
        Effect::WriteFile {
            path: s("/home/svc/.env"),
            content: s("A=1\n"),
            expect_create: s("Failed to create .env file"),
            expect_write: s("Failed to write to .env file"),
        }
    );
    f.step(Outcome::Completed);
    f.step(Outcome::Completed);
    assert_eq!(f.step(Outcome::Found(false)), warn("Error: run.sh does not exist for service: svc"));
    assert_eq!(f.step(Outcome::Completed), Effect::Finish);
}

#[test]
fn start_keeps_carriage_return_of_last_line() {
    let mut f = StartFlow::new("svc", false);
    f.step(Outcome::Begin);
    f.step(Outcome::Completed);
    f.step(Outcome::Completed);
    f.step(Outcome::Found(true));
    f.step(Outcome::Completed);
    // A value that is a lone carriage return is not empty: nothing is asked.
    assert_eq!(f.step(line("K=\r")), next_line());
    assert_eq!(
        f.step(Outcome::Line(None)),
        Effect::WriteFile {
            path: s("/home/svc/.env"),
            content: s("K=\r\n"),
            expect_create: s("Failed to create .env file"),
            expect_write: s("Failed to write to .env file"),
        }
    );
}

fn git(args: &[&str], capture: bool, expect: &str) -> Effect {
    Effect::Run(ProcessCall {
        program: s("git"),
        args: args.iter().map(|a| s(a)).collect(),
        current_dir: Some(s("/home/svc/repo")),
        env: None,
        capture,
        expect: Some(s(expect)),
    })
}

fn tag_list() -> Effect {
    git(&["tag", "--sort=-creatordate"], true, "Failed to list the repository's tags")
}

#[test]
fn update_stops_when_pull_fails() {
    let mut f = UpdateFlow::new("svc", false);
    assert_eq!(f.step(Outcome::Begin), say("Updating service: svc"));
    assert_eq!(f.step(Outcome::Completed), git(&["pull"], false, "Failed to execute git pull"));
    assert_eq!(f.step(ran(false)), warn("Failed to pull latest changes for service: svc"));
    assert_eq!(f.step(Outcome::Completed), Effect::Finish);
    assert_eq!(f.current_step(), UpdateStep::Done);

    let mut g = UpdateFlow::new("svc", true);
    g.step(Outcome::Begin);
    assert_eq!(g.step(Outcome::Completed), git(&["fetch", "--tags"], false, "Failed to execute git fetch"));
    assert_eq!(g.step(ran(false)), warn("Failed to pull latest changes for service: svc"));
    assert_eq!(g.step(Outcome::Completed), Effect::Finish);
}

#[test]
fn update_to_latest_release() {
    let mut f = UpdateFlow::new("svc", true);
    f.step(Outcome::Begin);
    f.step(Outcome::Completed);
    assert_eq!(f.step(ran(true)), tag_list());
    assert_eq!(
        f.step(ran_out("v2.1.0\nv2.0.0\nv1.0.0\n")),
        git(&["checkout", "v2.1.0"], false, "Failed to execute git checkout")
    );
    assert_eq!(f.current_step(), UpdateStep::AwaitCheckout);
    assert_eq!(f.step(ran(true)), say("Checked out latest release v2.1.0 for service: svc"));
    assert_eq!(f.step(Outcome::Completed), Effect::Exists(s("/home/svc/repo/build.sh")));
    assert_eq!(f.current_step(), UpdateStep::InBuild);

    let mut g = UpdateFlow::new("svc", true);
    g.step(Outcome::Begin);
    g.step(Outcome::Completed);
    g.step(ran(true));
    assert_eq!(g.step(ran_out("")), warn("No release found for service: svc"));
    assert_eq!(g.step(Outcome::Completed), Effect::Finish);

    let mut h = UpdateFlow::new("svc", true);
    h.step(Outcome::Begin);
    h.step(Outcome::Completed);
    h.step(ran(true));
    h.step(ran_out("v3\n"));
    assert_eq!(h.step(ran(false)), warn("Failed to check out release v3 for service: svc"));
    assert_eq!(h.step(Outcome::Completed), Effect::Finish);
}

/// Drives a plain `update` up to the check of `/home/svc/build`.
fn update_to_build_dir(f: &mut UpdateFlow) {
    f.step(Outcome::Begin);
    f.step(Outcome::Completed);
    f.step(ran(true));
    f.step(Outcome::Completed);
    assert_eq!(f.step(Outcome::Found(false)), warn("Error: build.sh does not exist for service: svc"));
    assert_eq!(f.step(Outcome::Completed), say("Stopping service: svc"));
    f.step(Outcome::Completed);
    f.step(Outcome::Found(false));
    assert_eq!(f.step(Outcome::Completed), Effect::Exists(s("/home/svc/build")));
}

#[test]
fn update_whole_sequence() {
    let mut f = UpdateFlow::new("svc", false);
    f.step(Outcome::Begin);
    match f.step(Outcome::Completed) {
        Effect::Run(c) => assert_eq!(c.args, vec![s("pull")]),
        other => panic!("unexpected {:?}", other),
    }
    assert_eq!(f.step(ran(true)), say("Latest changes pulled successfully for service: svc"));
    // build, keeping the existing build
    assert_eq!(f.step(Outcome::Completed), Effect::Exists(s("/home/svc/repo/build.sh")));
    assert_eq!(f.step(Outcome::Found(true)), build_call());
    assert_eq!(f.step(ran(true)), say("Service svc built successfully."));
    // stop
    assert_eq!(f.step(Outcome::Completed), say("Stopping service: svc"));
    f.step(Outcome::Completed);
    assert_eq!(
        f.step(Outcome::Found(false)),
        say("No systemd service found for svc, assuming it's already stopped or does not exist.")
    );
    assert_eq!(f.step(Outcome::Completed), Effect::Exists(s("/home/svc/build")));
    assert_eq!(f.step(Outcome::Found(false)), Effect::CreateDirAll { path: s("/home/svc/build"), or_panic: None });
    assert_eq!(f.step(Outcome::IoOk), say("Build directory created successfully."));
    assert_eq!(f.step(Outcome::Completed), Effect::OpenDir(s("/home/svc/repo/build")));
    assert_eq!(f.step(Outcome::IoOk), Effect::NextEntry);
    assert_eq!(f.step(Outcome::Entry { is_dir: false }), Effect::MoveEntryInto(s("/home/svc/build")));
    assert_eq!(f.step(Outcome::IoOk), Effect::NextEntry);
    assert_eq!(f.step(Outcome::Entry { is_dir: true }), Effect::MoveEntryInto(s("/home/svc/build")));
    assert_eq!(f.step(Outcome::IoOk), Effect::NextEntry);
    assert_eq!(f.step(Outcome::NoMoreEntries), say("New build contents moved successfully."));
    assert_eq!(f.step(Outcome::Completed), say("Starting service: svc"));
    assert_eq!(f.current_step(), UpdateStep::InStart);
    // The restart keeps `.env`: it goes straight to `run.sh`.
    assert_eq!(f.step(Outcome::Completed), Effect::Exists(s("/home/svc/build/run.sh")));
    assert_eq!(f.step(Outcome::Found(false)), warn("Error: run.sh does not exist for service: svc"));
    assert_eq!(f.step(Outcome::Completed), say("Service 'svc' updated successfully."));
    assert_eq!(f.step(Outcome::Completed), Effect::Finish);
}

#[test]
fn update_clears_existing_build() {
    let mut f = UpdateFlow::new("svc", false);
    update_to_build_dir(&mut f);
    assert_eq!(f.step(Outcome::Found(true)), Effect::OpenDir(s("/home/svc/build")));
    assert_eq!(f.step(Outcome::IoOk), Effect::NextEntry);
    assert_eq!(f.step(Outcome::Entry { is_dir: true }), Effect::RemoveEntry { as_dir: true });
    assert_eq!(f.step(Outcome::IoOk), Effect::NextEntry);
    assert_eq!(f.step(Outcome::Entry { is_dir: false }), Effect::RemoveEntry { as_dir: false });
    assert_eq!(f.step(Outcome::IoOk), Effect::NextEntry);
    assert_eq!(f.step(Outcome::NoMoreEntries), say("Existing build directory cleared successfully."));
    assert_eq!(f.step(Outcome::Completed), Effect::OpenDir(s("/home/svc/repo/build")));
    assert_eq!(f.current_step(), UpdateStep::MoveOpen);
}

#[test]
fn update_clear_failure() {
    let mut f = UpdateFlow::new("svc", false);
    update_to_build_dir(&mut f);
    assert_eq!(f.step(Outcome::Found(true)), Effect::OpenDir(s("/home/svc/build")));
    assert_eq!(f.step(Outcome::IoFailed(s("Busy"))), warn("Error clearing existing build directory: Busy"));
    assert_eq!(f.step(Outcome::Completed), Effect::Finish);

    let mut g = UpdateFlow::new("svc", false);
    update_to_build_dir(&mut g);
    g.step(Outcome::Found(true));
    g.step(Outcome::IoOk);
    assert_eq!(g.step(Outcome::Entry { is_dir: false }), Effect::RemoveEntry { as_dir: false });
    assert_eq!(g.step(Outcome::IoFailed(s("Denied"))), warn("Error clearing existing build directory: Denied"));
    assert_eq!(g.step(Outcome::Completed), Effect::Finish);
}

#[test]
fn update_move_failure() {
    let mut f = UpdateFlow::new("svc", false);
    update_to_build_dir(&mut f);
    f.step(Outcome::Found(false));
    f.step(Outcome::IoOk);
    assert_eq!(f.step(Outcome::Completed), Effect::OpenDir(s("/home/svc/repo/build")));
    assert_eq!(f.step(Outcome::IoFailed(s("NotFound"))), warn("Error moving new build contents: NotFound"));
    assert_eq!(f.step(Outcome::Completed), Effect::Finish);

    let mut g = UpdateFlow::new("svc", false);
    update_to_build_dir(&mut g);
    g.step(Outcome::Found(false));
    g.step(Outcome::IoOk);
    g.step(Outcome::Completed);
    g.step(Outcome::IoOk);
    g.step(Outcome::Entry { is_dir: false });
    assert_eq!(g.step(Outcome::IoFailed(s("CrossesDevices"))), warn("Error moving new build contents: CrossesDevices"));
    assert_eq!(g.step(Outcome::Completed), Effect::Finish);
}

#[test]
fn add_declined_wipe() {
    let mut f = AddFlow::new("https://github.com/me/My-Repo.git", None, None);
    assert_eq!(f.service_name(), "my_repo");
    assert_eq!(
        f.step(Outcome::Begin),
        say("Adding service: my_repo from: https://github.com/me/My-Repo.git")
    );
    assert_eq!(
        f.step(Outcome::Completed),
        run("id", &["my_repo"], true, Some("Failed to execute id command"))
    );
    assert_eq!(
        f.step(ran(true)),
        say("User my_repo already exists. Adding the service again will wipe and overwrite the existing service's data entirely.")
    );
    assert_eq!(
        f.step(Outcome::Completed),
        Effect::Ask { prompt: s("Do you want to continue? [Y/n]: "), expect: s("Failed to read line") }
    );
    assert_eq!(f.step(Outcome::Answer(s("n\n"))), say("Operation aborted."));
    assert_eq!(f.step(Outcome::Completed), Effect::Finish);
    assert_eq!(f.current_step(), AddStep::Done);
}

#[test]
fn add_confirmed_wipe_deletes_first() {
    let mut f = AddFlow::new("u", Some(s("Svc")), None);
    f.step(Outcome::Begin);
    f.step(Outcome::Completed);
    f.step(ran(true));
    f.step(Outcome::Completed);
    assert_eq!(f.step(Outcome::Answer(s("\n"))), say("Deleting service: svc"));
    assert_eq!(f.current_step(), AddStep::InDelete);
}

#[test]
fn add_whole_sequence() {
    let url = "https://github.com/me/app.git";
    let mut f = AddFlow::new(url, None, Some(s("dev")));
    f.step(Outcome::Begin);
    f.step(Outcome::Completed);
    assert_eq!(
        f.step(ran(false)),
        run("sudo", &["useradd", "-m", "app"], true, Some("Failed to execute useradd command"))
    );
    assert_eq!(f.step(ran(true)), say("User app created successfully."));
    assert_eq!(
        f.step(Outcome::Completed),
        run("sudo", &["loginctl", "enable-linger", "app"], false, Some("Failed to enable linger for the user"))
    );
    assert_eq!(f.step(ran(true)), run("id", &["-u", "app"], true, Some("Failed to get user ID")));
    assert_eq!(
        f.step(ran_out("1002\n")),
        run(
            "su",
            &["-l", "app", "-c", "export DBUS_SESSION_BUS_ADDRESS=unix:path=/run/user/1002/bus && export XDG_RUNTIME_DIR=/run/user/1002 && systemctl --user daemon-reload"],
            false,
            Some("Failed to set DBUS_SESSION_BUS_ADDRESS or reload systemctl")
        )
    );
    assert_eq!(
        f.step(ran(true)),
        run("git", &["clone", "-b", "dev", url, "/home/app/repo"], false, Some("Failed to execute git clone"))
    );
    assert_eq!(f.step(ran(true)), say("Repository cloned successfully into /home/app/repo"));
    assert_eq!(f.step(Outcome::Completed), Effect::Clock);
    assert_eq!(
        f.step(Outcome::Time(1700000000)),
        Effect::WriteFile {
            path: s("/home/app/metal-deploy.config.json"),
            content: format!(
                "{{\n    \"name\": \"app\",\n    \"url\": \"{}\",\n    \"added\": \"1700000000\"\n}}",
                url
            ),
            expect_create: s("Failed to create config file"),
            expect_write: s("Failed to write to config file"),
        }
    );
    assert_eq!(
        f.step(Outcome::Completed),
        say("Service configuration file created at: /home/app/metal-deploy.config.json")
    );
    assert_eq!(f.step(Outcome::Completed), Effect::Exists(s("/home/app/repo/build.sh")));
    assert_eq!(f.step(Outcome::Found(true)), say("Service created successfully: app"));
    assert_eq!(f.step(Outcome::Completed), Effect::Finish);
}

#[test]
fn add_failures() {
    let mut f = AddFlow::new("https://x/app", None, None);
    f.step(Outcome::Begin);
    f.step(Outcome::Completed);
    f.step(ran(false));
    let failed = Outcome::Ran { success: false, stdout: s(""), stderr: s("useradd: denied\n"), status: s("exit status: 1") };
    assert_eq!(f.step(failed), warn("Failed to create user: useradd: denied\n"));
    assert_eq!(f.step(Outcome::Completed), Effect::Finish);

    let mut g = AddFlow::new("https://x/app", None, None);
    g.step(Outcome::Begin);
    g.step(Outcome::Completed);
    g.step(ran(false));
    g.step(ran(true));
    g.step(Outcome::Completed);
    g.step(ran(true));
    g.step(ran_out("9"));
    let failed = Outcome::Ran { success: false, stdout: s(""), stderr: s(""), status: s("exit status: 1") };
    assert_eq!(g.step(failed), warn("Failed to set up systemctl for user app: exit status: 1"));

    let mut h = AddFlow::new("https://x/app", None, None);
    h.step(Outcome::Begin);
    h.step(Outcome::Completed);
    h.step(ran(false));
    h.step(ran(true));
    h.step(Outcome::Completed);
    h.step(ran(true));
    h.step(ran_out("9"));
    assert_eq!(
        h.step(ran(true)),
        run("git", &["clone", "https://x/app", "/home/app/repo"], false, Some("Failed to execute git clone"))
    );
    assert_eq!(h.step(ran(false)), warn("Failed to clone repository."));
    assert_eq!(h.step(Outcome::Completed), Effect::Finish);

    let mut k = AddFlow::new("https://x/app", None, None);
    k.step(Outcome::Begin);
    k.step(Outcome::Completed);
    k.step(ran(false));
    k.step(ran(true));
    k.step(Outcome::Completed);
    k.step(ran(true));
    k.step(ran_out("9"));
    k.step(ran(true));
    k.step(ran(true));
    assert_eq!(k.step(Outcome::Completed), run_in_repo("app", &["tag", "--sort=-creatordate"], true, "Failed to list the repository's tags"));
    assert_eq!(k.step(ran_out("")), Effect::Clock);
    k.step(Outcome::Time(1));
    k.step(Outcome::Completed);
    k.step(Outcome::Completed);
    assert_eq!(k.step(Outcome::Found(false)), warn("Service has an invalid repo structure: missing build.sh"));
}

fn run_in_repo(name: &str, args: &[&str], capture: bool, expect: &str) -> Effect {
    Effect::Run(ProcessCall {
        program: s("git"),
        args: args.iter().map(|a| s(a)).collect(),
        current_dir: Some(format!("/home/{}/repo", name)),
        env: None,
        capture,
        expect: Some(s(expect)),
    })
}

/// Drives an `add` of `https://x/app` with no branch up to its clone.
fn add_to_clone(f: &mut AddFlow) {
    f.step(Outcome::Begin);
    f.step(Outcome::Completed);
    f.step(ran(false));
    f.step(ran(true));
    f.step(Outcome::Completed);
    f.step(ran(true));
    f.step(ran_out("9"));
    assert_eq!(
        f.step(ran(true)),
        run("git", &["clone", "https://x/app", "/home/app/repo"], false, Some("Failed to execute git clone"))
    );
    assert_eq!(f.step(ran(true)), say("Repository cloned successfully into /home/app/repo"));
}

#[test]
fn add_checks_out_latest_release() {
    let mut f = AddFlow::new("https://x/app", None, None);
    add_to_clone(&mut f);
    assert_eq!(
        f.step(Outcome::Completed),
        run_in_repo("app", &["tag", "--sort=-creatordate"], true, "Failed to list the repository's tags")
    );
    assert_eq!(
        f.step(ran_out("  v1.4.2 \nv1.4.1\n")),
        run_in_repo("app", &["checkout", "v1.4.2"], false, "Failed to execute git checkout")
    );
    assert_eq!(f.step(ran(true)), say("Checked out latest release: v1.4.2"));
    assert_eq!(f.step(Outcome::Completed), Effect::Clock);

    let mut g = AddFlow::new("https://x/app", None, None);
    add_to_clone(&mut g);
    g.step(Outcome::Completed);
    g.step(ran_out("v1\n"));
    assert_eq!(g.step(ran(false)), warn("Failed to check out release v1; keeping the default branch."));
    assert_eq!(g.step(Outcome::Completed), Effect::Clock);

    // A repository with no tags stays on its default branch.
    let mut h = AddFlow::new("https://x/app", None, None);
    add_to_clone(&mut h);
    h.step(Outcome::Completed);
    assert_eq!(h.step(ran_out("")), Effect::Clock);
    assert_eq!(h.current_step(), AddStep::AwaitClock);
}
