//! Where a service's files live: everything sits in the home directory of the
//! user that runs the service, `/home/<name>`.
use vstd::prelude::*;

use crate::text::{concat2, concat3, concat4};

verus! {

/// `/home/<name>`: the service user's home directory.
pub open spec fn home_dir(name: Seq<char>) -> Seq<char> {
    "/home/"@ + name
}

/// `/home/<name>/repo`: the clone of the service's repository.
pub open spec fn repo_dir(name: Seq<char>) -> Seq<char> {
    "/home/"@ + name + "/repo"@
}

/// `/home/<name>/repo/build.sh`: the script that builds the service.
pub open spec fn build_script(name: Seq<char>) -> Seq<char> {
    "/home/"@ + name + "/repo/build.sh"@
}

/// `/home/<name>/repo/build`: where the build script leaves its output.
pub open spec fn repo_build_dir(name: Seq<char>) -> Seq<char> {
    "/home/"@ + name + "/repo/build"@
}

/// `/home/<name>/build`: the build that the service runs from.
pub open spec fn build_dir(name: Seq<char>) -> Seq<char> {
    "/home/"@ + name + "/build"@
}

/// `/home/<name>/repo/.metal-deploy.env`: the template of the service's variables.
pub open spec fn env_template(name: Seq<char>) -> Seq<char> {
    "/home/"@ + name + "/repo/.metal-deploy.env"@
}

/// `/home/<name>/.env`: the service's variables.
pub open spec fn env_file(name: Seq<char>) -> Seq<char> {
    "/home/"@ + name + "/.env"@
}

/// `/home/<name>/build/run.sh`: the script that runs the service.
pub open spec fn run_script(name: Seq<char>) -> Seq<char> {
    "/home/"@ + name + "/build/run.sh"@
}

/// `/home/<name>/.config/systemd`: the user's systemd configuration.
pub open spec fn systemd_dir(name: Seq<char>) -> Seq<char> {
    "/home/"@ + name + "/.config/systemd"@
}

/// `/home/<name>/.config/systemd/user`: the user's systemd units.
pub open spec fn unit_dir(name: Seq<char>) -> Seq<char> {
    "/home/"@ + name + "/.config/systemd/user"@
}

/// `/home/<name>/.config/systemd/user/<name>.service`: the service's unit file.
pub open spec fn unit_file(name: Seq<char>) -> Seq<char> {
    unit_dir(name) + "/"@ + name + ".service"@
}

/// `/home/<name>/.config/systemd/user/default.target.wants`.
pub open spec fn wants_dir(name: Seq<char>) -> Seq<char> {
    "/home/"@ + name + "/.config/systemd/user/default.target.wants"@
}

/// `.../default.target.wants/<name>.service`: the link that starts the unit on boot.
pub open spec fn wants_link(name: Seq<char>) -> Seq<char> {
    wants_dir(name) + "/"@ + name + ".service"@
}

/// `/home/<name>/metal-deploy.config.json`: the record that a service was added.
pub open spec fn config_file(name: Seq<char>) -> Seq<char> {
    "/home/"@ + name + "/"@ + config_file_name()
}

/// `metal-deploy.config.json`: the file that marks a home directory as a service's.
pub open spec fn config_file_name() -> Seq<char> {
    "metal-deploy.config.json"@
}

/// `/home`: where the services' home directories are.
pub open spec fn homes_root() -> Seq<char> {
    "/home"@
}

/// The paths of one service.
pub struct ServiceLayout {
    pub name: String,
    pub home_dir: String,
    pub repo_dir: String,
    pub build_script: String,
    pub repo_build_dir: String,
    pub build_dir: String,
    pub env_template: String,
    pub env_file: String,
    pub run_script: String,
    pub systemd_dir: String,
    pub unit_dir: String,
    pub unit_file: String,
    pub wants_dir: String,
    pub wants_link: String,
    pub config_file: String,
}

impl ServiceLayout {
    /// Each path is the one its spec function gives for the name.
    pub open spec fn matches(&self, name: Seq<char>) -> bool {
        &&& self.name@ == name
        &&& self.home_dir@ == home_dir(name)
        &&& self.repo_dir@ == repo_dir(name)
        &&& self.build_script@ == build_script(name)
        &&& self.repo_build_dir@ == repo_build_dir(name)
        &&& self.build_dir@ == build_dir(name)
        &&& self.env_template@ == env_template(name)
        &&& self.env_file@ == env_file(name)
        &&& self.run_script@ == run_script(name)
        &&& self.systemd_dir@ == systemd_dir(name)
        &&& self.unit_dir@ == unit_dir(name)
        &&& self.unit_file@ == unit_file(name)
        &&& self.wants_dir@ == wants_dir(name)
        &&& self.wants_link@ == wants_link(name)
        &&& self.config_file@ == config_file(name)
    }

    /// The paths of the service called `name`.
    pub fn new(name: &str) -> (res: ServiceLayout)
        ensures
            res.matches(name@),
    {
        let unit_dir = concat3("/home/", name, "/.config/systemd/user");
        let unit_file = concat4(unit_dir.as_str(), "/", name, ".service");
        let wants_dir = concat3("/home/", name, "/.config/systemd/user/default.target.wants");
        let wants_link = concat4(wants_dir.as_str(), "/", name, ".service");
        ServiceLayout {
            name: String::from_str(name),
            home_dir: concat2("/home/", name),
            repo_dir: concat3("/home/", name, "/repo"),
            build_script: concat3("/home/", name, "/repo/build.sh"),
            repo_build_dir: concat3("/home/", name, "/repo/build"),
            build_dir: concat3("/home/", name, "/build"),
            env_template: concat3("/home/", name, "/repo/.metal-deploy.env"),
            env_file: concat3("/home/", name, "/.env"),
            run_script: concat3("/home/", name, "/build/run.sh"),
            systemd_dir: concat3("/home/", name, "/.config/systemd"),
            unit_dir,
            unit_file,
            wants_dir,
            wants_link,
            config_file: concat4("/home/", name, "/", "metal-deploy.config.json"),
        }
    }
}

/// The name of the file that marks a home directory as a service's.
pub fn config_file_name_str() -> (res: String)
    ensures
        res@ == config_file_name(),
{
    String::from_str("metal-deploy.config.json")
}

/// The directory that holds the services' home directories.
pub fn homes_root_str() -> (res: String)
    ensures
        res@ == homes_root(),
{
    String::from_str("/home")
}

/// `path` lies inside the home directory of `name`: it starts with
/// `/home/<name>/`.
pub open spec fn in_home(name: Seq<char>, path: Seq<char>) -> bool {
    let h = home_dir(name);
    &&& path.len() > h.len()
    &&& path.subrange(0, h.len() as int) == h
    &&& path[h.len() as int] == '/'
}

/// `home_dir(name) + rest` lies in the home directory when `rest` starts with `/`.
proof fn lemma_home_then(name: Seq<char>, rest: Seq<char>)
    requires
        rest.len() > 0,
        rest[0] == '/',
    ensures
        in_home(name, home_dir(name) + rest),
{
    let h = home_dir(name);
    assert((h + rest).subrange(0, h.len() as int) =~= h);
}

/// Every file of a service lies in its user's home directory: the repository,
/// the builds, the scripts, `.env` and its template, the systemd files and the
/// service's record all start with `/home/<name>/`.
pub proof fn lemma_paths_in_home(name: Seq<char>)
    ensures
        in_home(name, repo_dir(name)),
        in_home(name, build_script(name)),
        in_home(name, repo_build_dir(name)),
        in_home(name, build_dir(name)),
        in_home(name, env_template(name)),
        in_home(name, env_file(name)),
        in_home(name, run_script(name)),
        in_home(name, systemd_dir(name)),
        in_home(name, unit_dir(name)),
        in_home(name, unit_file(name)),
        in_home(name, wants_dir(name)),
        in_home(name, wants_link(name)),
        in_home(name, config_file(name)),
{
    let h = home_dir(name);
    reveal_strlit("/repo");
    reveal_strlit("/repo/build.sh");
    reveal_strlit("/repo/build");
    reveal_strlit("/build");
    reveal_strlit("/repo/.metal-deploy.env");
    reveal_strlit("/.env");
    reveal_strlit("/build/run.sh");
    reveal_strlit("/.config/systemd");
    reveal_strlit("/.config/systemd/user");
    reveal_strlit("/.config/systemd/user/default.target.wants");
    reveal_strlit("/");
    lemma_home_then(name, "/repo"@);
    lemma_home_then(name, "/repo/build.sh"@);
    lemma_home_then(name, "/repo/build"@);
    lemma_home_then(name, "/build"@);
    lemma_home_then(name, "/repo/.metal-deploy.env"@);
    lemma_home_then(name, "/.env"@);
    lemma_home_then(name, "/build/run.sh"@);
    lemma_home_then(name, "/.config/systemd"@);
    lemma_home_then(name, "/.config/systemd/user"@);
    let u = "/.config/systemd/user"@ + "/"@ + name + ".service"@;
    lemma_home_then(name, u);
    assert(unit_file(name) =~= h + u);
    lemma_home_then(name, "/.config/systemd/user/default.target.wants"@);
    let w = "/.config/systemd/user/default.target.wants"@ + "/"@ + name + ".service"@;
    lemma_home_then(name, w);
    assert(wants_link(name) =~= h + w);
    let c = "/"@ + config_file_name();
    lemma_home_then(name, c);
    assert(config_file(name) =~= h + c);
}

/// Different services have different home directories.
pub proof fn lemma_home_dir_injective(a: Seq<char>, b: Seq<char>)
    requires
        home_dir(a) == home_dir(b),
    ensures
        a == b,
{
    let p = "/home/"@;
    assert(a =~= home_dir(a).subrange(p.len() as int, home_dir(a).len() as int));
    assert(b =~= home_dir(b).subrange(p.len() as int, home_dir(b).len() as int));
}

} // verus!
