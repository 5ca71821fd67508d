//! The text of the files that a service gets: its systemd unit and the record
//! written when it is added.
use vstd::prelude::*;

use crate::text::push_char;

verus! {

/// The systemd user unit that runs a service: `run_script` in
/// `/home/<name>/build`, with the variables of `env_path`, restarted on failure
/// and wanted by `default.target`.
pub open spec fn unit_text(name: Seq<char>, env_path: Seq<char>, run_script: Seq<char>) -> Seq<
    char,
> {
    "[Unit]\nDescription="@ + name + " User Service\nAfter=network.target\n\n[Service]\nType=simple\nExecStartPre=/usr/bin/dbus-daemon --session --fork\nEnvironmentFile="@
        + env_path
        + "\nEnvironment=DBUS_SESSION_BUS_ADDRESS=unix:path=/run/user/%U/bus\nWorkingDirectory=/home/"@
        + name + "/build\nExecStart="@ + run_script
        + "\nRestart=on-failure\n\n[Install]\nWantedBy=default.target"@
}

/// The text of the unit file of the service `name` (see `unit_text`).
pub fn service_unit(name: &str, env_path: &str, run_script: &str) -> (res: String)
    ensures
        res@ == unit_text(name@, env_path@, run_script@),
{
    let mut res = String::from_str("[Unit]\nDescription=");
    res.append(name);
    res.append(
        " User Service\nAfter=network.target\n\n[Service]\nType=simple\nExecStartPre=/usr/bin/dbus-daemon --session --fork\nEnvironmentFile=",
    );
    res.append(env_path);
    res.append(
        "\nEnvironment=DBUS_SESSION_BUS_ADDRESS=unix:path=/run/user/%U/bus\nWorkingDirectory=/home/",
    );
    res.append(name);
    res.append("/build\nExecStart=");
    res.append(run_script);
    res.append("\nRestart=on-failure\n\n[Install]\nWantedBy=default.target");
    res
}

/// The decimal digit for `d < 10`.
pub open spec fn digit(d: nat) -> char {
    (('0' as u32) + d) as char
}

/// The decimal representation of `n`, without leading zeros (`0` for zero).
pub open spec fn decimal(n: nat) -> Seq<char>
    decreases n,
{
    if n < 10 {
        seq![digit(n)]
    } else {
        decimal(n / 10).push(digit(n % 10))
    }
}

/// The decimal representation of `n` (as `format!("{}", n)` writes it).
pub fn decimal_string(n: u64) -> (res: String)
    ensures
        res@ == decimal(n as nat),
    decreases n,
{
    let mut res = if n < 10 {
        String::new()
    } else {
        decimal_string(n / 10)
    };
    let d = (n % 10) as u32;
    let c = (('0' as u32 + d) as u8) as char;
    assert(c == digit((n % 10) as nat));
    push_char(&mut res, c);
    res
}

/// The record written into `/home/<name>/metal-deploy.config.json` when a
/// service is added: its name, its repository's URL and when it was added, in
/// seconds since the Unix epoch.
pub open spec fn config_text(name: Seq<char>, url: Seq<char>, added: nat) -> Seq<char> {
    "{\n    \"name\": \""@ + name + "\",\n    \"url\": \""@ + url + "\",\n    \"added\": \""@
        + decimal(added) + "\"\n}"@
}

/// The text of a service's record (see `config_text`).
pub fn service_config(name: &str, url: &str, added_secs: u64) -> (res: String)
    ensures
        res@ == config_text(name@, url@, added_secs as nat),
{
    let mut res = String::from_str("{\n    \"name\": \"");
    res.append(name);
    res.append("\",\n    \"url\": \"");
    res.append(url);
    res.append("\",\n    \"added\": \"");
    let secs = decimal_string(added_secs);
    res.append(secs.as_str());
    res.append("\"\n}");
    res
}

} // verus!
