# metal-deploy

Deploys git repositories on bare metal as systemd user services: each service
gets a Linux user of its own, its repository is cloned into that user's home
directory, built with the repository's `build.sh` and run from `build/run.sh`.

Commands: `add <repo_url> [--name] [--branch]`, `build <service>`,
`start <service> [--skip-env-creation]`, `stop`, `restart`, `delete`,
`update <service> [--latest-release]`, `list`.

## Layout

- `src/` is the library, verified with Verus:
  - `text`, `env`: whitespace, trimming, lines; the `.metal-deploy.env`
    template, the variables it gives and the `.env` written from them;
  - `naming`: the service name taken from a given name or from the URL
    (`regex` cleans it);
  - `layout`, `files`, `session`, `console`: paths in `/home/<name>`, the
    unit file and the service record, the user's D-Bus session and
    `systemctl` call, the yes/no question and the service list;
  - `release`: the newest tag of a service's repository (its latest release)
    and the `git` calls that list, fetch and check out tags;
  - `effects` and the `*_flow`/`control` modules: each command as a state
    machine that returns one request (`Effect`) at a time and is handed what
    came of it (`Outcome`).
- `app/` is the program: argument parsing with `clap`, and the loop that
  performs each request (processes, files, terminal) and feeds the outcome
  back.
- `tests/` runs the library on concrete values.
