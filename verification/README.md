# daft_launcher

A launcher for Ray clusters that run Daft: it reads a small TOML
configuration, derives Ray's cluster configuration from it, and drives `ray`,
`ssh` and AWS to spin clusters up and down, list their nodes and submit jobs.

The decisions are made in a library whose behaviour is stated in contracts and
proved with Verus; the command-line program around it performs the I/O.

## Layout

- `src/` — the verified library.
  - `launcher/` — the configuration file of the `daft-launcher` command
    (`load`), its conversion into Ray's configuration (`convert`), the EC2
    instances of Ray clusters and how they are listed (`instances`), and the
    command lines given to `ray` and `ssh` (`commands`, `ssh`).
  - `config/` — the staged configuration file (raw, processed, Ray form) with
    its defaults and interactive choices.
  - `aws.rs`, `cli.rs`, `ray.rs` — decisions around the AWS calls, the
    command arguments and the `ray` command lines of the staged configuration.
  - `processable.rs`, `processable_option.rs` — values that are processed
    exactly once.
  - `versions.rs`, `pattern.rs`, `utils.rs`, `text.rs` — semantic versions
    (`semver`), regular expressions (`regex`), paths and small string helpers.
- `tests/` — tests of the library on concrete values.
- `app/` — the `daft-launcher` program: argument parsing (`clap`), reading
  and writing files (`toml`, `serde_yaml`), AWS, processes and the table that
  `list` prints.

## Notes on the model

- Tables keyed by name (the jobs of a configuration, the node types of a Ray
  configuration) are vectors of `(name, value)` pairs whose names are proved
  distinct, rather than hash maps: Verus specifies `HashMap` insertion only
  for keys whose hashing and equality it can see, which excludes `String`
  keys, so a map would have left the "later job replaces earlier one" and
  "no name twice" properties unprovable.
- A leading `~` is replaced by the user's home directory as the system
  reports it at run time.
