# prod

A command line tool that provisions cloud VPS instances (Binary Lane, Digital
Ocean, Linode, Vultr; OpenStack in part) and controls hosts over SSH by
running the actions of a YAML control script.

The library (`src/`) holds the logic, verified with Verus:

- `provision/`: parameter files, the providers' requests and how their
  replies are read, the waits after a create request, the listings, and the
  manager that dispatches a request. A provider is a step function: given
  the HTTP replies so far, it names the next request or the outcome.
- `control/`: control scripts, host validation, the actions (each a step
  function from the replies of the connection so far to the next command,
  file transfer or outcome), file editing, and the decisions around a
  session (what to ask the user, when to retry a connection).
- `yaml.rs`, `provision/json.rs`: YAML and JSON as plain values, read and
  written by `yaml-rust` and `serde_json`.
- `text.rs`, `keyed.rs`, `params.rs`: text helpers, named-entry lists and
  action parameters.

The program (`app/`) reads files and the environment, performs the HTTP
requests (`ureq`), runs the SSH connections (`ssh2` or `ssh-rs`, chosen by
`PROD_CONTROL_CONNECTION=openssh|sshrs`; otherwise commands are only
printed), asks for passwords (`rpassword`) and prints the results.
