# agentenv

The decisions of a sandbox host, as a library in Verus: which image
configurations are accepted, which layers a snapshot keeps, in which order a
network or a virtual machine monitor is set up and torn down, and how the answers
of the block-device daemon are read. Every function of `src/` is verified, but for
the wrappers named below; what touches files, processes, sockets and the kernel is
in `app/`, which asks the library what to do next and reports back what became of
it.

| module | subject |
|---|---|
| `text`, `paths`, `ipv4`, `env_vars`, `kernel_setting`, `failure` | text, lexical Unix paths, addresses, variables, kernel settings, errors |
| `overlaybd_config`, `overlaybd_rules` | image configurations: defaults, merging of older settings, path resolution, checks |
| `dirty_memory` | dirty memory of a process as segments of a memory image |
| `snapshot_layers`, `snapshot_capture` | lower layers of a snapshot, capturing and staging a live device |
| `network_slot`, `network_setup` | addresses, names and rules of a slot, its setup and teardown |
| `launch_config`, `launch_checks` | what a virtual machine is launched with, and what keeps it from being launched |
| `instance`, `instance_api` | the virtual machine monitor: its process and the requests to it |
| `daemon_client` | the client of the block-device daemon |
| `io_ring` | the worker of an I/O ring |

Work that alternates decisions and effects is written as steps: an enum of steps,
a function from step and event to the next step, and laws about the order (`pub
proof fn`). Failures are exact: a contract says for which inputs an error comes
and what it is called.

A few functions of other crates and of the standard library are called behind
declared contracts, which are not proved here: `String::push`,
`String::from_utf8_lossy`, `slice::sort_unstable_by_key`, `str::to_lowercase`,
`uuid::Uuid::now_v7` and `serde_json::from_str` into a raw value. Each says in its
doc comment what is claimed of it.
