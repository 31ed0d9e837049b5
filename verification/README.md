# greetd

A small login manager daemon. It starts a greeter on a virtual terminal, lets
the greeter log users in over a Unix socket, and runs a user's session in the
greeter's place once the greeter has left.

`src/` is the library: everything that the daemon decides, with contracts that
Verus proves. Nothing in it touches the system. Where a decision needs the
system, it is a state machine: `step` takes the report on the last action and
returns the next state and the next action, and its contract says exactly which.

| Module | What it decides |
|--------|-----------------|
| `config` | what a configuration file stands for, and the defaults |
| `startup` | how the daemon comes up, from the configuration to the main loop |
| `runtime` | the terminal, the PAM services and the socket to run with |
| `daemon`, `signals` | the main loop, the signals and the shutdown |
| `pending` | the session that waits for the greeter to leave, and its timeouts |
| `client`, `client_laws` | a greeter's connection |
| `direct` | sessions that start without a login |
| `session` | the messages between the daemon and its workers |
| `worker`, `worker_laws` | a session's worker: PAM, privileges, the command |
| `ipc`, `frame`, `json`, `json_laws`, `message_laws` | the wire format, and that it can be read back |
| `terminal`, `keyring`, `error`, `text` | the smaller pieces |
| `greeter` | a minimal greeter for trying the daemon out |

`app/` is the daemon around the library: it makes the system calls, talks to PAM
and parses TOML and JSON. Called as `test-greeter`, it is the minimal greeter.

`tests/` runs the library on concrete values.
