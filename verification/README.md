# dark_pattern_blocker

A focus-session blocker: a daemon that, while a session runs, blocks
websites through a managed block in the hosts file, refuses to stop or shut
down before the session's time is up ("cold turkey"), and computes which
sites, apps and page rules are in force from profiles and their schedules.
A command-line client and a native-messaging host for a browser extension
talk to it over a Unix socket.

## Layout

- `src/` — the library, verified with Verus:
  - `host` — the managed block of the hosts file (add, remove, detect);
  - `duration` — reading `1h30m`-style durations and writing them back;
  - `policy`, `order` — the policy in force at a day and time, sorted
    without repeats;
  - `session`, `daemon` — sessions, and the daemon's state machine: each
    event (command, tick, outcome of outside work) gives a reply, the next
    outside action and what to announce;
  - `dispatch`, `store` — routing of client requests and the answers built
    from the record store's replies;
  - `cli`, `extension`, `gui`, `framing` — the command-line client's
    requests and output, the browser extension's message conversion, the
    desktop interface's requests, and length-prefixed framing;
  - `model`, `fs_error`, `config`, `protocol`, `text`, `non_empty_vec` —
    records, errors and helpers.
- `tests/` — tests of the library.
- `app/` — the program around it: the daemon's event loop, the SQLite store,
  the socket, file access, the command-line interface and the native host.
