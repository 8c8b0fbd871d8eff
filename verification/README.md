# spookylock

A console screen locker. It switches to a fresh virtual terminal, forbids
switching away from it, runs a password prompt there (`<interface> --user
<user>`, checked against the `system-auth` PAM service) and, once the prompt
exits, unlocks switching, returns to the terminal that was active before and
releases the one it used.

- `src/` is the verified library (Verus): the terminal session as a state
  machine with its laws (`session.rs`), terminal numbers and device paths
  (`vt.rs`), the stream redirection guard (`stream_switch.rs`), the
  controlling-terminal setup (`tty.rs`), the prompt's decisions, options and
  colours (`prompt.rs`), and the reading of `-1`-style results (`errno.rs`).
- `app/` makes the system calls, draws the prompt and talks to PAM; it asks
  the library what to do at every step.
- `tests/` runs the library on concrete values.

`app/` builds one executable that acts as the program it is installed as:
`spookylock`, `spookylock-interface`, or `spookylock-main` (locker and prompt
in one process). Since the locker starts `spookylock-interface` from `$PATH`
unless told otherwise (`-i`, `-r -i`), install the executable under both of
the first two names.
