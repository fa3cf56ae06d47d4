# terminal

The model of a terminal in an editor: which events of the emulator it answers and how, what it writes
to the pty for keys and pasted text, how the mouse selects, how a shell is launched, and how a launch
that fails is reported.

- `src/` is the library, and Verus proves the contracts of its functions. The emulator itself is the
  crate `alacritty_terminal`; the few calls into it, into `dirs` and into the standard library are
  wrapped in functions whose contracts are believed, not proved, and say what is relied on. The lookup
  of the home directory has no contract, since the machine decides what it finds.
- `app/` runs the library: it owns the emulator, its lock and its thread, reads the password file and
  the environment, and performs what the library asks for.
- `tests/` runs the library with the real crates.

| module | holds |
| --- | --- |
| `terminal` | the event stack, rendering, input, pasting, the mouse |
| `event` | the emulator's events and the answer to each |
| `builder` | from a launch to a terminal that gets its events, frame by frame |
| `config`, `shell` | what is launched, and with which environment |
| `error` | a failed launch in words |
| `selection`, `size`, `text` | the mouse selection, the sizes, the texts |
