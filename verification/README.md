# atk_tui

The screens of an admin toolkit for the terminal: SSH hosts, DNS records,
ClickHouse users, logs, config files and kernel parameters.

The library holds what the screens decide. Each screen is a state; keys, mouse
events and answers change it, and what has to be done outside is queued as a
request. Drawing gives a list of things to draw. Every function states over a
mathematical model of the screen what it returns or changes, and Verus proves
it; the `*_laws` modules state what holds of a screen as a whole.

- `src/` the verified library
- `tests/` its tests
- `app/` the terminal: the event loop, rendering, files and the clipboard.
  `run` takes an implementation of `Services`, which does the work over the
  network.
