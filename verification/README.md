# nuttty

A dashboard in the terminal for Network UPS Tools (NUT), with its logic verified
by Verus.

- `src/` is the library: the line protocol of `upsd`, the settings, the state of
  the dashboard, what keys and clicks do, the steps of the polling side, and what
  a frame is made of. Contracts say what each function returns or changes; where
  the clock decides, or how a screen with too little room is shared out, they say
  what holds of every outcome. The laws that hold of several functions together
  stand at the end of the modules.
- `app/` is the program: sockets, files, threads, the terminal, and the arithmetic
  in floating point.
- `tests/` runs the library.

License: GPL-3.0-or-later.
