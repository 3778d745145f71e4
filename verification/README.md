# x11lock

A screen locker for X11 whose decisions are verified with Verus.

- `src/` is the library. It holds no I/O: every function takes plain values and
  returns plain values, under a contract that Verus proves.
  - `keysyms`, `input`: what a key press means and what it does to the prompt.
  - `locker`: the event loop, as a machine that asks for one action at a time
    and is answered with one event.
  - `grab`: grabbing the keyboard and the pointer, with bounded retries.
  - `monitor`, `window`: which monitors are covered, and the requests for it.
  - `render`, `clock`: what a frame looks like and the texts on it.
  - `auth`, `text`: the conversation with PAM and the reason of a refusal.
  - `laws`: what holds of the locker as a whole.
- `app/` is the program. It performs the actions: it talks to the X server, to
  PAM, to the clock and to cairo.
- `tests/` runs the library on concrete values.

`chrono` writes the time and the date, and `zeroize` wipes passwords. What the
library trusts of them is stated at `clock::format_moment` and `text::wipe`; what
it trusts of the standard library stands in `text`.
