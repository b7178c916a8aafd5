# niri_windows

The window bookkeeping of a scrollable-tiling Wayland compositor, verified with Verus.

`src/` is the library. It holds the rules that decide what happens; it does no I/O and no
floating-point arithmetic (settings that are floating-point numbers are carried by their bit
patterns, and compared as numbers).

- `state`: the state that clients rebuild from the event stream, part by part. Applying a snapshot
  to an empty state gives the same state back.
- `window::mapped`: layout entries, that is real windows and mirrors of them. `configure` decides
  what to ask of the client and when, `commit` what an answer brings about, `render` what is drawn.
  `laws` states what holds across these.
- `window::negotiated`, `window::configuring`, `window::resize`: the state that waits for answers.
- `window::toplevel`: where a toplevel surface stands between the compositor and its client.
- `introspect`: the entries and titles that screencast pickers show.
- `transform`: rotated and reflected elements.
- `grab`: pointer grabs on mirrors.
- `window_rule`, `appearance`, `window::rules`: settings of window rules.

`tests/` runs the library on concrete values. `app/` joins it to smithay, zbus and knuffel, and
holds the floating-point geometry of mirrors.

A caller that is not verified has to see to the `requires` clauses itself: an event for a window,
workspace or cast that is not there must not be applied where the part does not accept it, only
real windows report a sent configure, and geometry has to stay within 32-bit integers.
