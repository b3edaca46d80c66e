# regolith_displayd

A display configuration daemon for Wayland desktops. It observes the displays of
a desktop, through sway or through the wlroots output-management protocol,
serves their configuration on the session bus under
`org.gnome.Mutter.DisplayConfig`, and keeps kanshi profiles that bring a
configuration back.

## Layout

- `src/` is the library, verified with Verus: everything that is computed or
  decided.
  - `text`, `order`, `scale`: decimal rendering, the order of names, sorted
    listings, scale factors.
  - `sway`, `wayland_observer`, `collector`: what compositors report, and how the
    events of a wlroots compositor become immutable snapshots.
  - `modes`, `monitor`: modes, monitors, logical monitors, and requests.
  - `profile`, `kanshi`: the name and the text of profiles, kanshi's files and
    commands.
  - `state_set`, `manager`, `server`: the state that is served, how it follows
    observations, and how requests are checked and applied.
  - `daemon`, `consumer`: which backend is used, when something is tried again,
    and what the daemon does with the snapshots of an observation.
- `app/` is the program around it: sockets, the bus, files, processes, threads
  and the clock. It hands the library what it observed and does what the library
  decides.
- `tests/` runs the library on concrete values.

## Numbers

A scale factor is a double-precision number. The library compares factors by
their bit pattern and writes them by their decimal text, and holds both; the
program computes with the numbers themselves. Refresh rates are kept in mHz.
