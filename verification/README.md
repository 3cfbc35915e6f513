# mpris_server

A library for implementing the MPRIS D-Bus interface on the service side,
with its core verified in Verus.

* `src/` is the verified library: times in microseconds with checked,
  saturating and operator arithmetic; D-Bus object paths and track IDs, which
  are valid by construction; the MPRIS metadata map with its typed attributes;
  playlists; playback, loop and ordering names; the well-known bus name of a
  player; the property state of a premade player, whose setters say when a
  change must be announced (doubles compared as doubles); and the sorting of
  changed properties into the `PropertiesChanged` signal of each interface. Each public function states its result in its
  contract, and the laws that relate the functions are public proof functions
  (`law_*`).
* `tests/` runs the library on concrete values.
* `app/` serves the library's values on the session bus with zbus: the
  interfaces that an application implements, `Server`, `LocalServer` and the
  premade `Player`.
