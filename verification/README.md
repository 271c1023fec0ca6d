# cachyos_hello

The verified core of two pages of CachyOS Hello, written in Verus.

- `src/units.rs` — `SystemdUnits`, the loaded and enabled systemd units,
  with the clear-then-reload steps the tweaks page performs.
- `src/tweaks.rs` — the six service tweaks, when a tweak counts as enabled
  (every space-separated unit enabled), the initial state of its check box,
  and the `systemctl` commands that toggle it.
- `src/toggle.rs` — the steps of a toggle (check package, install it,
  check again, run the command, reload units) as a state machine whose
  caller performs the actions; laws on its transitions.
- `src/dns.rs` — the table of public DNS servers, the preselection of a
  server for a connection, the lookup of a server's addresses, and the
  round-trip laws between them.
- `src/text.rs` — string-list helpers.
- `app/` — the GTK pages themselves (unverified), calling the library; the
  network, package, translation and dialog services come from the
  application through the `Host` trait.
