# cosmic_monitor

The decision logic of the COSMIC system monitor, verified with Verus.

- `src/` is the library. Verus proves its functions against their
  contracts, except a handful of small functions that each make one call
  into regex, humansize or libc: their contracts state what those crates
  do and are trusted, not proved.
  It covers the navigation pages and menu, the application state and how
  each message changes it (`monitor`), the dashboard's cards, grid and list
  lengths, the graph history, how the process rows get rebuilt, the search
  pattern, the command line, and the text for frequencies, sizes and rates.
  The public proof functions state the laws that hold across calls.
- `app/` is the graphical application built on libcosmic. It samples the
  system, draws the widgets, runs the decisions in `Monitor::update` and
  carries out the `Command` each one returns.
- `tests/` runs the library on concrete values.
