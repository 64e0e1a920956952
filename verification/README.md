# rustormy

A neofetch-like weather report for the terminal, with several weather
providers, ASCII icons, ANSI colours, translations and a live screen.

- `src/` is the library, verified with Verus: the settings and their
  checks (`config`), the interpretation of each provider's replies and the
  choice of provider (`weather`), the text report and its icons
  (`display`), the live screen's decisions (`live`), the logging buffer
  (`logging`), and the text and number helpers they share (`text`,
  `numbers`, `translations`, `http`).
- `app/` is the command-line program around it: argument parsing, the
  configuration file and geocoding cache on disk, the HTTP requests, the
  floating-point formulas, and the terminal.
- `tests/` runs the library on concrete values.
