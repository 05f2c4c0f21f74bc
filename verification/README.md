# pythoninfo

Diagnostics of a Python environment: `pythoninfo` prints a report on the
whole environment (system, interpreters along `PATH`, pip, environment
variables, version managers, installed packages), and `pythoninfo <package>`
a report on one package (`pip show`, console scripts, whether pipx or uv
installed it).

- `src/` is the library, verified with Verus: the command line (`args`),
  colours (`styles`), character-level text handling (`text`), reading the
  output of other programs (`outputs`), the command lines that are run and
  when each one runs (`commands`), finding programs and describing the
  system (`lookup`), the programs and variables that are queried
  (`queries`), line layout (`render`), the two reports (`report`), and
  properties of the whole (`laws`).
- `app/` is the command itself: it reads the environment, runs the
  programs, hands what they printed to the library and prints its lines.
- `tests/` runs the library on concrete values.
