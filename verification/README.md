# zter

zter is a GTK 4 terminal emulator built on VTE. This crate holds its
verified core, written in Verus, and the program around it.

## Layout

- `src/` — the library, verified by Verus:
  - `binary64` — IEEE 754 binary64 numbers held by their encoding, with
    exact finiteness and order;
  - `text` — whitespace, trimming and title sanitizing over Unicode text;
  - `path` — the components of a Unix path: its file name and the
    directory it lies in;
  - `json` — the JSON values and objects that settings are read from, and
    the parse of settings text;
  - `settings` — the settings schema, its defaults, reading and validating
    a settings object, editing from the settings window, and the settings
    file's location and its backup, and the optional header mode;
  - `resolution` — resolving a user's settings file against the defaults:
    migration of schema versions 1 and 2 and of the header visibility
    flag, per-key fallback, and when the file is written back;
  - `config` — the startup configuration: shell, working directory and
    background image;
  - `cli` — the command line, with the header mode commands;
  - `identity` — the names of the development and release profiles;
  - `keys` — keyboard and pointer shortcuts;
  - `key_bindings` — configurable shortcuts: validation, labels and
    matching key events to actions;
  - `tabs` — tab titles and tab drag and drop;
  - `terminal` — terminal resizing, grid size and foreground processes;
  - `settings_form` — the decisions of the settings window;
  - `theme` — the One Half Dark palette;
  - `stylesheet` — the stylesheets of the application and settings windows;
  - `messages` — the messages that settings, configuration and key binding
    errors are reported with.
- `app/` — the program: GTK and VTE widgets, files, environment and the
  floating-point work on fonts and wallpapers, calling the library for
  every decision.
- `tests/` — tests of the library.

The program embeds its bundled wallpaper from
`data/wallpapers/zter-wallpaper.png`.
