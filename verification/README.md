# usage_widget

A tray widget that shows how much of a plan's session and weekly usage is
spent, reading the session from the browser's cookies or from OAuth
credentials. The library under `src/` is written in Verus and verified; the
program around it is in `app/`.

## Layout

- `src/`: the verified library.
  - `cli`: command-line options.
  - `browser`, `paths`, `cookies`, `cookie_jar`, `detect`, `resolve`: which
    browser holds the session, where its store lies, and how Chromium cookie
    values and keys are decrypted.
  - `fetch`, `usage_state`, `display`, `popup`, `idle`: the background fetch
    with its fallbacks, the model the popup shows, and its texts.
  - `config`, `desktop`, `tray`: settings paths, the desktop entry, and the
    tray host's popup arguments and socket commands.
  - `crypto`, `text`, `platform`: the calls into outside crates and `std`,
    with their contracts, and small string helpers.
- `tests/`: tests of the library.
- `app/`: the program: windows, dialogs, files, processes and threads. It
  performs the actions the library's state machines ask for.
