# lilypalooza

The core of Lilypalooza, a workstation for LilyPond scores, written in Verus. The
functions in `src/` carry `requires`/`ensures` contracts that Verus proves. A few small
wrappers around the standard library are trusted rather than proved: the path queries of
`std::path` and string building in `paths` and `text`, and in `lilypond` the text of an
`io::Error` and receiving from the compile thread's channel. Each is marked
`#[verifier::external_body]` and its doc comment says what its contract claims.

- `midi` reads standard MIDI files for the piano roll (notes, tracks, tempo and meter
  maps, bar lines), byte by byte.
- `lilypond` checks the installed LilyPond version and turns compile output into log lines;
  `compile` decides when a compile starts, which outputs are taken and in what order.
- `startup` reads the command line and environment.
- `workspace`, `dock`, `layout` hold the docked panes, their folding, dragging and
  dropping, and the saved layout.
- `keys`, `shortcuts`, `routing`, `viewers` decide where key presses and messages go.
- `browser`, `editor_tabs`, `disk_state`, `watch`, `project`, `prompts`, `rename`,
  `mixer`, `logger`, `svg`, `track_rename` hold the rest of the application's state machines and rules.
- `paths` and `text` give the path and string operations the rest is written with.

`app/` is a small command-line front end: it checks LilyPond, compiles a score into a
temporary folder and reports the pages and MIDI files, doing the file and process work
that the library leaves to its caller. `tests/` exercises the library on concrete values.
