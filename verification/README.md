# figex

A command-line tool that attaches to a running Figma page over the Chrome
DevTools Protocol, checks the connection, and extracts frame snapshots.

- `src/` is the library, verified with Verus: the error taxonomy and exit
  codes (`error`), settings resolution with its priority order (`config`),
  the command line as data (`cli`), CDP target discovery (`cdp::probe`), the
  steps of attach / health / snapshot runs and response matching
  (`cdp::client`), health and attach reports (`report`), snapshot metadata
  (`raw`), font names, FIGlet header checks and the logo (`font`, `flf`,
  `logo`), and the text helpers they share (`text`).
- `app/` is the executable around it: clap parsing, reading `figex.toml`,
  HTTP and WebSocket I/O driven by the library's state machines, JSON
  output, and the snapshot record types that hold floating-point values.
- `tests/` exercises the library on concrete values.
