# fatcat_cli

The verified core of a command-line client for the fatcat catalog API.

- `src/specifier.rs`: entity specifiers (`release_<fcid>`, `doi:<value>`,
  `changelog_<index>`, ...) and their parser, proved against a grammar
  written as spec functions.
- `src/text.rs`: the character classes the grammar uses (Unicode white
  space, Unicode decimal digits via the `regex` crate) and text scanners.
- `src/api.rs`: the API request each specifier calls for, the resolution of
  lookups to specific specifiers, and the output format per object kind.
- `src/cli.rs`: log level for a count of `-v` flags; transport for an API
  host URL.
- `src/util.rs`: `is_fcid`.
- `src/laws.rs`: properties that relate these functions.
- `app/main.rs`: the program: argument parsing, logging, network calls and
  printing, driven by the library's decisions.
