# yarlint

YARlint is a linter for YARA rule files. It parses rule files into syntax
trees and runs a set of cops over them: checks of naming, style, logic,
performance and likely mistakes, each reporting findings with a severity.

The library under `src/` is written in Verus. Every function states its
behaviour in `requires`/`ensures` clauses over mathematical models (the
views of tokens, syntax trees and findings), and Verus proves the code
against them.

- `src/parser` — the hex-string lexer, the recursive-descent parsers for
  conditions, `meta` and `strings` sections, hex strings, rules and rule
  files. Each parser has a spec function that says what parsing a token
  sequence gives; the executable parsers are proved equal to them.
- `src/linter` — findings, the `Cop` and `Rule` traits, the cops and
  rules, constant folding of conditions, cop selection (`--only` /
  `--except`) and the engine that runs the cops. Each cop's contract says
  exactly which findings it appends for a file.
- `src/text` — character classes, trimming, word counting and decimal
  rendering used by the parsers and the cops.
- `src/validation` — a UTF-8 well-formedness check of file contents,
  proved equal to vstd's `valid_utf8`.
- `src/filesystem`, `src/cli`, `src/config` — file-extension filtering,
  the command-line arguments as plain data, and configuration values.

Public proof functions state the laws the library keeps, for example that
a parsed hex alternation always has at least two branches, that constant
folding treats parentheses and double negation transparently, and that a
cop named in `--except` never runs.

`app/` is the command-line program: argument parsing with clap, file
discovery with walkdir, reading files, and colored output.

Limitation: this crate has no lexer for YARA source text, only for the
contents of hex strings. The parsers work on token streams, so the program
finds, validates and reads rule files but stops with an error when it
has to tokenize one; it cannot lint a file yet. The library and its tests
work on token streams built directly.

`tests/` holds the tests, run against the compiled library.
