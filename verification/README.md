# git-x

Superpowers for Git: repository overviews, branch clean-up, stash management,
bisect helpers and commit analysis, as a `git x <command>` program.

The project is written in Verus. Every decision the commands make is a
function of git's answers with a contract, and Verus proves each body
against it.

## Layout

- `src/` — the verified library.
  - `base/` — text reading (lines, words, numbers, dates), validation,
    the git argument lists and the readers of git's output, styled output,
    ranking and grouping, fuzzy search, safety checks.
  - `domain/`, `adapters/` — branch management requests and results, and
    their formatting.
  - `commands/` — the subcommands: what each decides from git's answers
    (usually a `Plan` of git runs and the report that follows), and where
    shell completion is installed.
  - the other modules — the single-purpose commands (bisect, clean and
    prune branches, contributors, technical debt, summary, health, what,
    sync, upstream, …).
- `tests/` — the test suite, run against the compiled library.
- `app/` — the program: command-line parsing, running git, dialogs, the
  file system (completion scripts), and what involves floating-point sizes.

Each command is split where git is asked something: the program runs git and
hands the finished process (`ProcessOutput`) or the value read to the
library, which says what to print or what to run next. Laws that span
several functions (for instance that cleaning never deletes a protected
branch, or that every commit is counted for exactly one contributor) are
stated and proved as public proof functions beside the functions they speak
of.
