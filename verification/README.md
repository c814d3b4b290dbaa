# Implexa

Implexa keeps hardware parts, their revisions and the approvals that move a revision
through its lifecycle, in an SQLite database beside a Git repository that holds the design
files.

- `src/` is the library, written in Verus and verified:
  - `database/`: the records (parts, revisions, approvals, categories, files, properties,
    manufacturer parts, relationships, workflows), the texts they are stored under, the schema
    and its default contents, display part numbers, and the lifecycle rules (who may do what
    to a revision, and which status it moves to).
  - `git_backend/`: configuration and errors, credentials, directory templates, hooks,
    conflict-marker rewriting, large file storage output, commit metadata, merge decisions and
    repository status.
  - `workspace.rs`: workspaces kept in memory.
  - `commands/`: the records as the user interface exchanges them.
  - `text.rs`, `paths.rs`, `clock.rs`: text, path and clock helpers.
- `app/` runs the library against SQLite, git2, the `git` and `git-lfs` tools and the file
  system, and holds the JSON forms of the records.
- `tests/` exercises the library on concrete values.
