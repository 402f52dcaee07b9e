# treebeard

`git treebeard` creates an isolated Git worktree for a branch and mounts a
copy-on-write overlay over it, so that ignored files of the main repository
(build outputs, dependencies) are visible in the worktree without being
copied. Changes are committed automatically while the session runs, and on
exit the session can squash its commits, sync chosen ignored files back to
the main repository, and clean up.

## Layout

- `src/` is the verified library. Its functions carry contracts that Verus
  proves, except a small set of trusted wrappers (marked
  `#[verifier::external_body]`) whose bodies call `std`, `glob`, `similar`,
  `regex`, `lru` or `fxhash` and whose contracts Verus takes on trust:
  - `overlay/`: the overlay's layers, whiteouts, path resolution, the inode
    table (an LRU cache of `lru`) and its manager, directory listings merged
    from both layers, and the decisions of each filesystem operation;
  - `sync/`: aggregating the mutations of a session into files and
    directories, `.gitignore` filtering, glob patterns, diffs, the
    interactive selection's state machine;
  - `git.rs`, `session.rs`, `cleanup.rs`, `watcher.rs`, `hooks.rs`,
    `sandbox.rs`, `config.rs`, `doctor.rs`, `shell.rs`, `cli.rs`: the git
    invocations and the reading of their output, the record of sessions,
    the cleanup and auto-commit decisions, hook templates, the macOS sandbox
    profile, configuration merging and validation, diagnostics;
  - `text.rs`, `path.rs`: text and path helpers the rest is stated over.
- `tests/`: the tests, run against the compiled library.
- `app/`: the program around the library: the command line, processes,
  files, the FUSE filesystem, the terminal interface, and the async loops.
