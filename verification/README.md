# sync_helper

An interactive command-line tool that synchronises files with a remote host
through `rsync` over `ssh`, with the decisions of the tool verified by Verus.

- `src/` is the verified library:
  - `models.rs`: server profiles, transfer settings, per-direction defaults;
  - `config.rs`: upgrading profiles written by earlier releases, deleting a
    profile, and remembering a confirmed transfer;
  - `paths.rs`, `text.rs`: path and string helpers with their specifications
    (last component, parent and join of a path, on Unix and Windows rules);
  - `gitignore.rs`: the upward search for the nearest `.gitignore`, and the
    proof that it finds the nearest one;
  - `planner.rs`: turning a transfer request into a checked plan, and the laws
    that plans obey (Mirror only for pushed directories, pulls use the remote
    path as typed, trailing separators of local directories do not matter);
  - `executor.rs`: the rsync and ssh arguments of a plan, and the proof that
    the shell reads a quoted path back unchanged;
  - `prompts.rs`: what the menus show and what an answer stands for;
  - `transfer.rs`: the direct transfer path that runs rsync without a plan.
- `app/` holds the program: terminal prompts, the configuration file (TOML via
  serde), the file-system lookups the planner needs, and running `rsync`/`ssh`.
- `tests/` runs the library on concrete values.
