# gb

`gb` is a command-line client for GitBucket: repositories, issues, pull requests, labels,
milestones, saved credentials and profiles, and raw REST calls.

The decisions the client makes are a library verified with Verus (`src/`): how host names and
URLs are normalised, which host, profile, credentials and repository a command uses, how the
stored configuration changes under each command, how edits are planned for the REST API and for
the web-form fallback, how pull requests are matched and their diffs located, and the exact text
each command prints. Every public function carries a `requires`/`ensures` contract, and
`src/laws.rs` states and proves the properties that span several calls (credentials saved are
the credentials used, logging out forgets them, merges keep and drop exactly the asked-for
values, normalisations are stable, and so on).

Layout:

- `src/` — the verified library (`cargo verus` / Verus).
- `tests/` — tests of the library on concrete values.
- `app/` — the executable: command-line parsing (clap), the configuration file (TOML), HTTP
  (reqwest), prompts (dialoguer), the terminal, git processes and the browser. It hands plain
  values to the library and prints what the library returns.

Calls into `url`, `time` and `reqwest` that the library's logic depends on stand behind small
trusted wrappers whose contracts are documented next to them.
