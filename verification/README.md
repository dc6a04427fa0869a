# vscode_profile_importer

Imports VS Code `.code-profile` exports into named VS Code profiles.

The library (`src/`) is written in Verus and verified:

- `folder` — filesystem-safe folder names for profiles;
- `escape` — repair of exports that hold raw line breaks inside JSON strings;
- `json` — the JSON values the library reads, and the calls into `serde_json`;
- `pattern` — recovery of known fields from texts that are not JSON (via `regex`);
- `profile` — decoding of a `.code-profile` text into a `ParsedProfile`;
- `storage` — reading and patching VS Code's `storage.json`;
- `import` — the import itself, as a state machine whose outside work
  (prompts, launching VS Code, installing extensions, writing files) the
  caller performs;
- `creation` — creation of a missing profile by opening a temporary VS Code
  window until `storage.json` registers it, as a state machine;
- `install` — installation of one extension by the `code` CLI with a time
  limit, as a state machine;
- `manage` — management of existing profiles: the profile listing, the
  `code` arguments for a profile, the parsing of its extension listing, and
  the removal of one or all extensions as state machines;
- `prompt` — interpretation of the user's answers, default `storage.json` path;
- `text` — character-level helpers (Unicode trimming, decimal numbers).

`app/main.rs` is the command-line program (`import`, `list`, `extensions`,
`remove`, `uninstall`; a bare profile file means `import`): it parses
arguments, reads and writes files, launches the `code` CLI, asks the
questions, and runs the library's sessions until they finish.
