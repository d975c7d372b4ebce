# alfalfa

The verified core of the AlfAlfa desktop shell. `src/` holds the library
that Verus checks: the path layout under `~/.alfalfa`, the XDG overrides for
the opencode server, the identity configuration and its JSON text, the
project journal and its dated overview, the decision to write only missing
files, and the login-shell probe. `app/` holds the Tauri commands and the
file, environment and process work around them.

Paths are text joined with `/` by the rule `Path::join` follows on Unix.

## What is trusted

- `layout::home_dir` calls `dirs::home_dir`; it is trusted to give no empty
  path. A home that is not valid UTF-8 is read lossily.
- `shell::decode_utf8_lossy` calls `String::from_utf8_lossy`; its result is
  named `utf8_lossy`.
- `config::to_json_pretty` builds a `serde_json` value from the document and
  calls `serde_json::to_string_pretty`; its text is named `json_pretty`, and
  it is trusted to succeed, as serde_json does for string-keyed values.
