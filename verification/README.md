# herdr-jcode

A Herdr plugin that reports Jcode lifecycle state (`session_start`, `turn_start`,
`turn_end`, `session_end`) to the pane Jcode runs in, and installs or removes its hook
command in Jcode's `config.toml`.

The library under `src/` is verified with Verus:

- `config`, `hooks`, `document`, `laws`: the configuration editor. `edit_config` edits
  the TOML text through `toml_edit`; its contract states the result over a model of the
  hooks table, and states that the text outside the hooks item and the decor (with its
  comment) of each hook value are kept. `laws` proves, on the hooks-table model, what
  setup and removal promise together: a second setup or removal changes nothing more,
  removal undoes setup (a string that setup made into an array, marked by the comment
  `# herdr-jcode: was a single hook` after the command, comes back as the string; any
  other array stays an array), and keys
  of the hooks table other than the four events are kept. Whether rendering and parsing
  again give back the same text is `toml_edit`'s matter, so these laws are not stated
  byte for byte.
- `lifecycle`, `lifecycle_laws`: the hook report as a step function from Herdr's last
  answer to the next CLI call or the final report, with the laws it keeps (the plugin
  is checked before any pane is read, foreign panes are left alone, native identity
  is reported only to a host that detects Jcode, ...).
- `herdr`, `json`: what is read from Herdr's JSON answers and the commands sent to it.
- `doctor`, `model`, `cli`: the diagnostic, the model metadata report and the command
  line.

`app/` is the binary: it reads the environment, runs Herdr's CLI with a time and size
limit, performs the locked, atomic file update, and prints the library's decisions as
JSON.
