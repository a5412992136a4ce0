# c2rust

`c2rust-xw` runs the c2rust tools (`c2rust-init`, `-build`, `-test`, `-clean`,
`-translate`, `-merge`) found in `$C2RUST_HOME/bin`.

- `src/` is the verified library: it plans a run (tool name, arguments,
  default environment variables), locates the installation, the tools, the
  libraries and the Python directories from what the caller observed on disk,
  and maps how a tool ended to an exit status. `src/laws.rs` holds the proved
  properties that relate these functions.
- `app/main.rs` is the command-line program: argument parsing with clap,
  reading the environment, inspecting the file system and starting the tool.
- `tests/` exercises the library on concrete values.
