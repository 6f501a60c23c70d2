# pkg-builder

Builds Debian packages of upstream software in clean sbuild chroots from a
single `pkg-builder.toml`, checks them with lintian, piuparts and
autopkgtest, verifies output hashes, and updates a package to a new
upstream version.

Layout:

- `src/` — the library, verified with Verus: configuration and its
  validation, the packaging steps and the arguments of every tool run,
  checksums, version comparison, changelog entries, version substitution in
  package files, the patch-testing state machine and the rewriting of
  `pkg-builder.toml`. Calls into `regex`, `sha1`, `sha2`, `shellexpand`,
  `chrono`, `semver` (through `cargo_metadata`) and `toml_edit` stand behind
  small trusted wrappers whose contracts say what is assumed of them.
- `app/` — the `pkg-builder` command: argument parsing, reading the
  configuration files, running the tools, file-system and network work,
  driven by the library's decisions.
- `tests/` — tests of the library.
