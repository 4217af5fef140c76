# xtask_scaffold

Scaffolding for a Rust `api` backend (`cargo xtask new domain|extractor`,
`cargo xtask init`, `cargo xtask self-update`). Its decisions and texts are
verified by Verus; the file system, the network and the command line are
plain Rust in `app/`.

- `src/` — the verified library: identifier naming (`naming`), the `mod.rs`
  edits (`modfile`), the project skeleton (`templates`, `init`), the domain and
  extractor generators (`domain`, `extractor`), the release locations of the
  updater (`updater`), which entry of the release archive to unpack
  (`archive`), each step of the search for the repository root (`repo_root`),
  and the command-line model (`cli`). `text` holds the
  trusted `char`/`String` primitives everything else is proved against.
- `app/` — the program: argument parsing (clap), the file system, the network
  and archive handling of the self-update.
- `tests/` — executable tests of the library.
