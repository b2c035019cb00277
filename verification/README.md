# asymptote_launcher

The decision-making core of a small Minecraft launcher, verified with Verus.

`src/` is the library:

- `rules.rs` – the rules in version manifests (OS name, architecture, OS
  version bounds, launch features); among the rules whose conditions hold,
  the last one decides.
- `version.rs`, `numeric.rs` – dotted version strings: parsing (`u32`
  pieces, as `str::parse` reads them) and comparison with zero padding.
- `os_version.rs` – the OS version in the output of the Windows `ver`
  command.
- `arguments.rs` – argument templates selected by their rules and filled in
  with launch values, the class path, and the whole launch plan.
- `install.rs` – where each file goes and where it comes from, and the
  decisions of one file's download (fetch, verify, keep, remove, retry,
  give up) as a state machine.
- `digest.rs` – SHA-1 in lower-case hex, through the `sha1` and `hex` crates.
- `manifest.rs`, `paths.rs`, `text.rs` – the data of the manifests, path
  joining and string helpers.

`app/` is the program around it: HTTP with `reqwest`, files with `tokio`,
JSON with `serde`, the game directory with `dirs`, and the process that
starts Java.  It performs the actions that the library decides.
