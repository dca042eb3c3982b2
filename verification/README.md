# obsidian

A command-line suite that tunes Windows 11 for privacy, gaming, AI and
development work, and can roll its changes back.

The decisions the program makes are a library verified with Verus; the program
around it performs the I/O.

- `src/` — the verified library: how the tool reads what PowerShell and the
  system report (JSON documents, driver scans, version lines), the exact
  commands each module runs and how a failed command is treated, the profiles
  and the plan an `apply` follows, snapshot naming and the choice of the
  snapshot to restore, the text of the execution report, the interactive menu
  and the language setting. Each public function states its result exactly;
  the `law_*` proof functions state what holds across functions: a dry run
  changes nothing (no elevation, capture, snapshot or report; privacy and
  gaming changes carry `-WhatIf`; the AI and developer modules run no
  command), a real run captures each module's state right before changing it
  and covers everything the AI, developer, gaming and privacy commands change
  (the privacy policy call aside), the ultimate profile covers every other one, the
  power profile never lets the machine sleep, unpacked scripts are fresh and
  missing ones are unpacked again, restore picks the latest snapshot, …
- `app/` — the executable: argument parsing, running processes, files,
  terminal colours, floating-point memory and CPU figures, and serialisation.
- `tests/` — tests of the library on concrete values.

Two outside calls are trusted rather than proved: `serde_json::from_str`
(parsing a JSON document) and `str::to_lowercase`; their contracts name their
results without restating them.
