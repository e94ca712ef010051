# statusforge

The verified core of StatusForge, a stream-status companion: it detects the
game being played, keeps a library of game metadata, pushes the stream
category to Twitch and Kick, and builds the status the overlays show. The companions
(Blipy, Spark, the Joystick.tv bot) and the metadata signing tool share the
same library.

- `src/` — the library, written in Verus; Verus proves the contract of each
  of its functions, except the small trusted wrappers that call the outside
  crates (base64, sha2, ed25519-dalek, rand, urlencoding, hostname, keyring)
  and a few std string functions, whose contracts are believed.
  - `config` — settings, their defaults, validation and sanitising.
  - `library` — the game library: merging scanned metadata, manual edits and
    their locks, exiling and un-exiling apps.
  - `scanner`, `engine` — the detection waterfall, the detection loop's
    state machine and the overlay status.
  - `metadata` — the metadata scan: requests, per-source answers, merge.
  - `pusher` — which category id each platform gets, and when to retry.
  - `server` — the overlay server's token and file checks.
  - `commands` — the desktop commands' rules (data directory, keychain
    migration, argument checks).
  - `joystick`, `joystick_oauth` — the Joystick.tv companion and its login.
  - `blipy`, `spark`, `host` — the gaming-PC agents.
  - `signer` — the metadata signing tool.
  - `text`, `assoc`, `float_bits`, `rng` — strings, string-keyed maps,
    binary64 bit patterns, randomness.
- `tests/` — tests run against the compiled library.
- `app/` — the input and output around it: JSON files, keychain, HTTP, UDP
  and the signing tool's command line.
