# amc_launcher

A Minecraft launcher whose logic is a library verified with Verus.

- `src/` — the verified library. Each module states its behaviour in
  `requires` / `ensures` contracts over mathematical models (`Seq`, `Map`,
  `Multiset`, `int`) and proves it: localisation, accounts and offline UUIDs,
  launcher paths, Mojang's rules, version metadata and parent merging, JVM and
  game argument building, asset and library download planning, the server
  list ping framing, mod metadata and the mods folder, the Modrinth and
  CurseForge queries and replies, skins, and the decisions of every page of
  the interface. Calls into outside crates (hashing, UUIDs, the clock, JSON
  text) go through a few small trusted wrappers whose contracts say what the
  outside code does.
- `tests/` — tests of the library on concrete values.
- `app/` — a command-line program around the library: file and network I/O,
  the download engine, process spawning, and the serde forms of the library's
  types.

Laws that span several functions are public proof functions, for example
`server::varint_roundtrip`, `mods::toggle_twice_restores`,
`i18n::code_parses_back`, `auth::stored_account_is_active`,
`auth::removed_account_is_gone` and `version::merge_libraries_laws`.
