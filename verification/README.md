# grok_zh

The verified core of the Simplified Chinese community build of Grok Build,
written in Verus.

- `src/` is the library. Its functions carry `requires` / `ensures`
  contracts that Verus proves, apart from the small trusted wrappers
  described below, whose contracts are believed:
  - `product`, `update_policy`: the distribution identity and which update
    sources a build may use;
  - `semantic_version`, `version`, `version_order`: SemVer and the
    community `A.B.C.N` release versions, their parsing, printing and order;
  - `community_release`: the Releases API rules (channels, immutable
    releases, the per-platform asset contract, digests);
  - `download`, `digest`: the checks on an asset download (host policy,
    declared size, SHA-256);
  - `package`, `manifest`, `zip_layout`, `extraction`, `tar_scan`: the
    verification of a release package (exact layout, inner
    `SHA256SUMS.txt`, per-file hashes, tar member rules);
  - `locale`, `tips`, `worktree`, `search_tool`: localized UI text.
- `tests/` exercises the library on concrete values, including whole ZIP
  and tar.gz packages built in memory.
- `app/` is the unverified I/O around it: GitHub requests and downloads,
  reading archives from disk, and the serde/clap copies of library types.

Calls into `semver`, `sha2`, `url`, `unicode-width` and a few `std`
functions sit behind small trusted wrappers (`#[verifier::external_body]`);
their contracts state what the outside code does and are not proved.
