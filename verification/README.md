# cc_unzip_media

Copies the media files of a directory tree into another directory,
extracting the zip and rar archives found on the way, with either end
optionally reached over the network (`-n`).

- `src/` is the library, with contracts and proofs: command-line
  validation, credential entry, SSH target parsing, reading zip archives
  entry by entry, and the decisions taken while walking a tree (the route a
  transfer takes, what is done with each file, when a failed copy is
  retried). How a path splits into components differs between Unix and
  Windows, so the decisions that rest on a file's name and extension are
  stated exactly for paths that both read alike (no `\`, no `:`, not
  starting with `//`, ending in a name other than `.` and `..`), and for
  other paths only as far as both agree.
  - `text.rs` models trimming, decimal parsing and lowercasing of text;
    `pathnames.rs` the queries asked of `std::path::Path`.
  - `zipmod/` holds the current walk, `utils/` the older one and the SSH
    target parser.
- `app/` is the program: terminal prompts, reading and writing files, rar
  extraction (`unrar`) and the SSH session (`ssh2`).
- `tests/` exercises the library on concrete values.
