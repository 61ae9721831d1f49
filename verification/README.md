# selector4nix

A selecting proxy for Nix binary caches: it asks every available substituter for a
NAR file at once, serves the first that has it, streams large files in parallel
byte-range chunks, and tracks the health of each substituter.

## Layout

- `src/` — the verified library (Verus): the decisions of the proxy, each with its
  contract (the per-host throttle and the check of each chunk's `206` answer stay in
  `app/`):
  - `substituter`, `lifecycle`, `laws` — substituter health, retry back-off and the
    events a health change emits, with the laws that hold across operations;
  - `chunks`, `streaming` — the schedule of a chunked download (which ranges are
    requested, when permits are released, what is passed on), the choice between a
    full and a chunked response, `Range` headers and bounded chunk bodies;
  - `nar_file`, `resolution` — candidate locations of a NAR file, the outcome of
    fetching it from several substituters, and the messages a NAR info resolution sends;
  - `credential` — credentials selected by the longest URL prefix;
  - `downloads`, `metric`, `status` — in-flight transfers and the status report;
  - `url`, `shared_map` — the outside types (`reqwest::Url`, `dashmap::DashMap`) and
    the trusted items through which the library uses them;
  - `error`, `text`, `decimal`, `sort`, `store_path` — shared helpers.
- `tests/` — tests of the library on concrete values.
- `app/` — the server around the library: command line, configuration and credential
  files, HTTP client and routes, async streams and per-host throttling.
