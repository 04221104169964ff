# filehub

The CAD-conversion and licensing core of the FileHub server, written in Verus.

- `src/` is the verified library. Each module states what its functions do in
  `requires`/`ensures` contracts over spec functions and views:
  - `text`, `paths`: strings and `/`-separated paths (file name, stem,
    extension, parent, join, placeholder replacement, decimal notation).
  - `mapping`, `models`, `scripting`, `filesystem`: file types, conversion
    mappings, Jupiter import/export scripts, file-name rules and archive limits.
  - `jupiter`, `config`: finding a Jupiter-Web installation from what the file
    system and registry report, and resolving the configured launcher.
  - `metrics`: counters, a bounded window of duration samples and their
    percentiles.
  - `executor`, `converter`: command lines for external tools and how their
    outcomes add up to a conversion result.
  - `processor`, `input_resolver`, `cad_plugin`: the job pipeline's decisions
    (input classification, the Jupiter retry loop, output acceptance) and the
    plugin's state and upload hook.
  - `license`, `license_mock`: checkout validation, seat reservations, pool
    counts and an in-memory license manager.
  - `worker`: job outcomes, task dispatch, the default schedule and
    conversion-job payloads.
- `tests/` exercises the library on concrete values.
- `app/` holds what runs around it: processes, the file system, the license
  library loaded at run time, the cron scheduler and serialization.
