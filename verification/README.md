# origin_platform

The verified core of an institutional operations platform, written in Verus.

- `src/` is the library. Every function carries a contract that Verus proves:
  the institutional error model, least-authority capability grants, the
  records exchanged by services and workflows, the engineering, governance,
  finance, security and meteorological services, component bindings and
  their lattice, the platform gateway's answers and its bounded event log,
  the catalog consistency checks, the weather app's summaries, and the
  command plans of the developer tasks (including the security book's link
  and chapter checks). Properties that relate several operations are stated
  as public proof functions whose names begin with `law_`.
- `tests/` runs the library on concrete values.
- `app/` is the developer task runner: it runs command plans as processes,
  reads files, parses TOML and JSON, and formats floating-point values.

Outside crates called from the library sit behind small trusted wrappers:
`sha2` for payload digests and `chrono` for RFC 3339 timestamps.
