# hadron_core

The detection core of the Hadron antivirus engine, written in Verus: every
function in `src/` is verified by Verus against its `requires`/`ensures`
contract, where it has one (the constructors of stateless analyzers have
nothing to state).

## Layout

- `src/` — the verified library:
  - `signature`, `pe_analyzer`, `heuristic`, `memory_scanner`, `file_utils`:
    signature matching, PE parsing, heuristic rules, memory scanning and
    file classification;
  - `sandbox`: the sandbox registry, behaviour scoring and execution reports;
  - `email_scanner`, `mapi_integration`: the email attachment policy and the
    simulated mail store;
  - `removable_media`, `driver`, `notifications`, `mock_api`: devices, the
    kernel driver's state, user notifications and the offline API stand-in;
  - `config`, `logging`, `types`, `traits`, `error`: configuration, event
    logging, the shared data model and errors;
  - `text`, `paths`, `pairs`, `ranking`, `float_bits`, `clock`: helpers on
    characters, paths, key/value lists, ordering, floating-point bits, and
    the trusted calls for time and identifiers.
- `tests/` — tests of the library on concrete values.
- `app/` — ordinary Rust around the library: file and process I/O, the
  tracing output, configuration files, the YARA matcher, the
  floating-point figures and the asynchronous service interfaces.

Calls into outside crates (hashing, UUIDs, time, JSON values) go through
small trusted wrappers in `src/`, each with a doc comment that says what its
contract claims.
