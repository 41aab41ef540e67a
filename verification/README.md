# xlm_ns

A Stellar name service (`timmy.xlm`) with its contract logic, client SDK and
command-line tool, written in Verus: the behaviour of each library function
is stated in `requires` / `ensures` and proved.

## Layout

- `src/` — the verified library.
  - `validation`, `text`, `constants`, `pricing`: labels, names, owners,
    registration periods, fees and expiry arithmetic.
  - `registrar`, `resolver`, `nft`: the contracts as state machines over
    plain values, with the laws they keep (what a read gives back of a
    write, what every operation preserves) as public proof functions.
  - `str_map`: a small string-keyed map with distinct keys.
  - `sdk`: the client's request validation, prepared submissions, errors,
    retry schedule, network checks and signing keys (strkey and ed25519 are
    reached through a few trusted wrappers in `sdk/keys.rs`).
  - `cli`: configuration layering and validation, and the portfolio listing
    as a state machine that the command loop drives.
  - `monitor`: the integer counters of each health poll.
- `tests/` — tests of the library on concrete values.
- `app/` — the `xlm-ns` binary: argument parsing, file and network I/O, the
  asynchronous RPC client, and the floating-point health thresholds.
