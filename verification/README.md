# directopt

Planning engine for directly connected wind, solar and storage supply.

- `src/` is the verified library (Verus): parameter and curve checks, the
  Bayesian optimizer's budget, storage charging windows, the random order
  of Latin hypercube strata, the sensitivity grid, the input workbook's
  reading rules, and the data-file archive's naming, id parsing, listing
  order and base64 payloads.
- `app/` is the desktop shell and the floating-point computation: the
  hourly simulation, economics, the genetic and Bayesian optimizers, the
  Tauri commands and all file I/O. It calls the library for every rule
  above.
- `tests/` exercises the library on concrete values.
