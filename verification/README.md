# made_adapters

The execution and wire-mapping adapters of MADE, with their decisions
verified by Verus.

- `src/` is the verified library. It decides which local-execution
  configurations are admitted, frames and digests a direct-exec request,
  turns what a process run produced into a receipt, admits OCI policies and
  containers, checks durable operation records and script results, drives the
  repository-script protocol, reads and writes budget measurements,
  authorization scopes, timestamps and the other wire choices, and classifies
  designed ceremony stages. Calls into `sha2`, `time` and `std::path` stand
  behind small trusted wrappers whose contracts say what those functions do.
- `app/` is the host side: spawning and stopping processes, draining their
  output, reading and sealing files, and driving Docker. It hands the library
  what it observed and does what the library decides.
- `tests/` exercises the library on concrete values.
