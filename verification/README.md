# invoker

Verified core of a small function-as-a-service system built on NATS: an HTTP
trigger that forwards requests to NATS subjects, invokers that run a function
for each message and publish its output, a service registry in MongoDB (with or
without a cache in front), and a load generator.

- `src/` is verified with Verus:
  - `text`: decimal writing and reading (as `to_string` / `str::parse`),
    Unicode whitespace and trimming, lossy UTF-8 decoding.
  - `invoker`: the shell line of a run, the launcher arguments, the limit on
    runs at once, where output is published, how output is collected.
  - `stress`: the load modes, the constant and the increasing load, request
    bodies.
  - `routes`: the trigger's route table and its JSON configuration.
  - `nats_pool`: the pooled connection manager's decisions.
  - `catalog`, `injector`, `injection_call`: the service records.
  - `registry`, `registry_model`: the registry's protocol with its store and
    cache, and what it guarantees when both carry out every call.
- `app/` is the unverified shell: environment, NATS, MongoDB, HTTP, processes,
  one subcommand per program.
- `tests/` runs the library on concrete values.
