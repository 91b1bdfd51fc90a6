# sprout

A small HTTP service that reports a machine's GPUs, VRAM, memory and CPU, so
that a client can work out which models the machine can run.

- `src/` is the verified library: the configuration rules (defaults, API key,
  TLS paths, the bearer-token check), the per-vendor GPU bookkeeping (Vulkan
  device classification and memory budgets, NVML and Metal entries, the
  gathered and numbered GPU list) and the report itself.
- `app/` is the program around it: argument handling, the configuration file,
  the driver queries (NVML, Vulkan, Metal, the operating system) and the HTTP
  server.
- `tests/` exercises the library on concrete values.
