# peleka

Zero-downtime container deployment for Docker and Podman over SSH, with its
core verified by Verus.

- `src/` is the verified library: configuration and its destinations, service
  names, network aliases and image references, runtime detection, the requests
  sent to the container runtime and the reading of its replies, the deploy
  lock protocol, the blue-green deployment steps, health checking, rollback,
  orphan cleanup, hooks' environment, error texts and exit codes. Calls into
  bollard, chrono, gethostname, nonempty and urlencoding stand behind small
  trusted wrappers whose contracts say what those crates do.
- `app/` is the command-line program around it: argument parsing, reading the
  YAML configuration, SSH sessions and socket forwarding (russh), the runtime's
  HTTP API (bollard), running hook scripts, and printing.
- `tests/` exercise the library on concrete values.
