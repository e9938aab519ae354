# infernal-taskmaster-simple

A minimal FIFO scheduler service for the infernal-law governance kernel, with
its decisions written and proved in Verus.

The kernel owns correctness: durable requests, routes, authorization, claims,
leases and fencing. It does not decide which eligible unit of work runs next;
that is this service. It lists the routes the kernel reports as eligible for
its own identity, proposes a claim for the oldest one, and takes the kernel's
answer as the last word. A lost race is an outcome, not an error.

## Layout

- `src/` is the library: functions from plain values to plain values, each with
  a proved contract. It touches no file and no network; of the machine it reads
  the wall clock and draws random request identifiers.
  - `scheduler`: the FIFO policy, over any kernel behind `KernelPort`.
  - `claims`, `routes`, `instance_lease`: what the kernel is told and what its
    answers mean.
  - `kernel_client`: every call down to the byte, and how long its signature
    is good for.
  - `config`: startup, from environment variables to a configuration, as
    stages that each name the one thing they need done.
  - `run`: the endless loop, as a function from what happened to what is next.
  - `challenge`, `identity`, `numbers`, `text`, `clock`: the values the others
    are made of.
- `app/` is the process around it: variables, files, signing, sending, JSON
  bodies and the log.
- `tests/` runs the library on concrete values.

## Configuration

- `KERNEL_AUTHORITY` (required): the kernel's host and, if needed, port.
- `TASKMASTER_SERVICE_ID` (required): this service's identity, a UUID.
- `CLAIM_LEASE_SECONDS` (default 300): the lease proposed with each claim.
- `POLL_INTERVAL_SECONDS` (default 5): how often to look for eligible routes.
- `KERNEL_CA_CERT_PATH`: a PEM certificate authority to trust as well.
- `ENROLLMENT_CHALLENGE`: enrolls this process at startup; then
  `SERVICE_ENDPOINT` and `POD_UID` are required, and `WORKLOAD_TOKEN_PATH` says
  where the workload token stands.

## What is taken on trust

A few outside functions are believed rather than proved: integer parsing and
`str::trim` of std, the wall clock, `serde_json::to_vec` on an integer, the
unpadded base64url decoder of `base64`, and parsing and drawing a UUID with
`uuid`. Each stands behind one small item whose doc comment says what is
claimed of it.
