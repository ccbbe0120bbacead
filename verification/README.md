# Cipher

Cipher rotates secrets on a schedule. The API stores each secret's rotation
strategy (a single path, or blue/green paths with an active slot) and its
provider, asks the scheduler to schedule its rotation, and lets clients
register webhooks. The notificator consumes the rotation lifecycle events
(`rotation.scheduled`, `rotation.started`, `rotation.done`, `rotation.failed`)
and posts each one to the webhooks registered for its secret.

## Layout

- `src/` is the library, verified with Verus: request validation, the
  strategy and slot rules, how stored rows read back as secrets, the steps of
  creating and activating a secret, the HTTP and gRPC answers, the broker
  setup and routing keys, webhook payloads, and the delivery retry schedule.
  The use cases are written as state machines that return the next action;
  their contracts say what follows each outcome.
- `app/` runs the services around the library: `cipher api` serves the HTTP
  API and `cipher notificator` the webhook notificator. It does the I/O
  (Postgres, RabbitMQ, HTTP, configuration files) and carries out the
  library's actions.
- `tests/` holds the tests of the library.

Calls into outside crates that the library makes (`uuid`, `validator`,
`cron`, `chrono`, `tracing`) go through small trusted functions whose
contracts say what those crates do; each names the function it calls.
