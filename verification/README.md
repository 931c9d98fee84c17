# interlink

An actor framework on tokio. Services own their state and handle messages
that arrive in their mailbox; links reach a service's mailbox.

- `src/` is the verified library: mailboxes and links over tokio's
  channels (`channel`, `link`), the service context and the decisions of
  its processing loop (`ctx`), envelopes (`envelope`), messages and
  responses (`msg`), and the stream and sink services (`stream`, `sink`).
  The laws about whole runs of the processing loops are proof functions
  beside the decisions they are about.
- `app/` is the async layer on top: spawning services as tasks, running
  the processing loops, the handler traits and the envelopes that carry
  closures and futures.
- `tests/` runs the library against real tokio channels.
