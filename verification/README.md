# se-ingestion-server

The decisions of an Arrow Flight SQL ingestion service, verified with Verus.

- `src/` is the verified library: the service options, the admission limits of
  a stream (`permit`), the metadata checks and acknowledgements (`metadata`),
  the opening of a stream (`handshake`), the record batch stream (`stream`),
  and the statuses the service replies with.
- `app/` runs them as a Flight SQL service: it decodes Flight data and JSON
  metadata, waits on the network, the running writes and shutdown, and sends
  the replies.
- `tests/` exercises the library on concrete values.
