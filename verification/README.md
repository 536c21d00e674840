# retsu

A priority queue service: clients create queues, enqueue messages with a
priority and a time-to-live, lease the next message with a receipt handle,
and acknowledge deliveries. Background workers requeue timed-out deliveries,
dead-letter exhausted ones, remove expired messages, purge old dead letters
and publish queue state metrics.

## Layout

- `src/` is the verified library, written in Verus. It holds the domain
  rules (queue names, settings, messages and priorities), the use cases as
  decisions around the repository (validate, name the call to make, turn the
  reported outcome into a result), the HTTP problem mapping, the module and
  worker catalog, the bounded in-process caches (entry count, total weight
  and time-to-live, oldest insertions evicted first), the lookup protocol of
  the shared queue-details cache, the decoding of database rows, metric attributes and counters,
  and the scheduling decisions of the workers. Laws that relate several
  functions are stated as public proof functions next to them.
- `app/` is the host: the HTTP server, the PostgreSQL repository, the cache
  clients, telemetry and the worker loops. It performs the I/O and hands the
  library plain values.
- `tests/` exercises the library from outside.
