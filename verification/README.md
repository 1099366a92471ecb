# honeycomb_rs

A small client for the Honeycomb.io batch API, written in Verus: the library
in `src/` carries contracts that Verus proves, and `app/` holds what runs
outside it.

## Layout

- `src/config.rs`: options, transmission options and configuration, their
  validation and the batch endpoint URL (dataset percent-encoded).
- `src/time.rs`: a nanosecond `Duration` with its debug text.
- `src/calendar.rs`: days since the Unix epoch to a civil date, and the
  ISO 8601 timestamp of an instant, with the uniqueness of dates proved.
- `src/fields.rs`: event fields kept sorted by name, viewed as a map.
- `src/json.rs`: JSON values as trees and the bytes they feed to the hasher.
- `src/event.rs`: events, their JSON text for the batch API, the content
  hash and the sampling decision.
- `src/batch.rs`: the batch buffer and its statistics.
- `src/retry.rs`: responses and the retry policy (exponential backoff).
- `src/transmit.rs`: the decisions of one transmission with retries, as a
  state machine that never exceeds the retry count or the time budget.
- `src/client.rs`: the client: sampling, batching, the batch body and its
  byte limit, local delivery and statistics.
- `app/`: delivery over HTTP with `reqwest`, driven by the state machine,
  and the serde form of events.

`tests/` exercises the library on concrete values.
