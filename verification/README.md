# usernotifications

Safe Rust bindings for Apple's `UserNotifications` framework on macOS, with
the computational core verified by Verus.

## Layout

- `src/` — the verified library: option sets and their bit-set laws, the raw
  framework enums, the notification data model (content, triggers, actions,
  categories, attachments, requests, notifications, responses, settings) with
  its builders, the payloads exchanged with the Swift bridge and their
  encode/decode functions with round-trip lemmas, trigger-interval
  validation, error mapping, and the decision on what a center delegate is
  told about a bridge event.
- `app/` — ordinary Rust around the library: the C declarations of the Swift
  bridge, JSON encoding through serde copies of the payloads, the center,
  delegate and extension-simulator plumbing, and the async API.
- `tests/` — tests of the library.

## Floating-point values

The verified library holds no floating-point numbers. Intervals, volumes,
relevance scores, geometry and colours are held as the IEEE-754 bit patterns
of their values in `F64Bits` / `F32Bits` (`src/float_bits.rs`). Their `==`
compares the values as `f64` / `f32` do: a NaN equals nothing, and `0.0`
equals `-0.0`. Dates cross the bridge as `f64` seconds since the Unix epoch;
that conversion lives in `app/`.
