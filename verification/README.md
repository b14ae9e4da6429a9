# tao_ohos

An OpenHarmony windowing backend whose decisions are verified with Verus.

- `src/` is the decision core. For each event of the system it says what the
  application's handler is called with; for each request to a window, which
  calls go over the window bridge and what is remembered. `laws.rs` states what
  holds over whole series of events, windows and requests.
- `app/` reads what the system reports, asks the core, and carries out the
  answer: the event loop, the window bridge, logging, and the scaling of logical
  sizes, which is floating point.
- `tests/` runs the core on concrete values.

Floating-point numbers cross the boundary as bit patterns. The core compares and
widens them exactly (`float.rs`).

What is trusted without proof: `url::Url::parse`, the two ends of a standard
library channel, and `OhosDisplayHandle::new`.
