# cubeb

Rust bindings for the cross-platform audio library Cubeb, with the library's
logic verified by Verus.

- `src/` is the verified library: the error kinds and how status codes of the C
  library decode to them, the enums of the C interface (sample formats, speaker
  layouts, device states and types, log levels) with their conversions to and from
  the raw values the interface uses, stream parameters, and the decisions taken on
  the answers of context queries, including the order in which a context is
  asked for the parameters it prefers and where that stops.
- `app/` holds what talks to the C library itself: the declarations of its
  functions, the context handle, the log callback, and copies of the error types
  that carry `Display` and `std::error::Error`.
- `tests/` runs the library on concrete values.
