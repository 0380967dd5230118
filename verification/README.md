# picocodex (verified core)

The verified core of the Picocodex agent library, checked with Verus.

- `src/error.rs`: the error returned at the library boundary, which Responses
  failure lies behind it, and its text.
- `src/responses.rs`: the Responses failures the agent reports.
- `src/runtime.rs`: spawning the private agent driver onto the caller's Tokio
  runtime.
- `src/schema.rs`: narrowing a generated JSON Schema document to the
  web-search tool's parameter schema.
- `app/`: the standard error trait on the error types, middleware-boxed
  failures, and schema generation, which need outside traits and derives.
