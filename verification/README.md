# playwright_rs

The verified core of a Rust client for the Playwright browser-automation
protocol, written in Verus.

- `src/` is the library: locator selectors, URL globs, the decisions of
  auto-retrying assertions and their messages, locator-handler accounting,
  route tables, event registries, the routing of page and browser-context
  events and the order their handlers run in, page and context state,
  navigation parameters, option builders and protocol parameters, response
  parsing, exposed-callback lookup, the driver download coordinates, and
  picking the Node executable and licence out of the Node archive. Its functions carry
  `requires`/`ensures` contracts that Verus proves, except a handful of
  trusted wrappers (`#[verifier::external_body]`) that only make one outside
  call and whose contracts say what the callee documents: `regex` (compile,
  match), `base64` (decode), `zip`, `flate2` and `tar` (reading archive
  members), `tokio`'s one-shot channels (create, send), and
  std's `String::push`, `Duration::from_millis` and `Duration::as_millis`.
- `app/` is ordinary Rust around the library: serde copies of its types,
  reading event parameters and initializers out of JSON, writing files, async delivery of
  events to handlers along the library's plans, polling, option structs that
  carry floats, screenshot comparison (floating point), unpacking the npm
  tarball and writing the Node files the library picks.
- `tests/` exercises the library on concrete values.
