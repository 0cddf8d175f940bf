# hc_notifications

Routing logic for a set of Holochain zomes that deliver notifications to
agents: agents announce themselves as notification providers, requesters pick
an available provider and forward requests to it, and providers keep the keys,
credentials, FCM tokens and email addresses they need in link registries.

- `src/` is the library, verified with Verus. `host.rs` holds the calls into
  the Holochain host (`hdk`); every other module is proved against their
  contracts. Each call into the host also adds an event (the request and the
  answer) to a ghost `HostLog` that the zome functions take, so their
  contracts say which requests they make, in which order, and how their
  result follows from the host's answers (`effects.rs` reads the log). `hashes.rs` and `types.rs` hold the plain values the logic works
  on; `requests.rs` the requests handed to the host (zome calls, capability
  grants, link queries, writes and deletions), each built by a function whose
  contract fixes every field; `registry.rs`, `tags.rs` and `calls.rs` the
  shared registry and zome-call logic, with the functions that decide on what
  the host answered; one module per zome holds that zome's functions, and
  `runner.rs` the decisions of the email provider's runner.
- `tests/` exercise the library, with `hdk`'s mock host standing in for a
  conductor.
- `app/` holds what needs serde or other outside traits: the encoded forms of
  the values, the zome functions that decode, encode and emit, the conversion
  of errors to `WasmError`, and the email provider's mailer and command line.
