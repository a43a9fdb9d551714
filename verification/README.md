# beacon

The decision logic of the beacon assistant daemon, written in Verus with its
contracts proved: message routing and rate limiting, agent registry and channel
bindings, the agent-harness turn, cron scheduling, configuration editing and reload
classification, link safety checks and page-text extraction, channel message
handling (signatures, encodings, webhooks), attachments, skills and health checks.

- `src/` is the verified library. Calls into outside crates (regex, base64, hmac,
  url, croner, chrono, toml, scraper, ...) stand behind small trusted wrappers whose
  doc comments say what is assumed of them.
- `tests/` exercises the library on concrete values.
- `app/` is the unverified shell around it: network and file I/O, async runtimes,
  serde copies of the library's types, and floating-point cost estimates.
