# fledge-plugin-corvid-agent (verified core)

A [Fledge](https://github.com/CorvidLabs/fledge) plugin that talks to a
CorvidAgent server. The library under `src/` holds the plugin's logic and is
verified with Verus; the program under `app/` does the input and output.

- `src/text.rs`: string helpers (trimming, padding, joining, decimal numbers,
  shell quoting, UTF-8 byte lengths) with specifications over `Seq<char>`.
- `src/json.rs`: a model of JSON documents and the lookups the plugin makes;
  parsing and writing JSON is done by `serde_json`.
- `src/flags.rs`: the global flags, the flags of `work create` and of `config`.
- `src/protocol.rs`: the plugin protocol's messages, request ids, and the
  requests that run shell commands (`curl`).
- `src/reports.rs`: what each command shows for the server's answers.
- `src/session.rs`: a run of the plugin as a state machine; the host feeds it
  the replies to its requests and sends what each step hands out.
- `src/laws.rs`: properties of the plugin as a whole.

`app/main.rs` reads the protocol on stdin, writes it on stdout, and renders
the few numbers that need floating point (uptime, session cost).
