# novaflow

A web application firewall. Policy rules (regular expressions tried on the
URI path, the headers and the body) decide which requests are refused; the
rest are answered as health checks or routed upstream, first by host name
(domain routes), then by path prefix (virtual servers).

- `src/` — the verified library (Verus): configuration types, rule
  matching (`request::filter`), routing (`domain`, `virtualserver`) and the
  per-request decisions as a small state machine (`request::handler`), with
  the laws of the firewall proved as proof functions beside them.
  `src/outside.rs` holds the trusted calls into `regex`, `uuid` and std.
- `app/` — the server: command line, YAML loading, logging, TLS, sockets,
  and the upstream calls that carry out the library's decisions.
- `tests/` — tests of the library on concrete requests and configurations.
