# proxy_server

An HTTP/1.1 reverse proxy. Requests accepted on plaintext or TLS listeners
are forwarded to backends picked in round-robin order; a backend that cannot
be reached or that fails the exchange is answered with 502 Bad Gateway.
Every connection has two read deadlines: an inactivity timeout while it waits
for a request, and a fixed deadline, counted from a request's first byte, for
its headers.

Layout:

- `src/` is the verified library. `cluster` holds the round-robin
  picker, `timeout` the read-deadline state machine, `proxy` the exchange of
  one request as a state machine, `config` the validation of a configuration
  file, `tls` the OpenSSL acceptor and ALPN selection, `inbound` what binding
  a listener takes, `text` and `io` small string and I/O-error helpers.
- `app/` is the server program around it: sockets, hyper, tokio and the
  TOML file, driving the library's state machines.
- `tests/` exercises the library on concrete values.

Usage: `server <listen_addr> <backend_addr>...` or `server <config.toml>`.
