# fifo_ipc

A password bridge between a command-line client and a daemon over named pipes.

* The daemon creates `/tmp/pw_bridge_requests`, reads JSON requests from it one
  line at a time, and answers each on the response FIFO the request names, as
  long as that FIFO lies inside `/tmp` (its path starts with `/tmp/` and has no
  `..` component).
* The client creates its own response FIFO `/tmp/pw_resp_<pid>_<millis>`, sends
  a request naming it, and prints the daemon's answer.

Layout:

* `src/` — the verified library: message types and framing
  (`protocol`), the daemon's decisions (`daemon`), where a response FIFO may lie (`path`), the client's decisions
  (`client`), request-FIFO setup steps (`fifo`), the older flat wire format of
  the single-program bridge (`bridge`), decimal rendering (`decimal`), text
  primitives (`text`), the wall clock (`clock`), and properties spanning client
  and daemon (`laws`).
* `app/` — the program: `daemon` and `get --account NAME` commands, doing the
  FIFO I/O and the JSON encoding with serde. Run as `onepw_cli_bridge` it speaks
  the flat wire format of the single-program bridge.
* `tests/` — tests of the library.
