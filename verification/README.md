# baz_printing

Client-side logic of two printing protocols, with proofs of its contracts.

- `src/lpd/`: the Line Printer Daemon protocol (RFC 1179). Command codes,
  the bytes of each command and file header, the control file of a job, the
  check of the daemon's acknowledgement, and `LpdExchange`, a state machine
  that plans each exchange (what to send, when to await an acknowledgement)
  and decides, from what the connection reports, whether it goes on or fails.
- `src/ipp/`: the Internet Printing Protocol (RFC 8010/8011). Delimiter and
  value tags, status codes, operation and request ids, the encoding of
  operation headers and attributes, and the parsing of `ipp://` and
  `ipps://` printer URLs.
- `src/digits.rs`, `src/bytes.rs`: decimal and hexadecimal rendering, byte
  string building.

`app/` holds what talks to the network and the command line: the LPD client
over TCP (it runs the exchanges of `src/lpd/session.rs`), the IPP client over
HTTP, rkyv serialization of the operation headers, and the `lpd_client`
command.
