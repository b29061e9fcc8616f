# rust_connect

The logic of a daemon that speaks the KDE Connect protocol: who is found on the
local network, which links are let in or opened, whose certificate is trusted,
what a pair packet leads to, and what the volume and telephony plugins make of
the packets that they get.

`src/` is the library. Every function states what it does in `requires` and
`ensures`, and Verus proves it. Outside work (sockets, TLS, files, processes,
JSON, the clock of a timeout) is no part of it: a function takes how such work
ended and says what follows.

- `text`, `table`, `net`, `packet`, `error`: plain values that everything else
  is made of.
- `outside`: the calls into other crates, each with the contract that is believed
  of it.
- `protocol`: device ids, certificates and trust on first use, discovery by UDP
  and by mDNS, links and their generations, the packet loop.
- `plugins`: system volume in both roles, telephony, the tool catalogue.

What holds across functions is stated as proof functions whose names start with
`law_`. `tests/` runs the library on concrete values; `app/` is the ordinary Rust
that does the input and output.
