# marketplace

A prover marketplace on Nostr: clients post Fibonacci proving requests,
provers announce themselves as NIP-89 application handlers with their payment
terms, and NIP-90 job requests and results tie the two together.

- `src/` is the verified library: payment terms (`payment`), the marketplace
  handler record (`marketplace`), proving requests (`request`), JSON string
  literals and their decoding (`json`), secret keys read from their bech32
  text (`keys`), event drafts with the NIP-78 app data event and the NIP-90
  job request and job result rules (`events`), and the
  decisions of the listeners and of the client's proving session
  (`sessions`).
- `app/` is the program around it: settings, keys, the Nostr client, signing,
  sending, the notification loops, serde copies of the library's types, and
  the calls into the askeladd workspace crate (settings loader, Stwo prover
  and verifier), which is not a dependency of this package.
