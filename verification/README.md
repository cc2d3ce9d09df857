# nkeys

Ed25519 key pairs in the text encoding of NATS 2.0+ security, verified with
Verus.

A public key is written as one prefix byte naming the key type (server,
cluster, operator, account, user, module or device), the 32 key bytes and
a CRC-16 checksum (XMODEM, low byte first), all in unpadded base32; it starts with the letter of its type.  A seed is
written as two bytes that carry the seed marker and the type, the 32 seed
bytes and the checksum; it starts with `S` and the letter of its type.

Layout:

- `src/keypair.rs`: key types, key pairs, reading and writing both texts,
  signing and verifying; the contracts are stated over a model of a key pair
  (type, seed, public key) and over spec functions of the two encodings.
- `src/crc.rs`: the checksum, proved against a bitwise definition.
- `src/encoding.rs`: unpadded base32 defined bit by bit, proved
  injective so that decoding gives back what was encoded; the calls into
  `data_encoding` are trusted to compute it.
- `src/crypto.rs`: the trusted items around `signatory` (Ed25519) and
  `rand` (fresh seeds).
- `src/sealing.rs`: messages sealed for a public key with ECIES
  (`ecies_ed25519`), which open with the matching secret.
- `src/error.rs`: error kinds and descriptions; `src/cli.rs`: the words of
  the `nk` tool.
- `app/`: the `nk` command-line tool (key generation, and the exchange of
  signed, encrypted messages over TCP), which does the file and network work.
