# lightning_sign

The keys and signatures of a Lightning node, written in Verus: the functions of `src/` state in contracts
what they return, and Verus proves that they do.

A node hands this library what it wants signed. The library derives the keys (BIP 32, BOLT 3), builds the
scripts and the digests, decides whether what it was asked fits what it holds, and signs: ECDSA for
channels whose outputs are scripts, Schnorr and MuSig2 for simple taproot channels.

## Layout

- `bytes`, `hashes`, `curve`, `tx`, `script`, `taproot`, `sighash`, `bip32`, `entropy`: what the rest is
  made of.
- `channel`, `htlc`: a channel's parameters, the keys of one commitment, and its HTLC outputs.
- `nonce`, `taproot_signer`: the heights at which MuSig2 nonces are derived, and key-path signing with them.
- `signer`, `ecdsa`, `taproot_channel`, `type_resolver`: the signer of one channel.
- `spend`, `change`, `sweep`: outputs that are ours to spend, and the transactions that spend them.
- `node`, `keys_manager`, `phantom`: all keys of a node, from one seed.
- `app/`: asynchronous sources of change scripts, a manager that threads share, and its benchmark.

## What is proved, and what is trusted

Contracts are stated over byte strings (`Seq<u8>`) and views of the types. Most functions equate their
result with a spec function of the same arguments, errors included. What relates several functions is a
public proof function beside them, or a clause of the function it is about: that no closing nonce has the
height of a splice or a commitment, that both parties of a channel aggregate to one key and their partial
signatures to one signature, that a partial signature reproduces after a restart, that no two channels get
one identifier, that a signed sweep is within the weight it paid for.

SHA-256, RIPEMD-160, the HMACs, BIP 32, the signature digests and the arithmetic and signatures of
secp256k1 come from the `bitcoin` crate, and MuSig2 from `musig2`. Each call stands behind a small function
marked `external_body`, whose doc comment names the outside function and says what is taken on trust. A
result that takes pages to state has a name (an `uninterp` spec function) in place of a definition.

A derived key can, in principle, fail to exist: a hash may exceed the group order, or two keys may cancel
out. Functions that return a `Result` report `SignerError::DegenerateKey` there. The others ask in
`requires` that the key exists, and have a sibling named `try_..` that tests it.
