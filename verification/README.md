# reallyme-crypto

The operation layer of the ReallyMe cryptography facade, verified with Verus.

The facade routes every cryptographic operation (hashing, AEAD, MAC, AES key
wrap, key derivation, signatures, key agreement, KEM, HPKE, randomness) through
one semantic owner per operation family. This crate holds the decisions those
owners make, each with a contract that Verus proves:

- `operations`: the typed, redacted operation error; algorithm gates for
  signatures, key agreement and KEMs; input policies (HPKE input keying
  material floor, PBKDF2 work factor, SLH-DSA derivation input, fixed-width
  public keys); constant-time equality; and the classification of every
  primitive failure into an operation error.
- `aead_error`, `hmac`, `aes_kw`, `hkdf`, `kmac`, `concat_kdf`, `argon2id`,
  `kem_error`, `key_agreement_error`, `dispatch`: the mapping of operation
  errors back into the facade's `CryptoError` and `AlgorithmError`, with the
  AEAD parameter tables.
- `operation_contract`: the structured request boundary, covering algorithm
  selection from request identifiers, signature routing, RSA verification
  plans, HPKE suite code points, KDF output lengths and versions, verification
  results, and the mapping of operation errors onto stable wire errors.
- `laws`: properties that relate several of these functions, such as the
  classification round trips and the identifier round trips.

`app/` holds the adapter code around the library: the calls into the
primitive crates, protobuf decoding and encoding, and the zeroizing owners of
secret outputs. `tests/` exercises the library on concrete values.
