# staged_key_package

Verified construction of MLS KeyPackages (RFC 9420) that carry an externally
derived binding.

A KeyPackage is prepared first: its keys are generated, its leaf is signed and
its to-be-signed content is frozen. The canonical binding bytes (the TLS
encoding of the KeyPackageTBS without the binding extension) are handed out,
the binding computed over them is inserted as exactly one top-level extension
of a designated unknown type, and only then is the outer KeyPackage signature
produced and the bundle stored under its hash reference. A verifier parses and
validates the KeyPackage and recomputes the same bytes.

Layout of `src/`:

- `ciphersuite`, `extension_type`, `errors`: plain values and error types.
- `tls`, `extensions`, `leaf_node`, `key_package`: the structures and their TLS
  encoding as spec functions, with executable encoders proved against them.
- `codec`, `structure_codec`, `decoding`: decoding as spec functions, the
  proofs that decoding inverts encoding, and executable decoders.
- `staging`, `builder`, `staged`: the staged validation (first error wins),
  the one-shot builder and the prepare / bind / finalize state machine.
- `key_package_in`: decoding of received KeyPackages and their validation.
- `storage`: the bundle storage and the provider.
- `crypto`, `clock`: the trusted boundary to `openmls_rust_crypto`,
  `openmls_basic_credential`, `openmls_traits` and the system clock.
- `laws`: properties of the library as a whole.

`app/main.rs` runs the whole flow once: prepare, bind, finalize, encode, decode,
validate and recompute.
