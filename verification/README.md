# obcrypt

Bytes-in / bytes-out authenticated encryption over a 64-byte master key,
with its behaviour stated in `requires` / `ensures` contracts and proved.

Schemes: `dsiv` / `psiv` (AES-256-SIV, deterministic / probabilistic, full
master key), `dgcmsiv` / `pgcmsiv` (AES-256-GCM-SIV under an HKDF-derived
key), and the testing-only `mock1` (identity) and `mock2` (reversal).

## Layout

- `src/primitives.rs` — the calls into the RustCrypto, `rand`, `hex` and
  `zeroize` crates, each with the contract the library relies on, and names
  for the AEAD and HKDF results.
- `src/format.rs` — what each scheme's output is, what decryption returns,
  and the laws relating them (determinism, output layout).
- `src/schemes/` — one module per scheme: `encrypt`, `encrypt_into`,
  `decrypt`, `decrypt_into`.
- `src/lib.rs` — dispatch by `Scheme`.
- `src/key.rs`, `src/scheme.rs`, `src/error.rs`, `src/keygen.rs` — keys
  (raw and hex forms), scheme names, errors.
- `src/by_name.rs` — operations taking the scheme by name, as bindings
  receive them, and C ABI status codes.
- `app/` — the C ABI (`extern "C"` entry points) and an error type with
  `Display` / `std::error::Error`.
