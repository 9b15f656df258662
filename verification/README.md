# credential_storage

Storage and encryption of the credentials of a VRChat client: the files that
hold sign-in data are sealed with ChaCha20-Poly1305 under a 256-bit master key
that lives in the OS keychain.

File format: the magic header `VPENC1` (6 bytes), a random 12-byte nonce, then
the ciphertext with its 16-byte tag. Files from before encryption existed are
plain JSON; they are read as they are and stored again encrypted.

Layout:

- `src/` – the library, verified with Verus.
  - `envelope.rs` – the file format and its recogniser.
  - `cipher.rs` – the calls into `chacha20poly1305` and `getrandom`.
  - `cookies.rs` – the cookie file: loading a cookie store from its bytes and
    the encrypted bytes to write for a store.
  - `encoding.rs` – the base64 text form of the master key in the keychain.
  - `keychain.rs` – the calls into `keyring`, the master key's entry, the
    decision on what reading it found, and the keychain key provider.
  - `secure_store.rs` – key providers, encryption, decryption, migration, and
    the laws that relate them.
  - `storage.rs` – the stored records, the auth token in the keychain, and the
    cookie file rule.
- `app/` – the process-wide provider, the files in the data directory, and the
  serde forms of the records.
- `tests/` – tests of the library.
