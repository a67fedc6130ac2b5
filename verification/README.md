# wallet_backup

Password-protected backups of an RGB wallet, with contracts that Verus proves.

A backup is `[4-byte little-endian length][public data as JSON][ciphertext]`.
The ciphertext is the wallet's state and its RGB stock as JSON, encrypted with
XChaCha20-Poly1305 under a key that scrypt derives from the password. The same
JSON, not encrypted by this library, is what goes to a versioned storage server.

- `src/` is the library.
  - `cipher`: key derivation, encryption and decryption.
  - `envelope`: putting public data and ciphertext together and apart.
  - `payload`, `stock`: the state and the stock in a backup.
  - `info`: whether a backup is needed.
  - `wallet`: the operations of the wallet.
  - `laws`: what holds of backup and restore as a whole.
  - `base64_text`, `hexadecimal`, `decimal`, `error`: texts and errors.
- `tests/` runs the library on given values.
- `app/` joins the library to a database, a snapshot mechanism and a server.

The functions that call another crate are marked `external_body`; the comment
above each says what is believed of that crate.
