# leanvm_xmss

XMSS signatures and their aggregation behind a C-style interface, verified with Verus.

The library decides what a request of the interface comes to: which arguments are accepted and
in which order they are checked, what is handed to the signature scheme and to the proof system,
what becomes of their answer, and which status code and which bytes the caller gets. The scheme
and the proof system themselves are arguments of the functions that need them.

- `src/` is the library. `error`, `input` and `memory` hold the status codes, the checks of plain
  values and the output buffer; `handles` and `collect` the records that callers bring and how
  they are gathered; `keys`, `codec`, `verifying`, `proving`, `last_error` and `wipe` the calls;
  `laws` what holds between calls.
- `tests/` runs the library with a toy scheme.
- `app/` is the C interface on top of the leanVM scheme and proof system.

## Limits

- A message has 32 bytes.
- A public key has 32 bytes, and a signature 1208 bytes in canonical form. Zeros behind the
  canonical form of a signature are accepted and ignored.
- An epoch is below 2^32.
