# vault

The host-side core of a confidential Android execution vault: device
enrollment by QR code with token pinning and brute-force backoff, a per-IP
rate limiter, the binary frame protocol between the mobile client and the
host, Noise `XX` sessions with length-prefixed sealed frames, HKDF key
derivation and periodic rekeying, a hybrid key-encapsulation combiner,
cluster live migration, codec negotiation, vCPU/RAM hot-plug checks, sensor
event rings, and the command lines and scripts that drive the hypervisors and
encrypted volumes on Linux, macOS and Windows.

## Layout

- `src/` is the library, written in Verus. Its functions carry
  `requires`/`ensures` contracts over a mathematical model of their data
  (where a result is only what the clock, the disk, the Noise state or a
  platform's secret store reports, the contract says so and a companion
  function takes that report as an argument and is stated exactly), and
  the properties that span several calls (a pairing token is accepted once,
  a banned address stays banned until its ban expires, decoding an encoded
  frame gives the frame back, and so on) are stated and proved as public
  proof functions next to the code they are about.
  - `src/ext/` holds the trusted boundary: each item there wraps one function
    of an outside crate (`bytes`, `hex`, `hkdf`, `sha2`, `snow`, `rand`,
    `qrcode`) or of std, and its doc comment says what its contract claims
    without proof.
  - `src/protocol/`, `src/orchestration/`, `src/crypto/`, `src/stream/`,
    `src/platform/` and `src/text/` hold the verified logic.
- `tests/` runs the library on concrete values, with the outside crates
  linked.
- `app/` is the program around the library: argument handling, the TCP and
  HTTP servers, the async handshake drivers, process spawning, file access,
  serde copies of the wire types, and everything that works with floating
  point.
