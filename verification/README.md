# One-KVM

The verified core of a KVM-over-IP host, written in Rust and proved with Verus.

- `src/` is the library. Every function states in `requires` and `ensures` what it expects and
  what it gives, over the spec functions beside it. Public proof functions state what holds of
  several functions together. Calls into other crates (`aes`, `sha2`, `rand`, `rcgen`, `rustls`,
  `x509-parser`, `uuid`) stand behind small functions marked `external_body`, whose contracts are
  believed.
- `app/` is ordinary Rust around the library: sockets, files, device libraries, threads and web
  requests. It performs what the library decides and reports back.
- `tests/` runs the library on concrete values.
