# io_peek

Peeking at the bytes a reader would return next, without consuming them.

- `src/bytes.rs`: the verified core: `peek_into` (copy what fits) and
  `copy_unread` (copy all, or fail with `WriteZero`), their spec functions
  `peek_len` / `peeked`, and the laws about repeated and growing peeks.
- `src/std_io_peek.rs`: the blocking `Peek` trait and its impl for
  `std::io::Cursor<Vec<u8>>`.
- `src/futures_util_io_peek.rs`: the poll-based `AsyncPeek` trait, its
  forwarding impls for `Box`, `&mut` and `Pin`, its impl for
  `futures_util::io::Cursor<Vec<u8>>`, the `Peek` future and `AsyncPeekExt`.
- `src/externs.rs`: the std types and functions the library relies on, with
  their trusted contracts.
- `app/lib.rs`: socket wrappers (std, async-io, tokio) whose peeks are plain I/O.
