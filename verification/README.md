# tokio_file

Asynchronous file I/O for Tokio on top of POSIX AIO (FreeBSD).

- `src/` is the verified library: `request` builds the arguments of each
  operation (`read_at`, `readv_at`, `write_at`, `writev_at`, `sync_all`),
  `poll` holds the decision table of an operation's future and the proofs of
  what it guarantees (an operation is submitted at most once before its future
  resolves, results and error numbers come unchanged from the kernel, every
  poll settles after at most one call into the control block).
- `app/` is the Tokio/mio-aio glue: the `AioFileExt` trait and the
  `TokioFileFut` future, which perform the steps the library decides.  It
  builds only on FreeBSD.
- `tests/` exercises the library.
