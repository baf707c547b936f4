# async_async_io

Tokio `AsyncRead` / `AsyncWrite` adapters for readers and writers whose
operations are `async fn`s.

- `src/` is the verified library: the state machines of the poll-style reader
  (`read.rs`) and writer (`write.rs`), their join (`lib.rs`), and the view of
  tokio's `ReadBuf` that the read path fills (`read_buf.rs`). Every poll is split
  in a start step and an end step; in between, the caller creates and polls the
  future.
- `app/` holds the `AsyncAsyncRead` / `AsyncAsyncWrite` traits and the tokio
  trait impls that create, box and poll the futures around those steps.
- `tests/` drives the state machines with plain values standing for futures.
