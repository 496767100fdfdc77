//! The arguments that each file operation hands to the AIO layer.
use vstd::prelude::*;

verus! {

/// The AIO priority at which every operation of this library is queued.
pub const DEFAULT_PRIORITY: i32 = 0;

/// How an asynchronous `fsync` flushes the file.
#[derive(Clone, Copy, Debug, PartialEq, Eq, Structural)]
pub enum FsyncMode {
    /// Flush data and metadata, like `fsync(2)`.
    Sync,
    /// Flush data only, like `fdatasync(2)`.
    DataSync,
}

/// The arguments of a positional read or write: where in the file it starts,
/// the buffer (or scatter/gather list of buffers) that it reads into or
/// writes from, and its AIO priority.
pub struct AioArgs<B> {
    pub offset: u64,
    pub buf: B,
    pub priority: i32,
}

impl<B> AioArgs<B> {
    /// The arguments of `read_at`, `readv_at`, `write_at` and `writev_at`:
    /// the caller's buffer and offset, handed on unchanged, at the default
    /// priority.
    pub fn at(buf: B, offset: u64) -> (args: Self)
        ensures
            args.offset == offset,
            args.buf == buf,
            args.priority == DEFAULT_PRIORITY,
    {
        AioArgs { offset, buf, priority: DEFAULT_PRIORITY }
    }
}

/// The arguments of an asynchronous `fsync`.
pub struct FsyncArgs {
    pub mode: FsyncMode,
    pub priority: i32,
}

impl FsyncArgs {
    /// The arguments of `sync_all`: a full `O_SYNC` flush of data and
    /// metadata, at the default priority.
    pub fn sync_all() -> (args: Self)
        ensures
            args.mode == FsyncMode::Sync,
            args.priority == DEFAULT_PRIORITY,
    {
        FsyncArgs { mode: FsyncMode::Sync, priority: DEFAULT_PRIORITY }
    }
}

} // verus!
