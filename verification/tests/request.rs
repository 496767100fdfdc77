use tokio_file::request::{AioArgs, FsyncArgs, FsyncMode, DEFAULT_PRIORITY};

#[test]
fn read_args_keep_buffer_and_offset() {
    let mut rbuf = vec![0u8; 4];
    let args = AioArgs::at(&mut rbuf[..], 2);
    assert_eq!(args.offset, 2);
    assert_eq!(args.buf.len(), 4);
    assert_eq!(args.priority, 0);
}

#[test]
fn write_args_keep_buffer_and_offset() {
    let wbuf = b"abcdef";
    let args = AioArgs::at(&wbuf[..], 4096);
    assert_eq!(args.offset, 4096);
    assert_eq!(args.buf, b"abcdef");
    assert_eq!(args.priority, DEFAULT_PRIORITY);
}

#[test]
fn vectored_args_keep_every_buffer() {
    let wbuf0 = b"abcdef";
    let wbuf1 = b"ghij";
    let wbufs = [&wbuf0[..], &wbuf1[..]];
    let args = AioArgs::at(&wbufs[..], 0);
    assert_eq!(args.offset, 0);
    assert_eq!(args.buf.len(), 2);
    assert_eq!(args.buf[0], b"abcdef");
    assert_eq!(args.buf[1], b"ghij");
    assert_eq!(args.priority, 0);
}

#[test]
fn large_offset_is_handed_on_unchanged() {
    let args = AioArgs::at((), u64::MAX);
    assert_eq!(args.offset, u64::MAX);
}

#[test]
fn sync_all_flushes_data_and_metadata() {
    let args = FsyncArgs::sync_all();
    assert_eq!(args.mode, FsyncMode::Sync);
    assert_ne!(args.mode, FsyncMode::DataSync);
    assert_eq!(args.priority, 0);
}
