use std::future::Future;
use std::io::{self, Cursor};
use std::pin::Pin;
use std::task::{Context, Poll, Waker};

use chksum_md5::MD5;
use chksum_reader::{AsyncReader, Polled};
use tokio::io::{AsyncRead, AsyncReadExt, ReadBuf};

const MD5_EMPTY: &str = "d41d8cd98f00b204e9800998ecf8427e";
const MD5_A: &str = "0cc175b9c0f1b6a831c399e269772661";
const MD5_ABC: &str = "900150983cd24fb0d6963f7d28e17f72";

/// Is not ready for its first `stalls` polls, then hands out its bytes.
struct Slow {
    stalls: usize,
    data: Cursor<Vec<u8>>,
}

impl AsyncRead for Slow {
    fn poll_read(mut self: Pin<&mut Self>, cx: &mut Context<'_>, buf: &mut ReadBuf<'_>) -> Poll<io::Result<()>> {
        if self.stalls > 0 {
            self.stalls -= 1;
            cx.waker().wake_by_ref();
            return Poll::Pending;
        }
        Pin::new(&mut self.data).poll_read(cx, buf)
    }
}

/// Fails on every poll.
struct Broken;

impl AsyncRead for Broken {
    fn poll_read(self: Pin<&mut Self>, _cx: &mut Context<'_>, _buf: &mut ReadBuf<'_>) -> Poll<io::Result<()>> {
        Poll::Ready(Err(io::Error::new(io::ErrorKind::ConnectionAborted, "hung up")))
    }
}

fn runtime() -> tokio::runtime::Runtime {
    tokio::runtime::Builder::new_current_thread().build().unwrap()
}

#[test]
fn async_single_read_gives_reference_digest() {
    runtime().block_on(async {
        let mut reader = AsyncReader::<_, MD5>::new(Cursor::new(b"abc".to_vec()));
        let mut buf = [0u8; 3];
        assert_eq!(reader.read(&mut buf).await.unwrap(), 3);
        assert_eq!(&buf, b"abc");
        assert_eq!(reader.digest().to_hex_lowercase(), MD5_ABC);
    });
}

#[test]
fn async_byte_by_byte_gives_same_digest() {
    runtime().block_on(async {
        let mut reader = AsyncReader::<_, MD5>::new(Cursor::new(b"abc".to_vec()));
        let mut buf = [0u8; 1];
        for expected in [b'a', b'b', b'c'] {
            assert_eq!(reader.read(&mut buf).await.unwrap(), 1);
            assert_eq!(buf[0], expected);
        }
        assert_eq!(reader.read(&mut buf).await.unwrap(), 0);
        assert_eq!(reader.digest().to_hex_lowercase(), MD5_ABC);
    });
}

#[test]
fn async_empty_source_gives_empty_digest() {
    runtime().block_on(async {
        let mut reader = AsyncReader::<_, MD5>::new(Cursor::new(Vec::<u8>::new()));
        let mut buf = [0u8; 8];
        assert_eq!(reader.read(&mut buf).await.unwrap(), 0);
        assert_eq!(reader.digest().to_hex_lowercase(), MD5_EMPTY);
    });
}

#[test]
fn async_read_through_a_slow_source() {
    runtime().block_on(async {
        let source = Slow { stalls: 3, data: Cursor::new(b"abc".to_vec()) };
        let mut reader = AsyncReader::<_, MD5>::new(source);
        let mut buf = [0u8; 8];
        assert_eq!(reader.read(&mut buf).await.unwrap(), 3);
        assert_eq!(reader.digest().to_hex_lowercase(), MD5_ABC);
    });
}

#[test]
fn pending_poll_leaves_the_digest() {
    let source = Slow { stalls: 1, data: Cursor::new(b"bc".to_vec()) };
    let mut hash = MD5::default();
    hash.update(b"a");
    let mut reader = AsyncReader::with_hash(source, hash);
    let before = reader.digest().to_hex_lowercase();
    assert_eq!(before, MD5_A);

    let mut cx = Context::from_waker(Waker::noop());
    let mut space = [0u8; 8];
    let mut buf = ReadBuf::new(&mut space);
    assert!(matches!(reader.poll_read(&mut cx, &mut buf), Polled::Pending));
    assert_eq!(buf.filled().len(), 0);
    assert_eq!(reader.digest().to_hex_lowercase(), before);

    assert!(matches!(reader.poll_read(&mut cx, &mut buf), Polled::Ready(Ok(()))));
    assert_eq!(buf.filled(), b"bc");
    assert_eq!(reader.digest().to_hex_lowercase(), MD5_ABC);
}

#[test]
fn read_given_up_while_pending_leaves_the_digest() {
    let source = Slow { stalls: 1, data: Cursor::new(b"abc".to_vec()) };
    let mut reader = AsyncReader::<_, MD5>::new(source);
    let mut cx = Context::from_waker(Waker::noop());
    let mut space = [0u8; 8];
    {
        let mut read = Box::pin(reader.read(&mut space));
        assert!(read.as_mut().poll(&mut cx).is_pending());
    }
    assert_eq!(reader.digest().to_hex_lowercase(), MD5_EMPTY);
    runtime().block_on(async {
        assert_eq!(reader.read(&mut space).await.unwrap(), 3);
    });
    assert_eq!(reader.digest().to_hex_lowercase(), MD5_ABC);
}

#[test]
fn pinned_poll_goes_through_the_hash() {
    let mut reader = AsyncReader::<_, MD5>::new(Cursor::new(b"abc".to_vec()));
    let mut cx = Context::from_waker(Waker::noop());
    let mut space = [0u8; 8];
    let mut buf = ReadBuf::new(&mut space);
    let poll = Pin::new(&mut reader).poll_read(&mut cx, &mut buf);
    assert!(matches!(poll, Poll::Ready(Ok(()))));
    assert_eq!(buf.filled(), b"abc");
    assert_eq!(reader.digest().to_hex_lowercase(), MD5_ABC);
}

#[test]
fn pinned_poll_hands_pending_on() {
    let source = Slow { stalls: 1, data: Cursor::new(b"abc".to_vec()) };
    let mut reader = AsyncReader::<_, MD5>::new(source);
    let mut cx = Context::from_waker(Waker::noop());
    let mut space = [0u8; 8];
    let mut buf = ReadBuf::new(&mut space);
    assert!(Pin::new(&mut reader).poll_read(&mut cx, &mut buf).is_pending());
    assert_eq!(reader.digest().to_hex_lowercase(), MD5_EMPTY);
}

#[test]
fn failed_poll_hands_the_error_on_and_leaves_the_digest() {
    let mut hash = MD5::default();
    hash.update(b"abc");
    let mut reader = AsyncReader::with_hash(Broken, hash);
    let mut cx = Context::from_waker(Waker::noop());
    let mut space = [0u8; 8];
    let mut buf = ReadBuf::new(&mut space);
    match reader.poll_read(&mut cx, &mut buf) {
        Polled::Ready(Err(error)) => {
            assert_eq!(error.kind(), io::ErrorKind::ConnectionAborted);
            assert_eq!(error.to_string(), "hung up");
        }
        _ => panic!("the error was not handed on"),
    }
    assert_eq!(reader.digest().to_hex_lowercase(), MD5_ABC);
}

#[test]
fn async_failed_read_hands_the_error_on() {
    runtime().block_on(async {
        let mut reader = AsyncReader::<_, MD5>::new(Broken);
        let mut buf = [0u8; 4];
        let error = reader.read(&mut buf).await.unwrap_err();
        assert_eq!(error.kind(), io::ErrorKind::ConnectionAborted);
        assert_eq!(reader.digest().to_hex_lowercase(), MD5_EMPTY);
    });
}

#[test]
fn successful_poll_feeds_only_what_it_appended() {
    let mut reader = AsyncReader::<_, MD5>::new(Cursor::new(b"bc".to_vec()));
    let mut cx = Context::from_waker(Waker::noop());
    let mut space = [0u8; 8];
    let mut buf = ReadBuf::new(&mut space);
    buf.put_slice(b"a");
    assert!(matches!(reader.poll_read(&mut cx, &mut buf), Polled::Ready(Ok(()))));
    assert_eq!(buf.filled(), b"abc");
    assert_eq!(reader.digest().to_hex_lowercase(), MD5::hash(b"bc").to_hex_lowercase());
}

#[test]
fn bytes_filled_by_someone_else_are_not_fed() {
    let mut reader = AsyncReader::<_, MD5>::new(&b"c"[..]);
    let mut cx = Context::from_waker(Waker::noop());
    let mut space = [0u8; 3];
    let mut buf = ReadBuf::new(&mut space);
    buf.put_slice(b"ab");
    let poll = Pin::new(&mut reader).poll_read(&mut cx, &mut buf);
    assert!(matches!(poll, Poll::Ready(Ok(()))));
    assert_eq!(buf.filled(), b"abc");
    assert_eq!(reader.digest().to_hex_lowercase(), MD5::hash(b"c").to_hex_lowercase());
}

#[test]
fn bytes_filled_before_a_poll_are_not_fed_again() {
    let mut reader = AsyncReader::<_, MD5>::new(Cursor::new(b"abc".to_vec()));
    let mut cx = Context::from_waker(Waker::noop());
    let mut space = [0u8; 3];
    let mut buf = ReadBuf::new(&mut space);
    buf.set_filled(0);
    let mut narrow = buf.take(2);
    assert!(matches!(reader.poll_read(&mut cx, &mut narrow), Polled::Ready(Ok(()))));
    assert_eq!(narrow.filled(), b"ab");
    assert_eq!(reader.digest().to_hex_lowercase(), MD5::hash(b"ab").to_hex_lowercase());

    let mut wide = [0u8; 8];
    let mut buf = ReadBuf::new(&mut wide);
    buf.put_slice(b"ab");
    assert!(matches!(reader.poll_read(&mut cx, &mut buf), Polled::Ready(Ok(()))));
    assert_eq!(buf.filled(), b"abc");
    assert_eq!(reader.digest().to_hex_lowercase(), MD5_ABC);
}

#[test]
fn poll_into_a_full_buffer_feeds_an_empty_chunk() {
    let mut reader = AsyncReader::<_, MD5>::new(Cursor::new(b"abc".to_vec()));
    let mut cx = Context::from_waker(Waker::noop());
    let mut space = [0u8; 2];
    let mut buf = ReadBuf::new(&mut space);
    buf.put_slice(b"xy");
    assert!(matches!(reader.poll_read(&mut cx, &mut buf), Polled::Ready(Ok(()))));
    assert_eq!(buf.filled(), b"xy");
    assert_eq!(reader.digest().to_hex_lowercase(), MD5_EMPTY);
    assert_eq!(reader.into_inner().position(), 0);
}

#[test]
fn poll_of_a_drained_source_feeds_an_empty_chunk() {
    let mut reader = AsyncReader::<_, MD5>::new(Cursor::new(Vec::<u8>::new()));
    let mut cx = Context::from_waker(Waker::noop());
    let mut space = [0u8; 4];
    let mut buf = ReadBuf::new(&mut space);
    assert!(matches!(reader.poll_read(&mut cx, &mut buf), Polled::Ready(Ok(()))));
    assert_eq!(buf.filled().len(), 0);
    assert_eq!(reader.digest().to_hex_lowercase(), MD5_EMPTY);
}

#[test]
fn async_chunking_is_invisible_in_the_digest() {
    let data: Vec<u8> = (0..500u32).map(|i| (i * 11 + 1) as u8).collect();
    let expected = MD5::hash(&data).to_hex_lowercase();
    runtime().block_on(async {
        for size in [1usize, 3, 64, 500, 2048] {
            let mut reader = AsyncReader::<_, MD5>::new(Cursor::new(data.clone()));
            let mut buf = vec![0u8; size];
            while reader.read(&mut buf).await.unwrap() != 0 {}
            assert_eq!(reader.digest().to_hex_lowercase(), expected);
        }
    });
}

#[test]
fn async_read_to_end_goes_through_the_hash() {
    runtime().block_on(async {
        let data = b"The quick brown fox jumps over the lazy dog".to_vec();
        let mut reader = AsyncReader::<_, MD5>::new(Cursor::new(data.clone()));
        let mut all = Vec::new();
        assert_eq!(reader.read_to_end(&mut all).await.unwrap(), data.len());
        assert_eq!(all, data);
        assert_eq!(reader.digest().to_hex_lowercase(), "9e107d9d372bb6826bd81d3542a419d6");
    });
}

#[test]
fn async_read_to_end_of_a_long_stream_gives_the_one_pass_digest() {
    runtime().block_on(async {
        let data: Vec<u8> = (0..100_000u32).map(|i| (i * 13 + 5) as u8).collect();
        let mut reader = AsyncReader::<_, MD5>::new(Cursor::new(data.clone()));
        let mut all = b"kept".to_vec();
        assert_eq!(reader.read_to_end(&mut all).await.unwrap(), data.len());
        assert_eq!(&all[..4], b"kept");
        assert_eq!(&all[4..], &data[..]);
        assert_eq!(reader.digest().to_hex_lowercase(), MD5::hash(&data).to_hex_lowercase());
    });
}

#[test]
fn async_readers_compare_by_stream_and_hash() {
    let one = AsyncReader::<_, MD5>::new(Cursor::new(b"abc".to_vec()));
    let same = AsyncReader::<_, MD5>::new(Cursor::new(b"abc".to_vec()));
    let other = AsyncReader::<_, MD5>::new(Cursor::new(b"abd".to_vec()));
    assert!(one == same);
    assert!(one != other);
    let mut hash = MD5::default();
    hash.update(b"a");
    let resumed = AsyncReader::with_hash(Cursor::new(b"abc".to_vec()), hash);
    assert!(one != resumed);
}

#[test]
fn async_into_inner_returns_the_stream_where_reads_left_it() {
    runtime().block_on(async {
        let mut reader = AsyncReader::<_, MD5>::new(Cursor::new(b"abcdef".to_vec()));
        let mut buf = [0u8; 2];
        assert_eq!(reader.read(&mut buf).await.unwrap(), 2);
        let mut inner = reader.into_inner();
        assert_eq!(inner.position(), 2);
        let mut rest = Vec::new();
        inner.read_to_end(&mut rest).await.unwrap();
        assert_eq!(rest, b"cdef");
    });
}

#[test]
fn async_resumed_hash_continues_from_what_it_had() {
    runtime().block_on(async {
        let mut hash = MD5::default();
        hash.update(b"a");
        let mut reader = AsyncReader::with_hash(Cursor::new(b"bc".to_vec()), hash);
        let mut buf = [0u8; 8];
        assert_eq!(reader.read(&mut buf).await.unwrap(), 2);
        assert_eq!(reader.digest().to_hex_lowercase(), MD5_ABC);
    });
}

#[test]
fn async_free_functions_make_the_same_readers() {
    runtime().block_on(async {
        let mut made = chksum_reader::async_new::<_, MD5>(Cursor::new(b"abc".to_vec()));
        let mut buf = [0u8; 3];
        assert_eq!(made.read(&mut buf).await.unwrap(), 3);
        assert_eq!(made.digest().to_hex_lowercase(), MD5_ABC);

        let mut hash = MD5::default();
        hash.update(b"ab");
        let mut paired = chksum_reader::async_with_hash(Cursor::new(b"c".to_vec()), hash);
        assert_eq!(paired.read(&mut buf).await.unwrap(), 1);
        assert_eq!(paired.digest().to_hex_lowercase(), MD5_ABC);
    });
}
