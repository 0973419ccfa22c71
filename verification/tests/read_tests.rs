use monoio::buf::{IoBuf, IoBufMut, IoVecBufMut, OwnedBuf, OwnedSlice, VectoredBufMut};
use monoio::{AsyncReadRent, AsyncReadRentAt, ByteSource};

#[test]
fn byte_slice_read_in_three_steps() {
    // A source of four bytes read through a buffer of capacity three:
    // 3 bytes, then 1, then 0.
    let mut src = ByteSource::new(vec![0x41, 0x42, 0x43, 0x44]);

    let buf = OwnedBuf::with_capacity(3);
    let (res, buf) = src.read(buf);
    assert_eq!(res.unwrap(), 3);
    assert_eq!(buf.bytes_init(), 3);
    let bytes = buf.into_inner();
    assert_eq!(bytes, vec![0x41, 0x42, 0x43]);

    let buf = OwnedBuf::with_capacity(3);
    let (res, buf) = src.read(buf);
    assert_eq!(res.unwrap(), 1);
    let bytes = buf.into_inner();
    assert_eq!(bytes, vec![0x44]);

    let buf = OwnedBuf::with_capacity(3);
    let (res, buf) = src.read(buf);
    assert_eq!(res.unwrap(), 0);
    assert_eq!(buf.bytes_init(), 0);
}

#[test]
fn read_yields_source_bytes_and_sets_init() {
    let mut src = ByteSource::new(vec![9, 8, 7]);
    let buf = OwnedBuf::with_capacity(8);
    let (res, buf) = src.read(buf);
    let n = res.unwrap();
    assert_eq!(n, 3);
    assert_eq!(buf.bytes_init(), n);
    assert_eq!(buf.into_inner(), vec![9, 8, 7]);
}

#[test]
fn readv_empty_iovec_returns_zero_immediately() {
    let mut src = ByteSource::new(vec![1, 2, 3]);
    let empty = VectoredBufMut::new();
    let (res, vbuf) = src.readv(empty);
    assert_eq!(res.unwrap(), 0);
    assert_eq!(vbuf.iovec_count(), 0);
    // The source did not move.
    let probe = OwnedBuf::with_capacity(1);
    let (res, probe) = src.read(probe);
    assert_eq!(res.unwrap(), 1);
    assert_eq!(probe.into_inner(), vec![1]);
}

#[test]
fn readv_fills_first_descriptor() {
    let mut src = ByteSource::new(vec![5, 6, 7, 8]);
    let mut vbuf = VectoredBufMut::new();
    vbuf.push(OwnedBuf::with_capacity(2));
    vbuf.push(OwnedBuf::with_capacity(2));
    let (res, vbuf) = src.readv(vbuf);
    assert_eq!(res.unwrap(), 2);
    let parts = vbuf.into_parts();
    assert_eq!(parts.len(), 2);
    let mut parts = parts;
    let second = parts.pop().unwrap();
    let first = parts.pop().unwrap();
    assert_eq!(first.into_inner(), vec![5, 6]);
    assert_eq!(second.into_inner(), Vec::<u8>::new());
}

#[test]
fn read_at_does_not_move_cursor() {
    let mut src = ByteSource::new(vec![10, 20, 30, 40]);
    let buf = OwnedBuf::with_capacity(2);
    let (res, buf) = src.read_at(buf, 1);
    assert_eq!(res.unwrap(), 2);
    assert_eq!(buf.into_inner(), vec![20, 30]);
    // The cursor still stands at the start.
    let buf = OwnedBuf::with_capacity(4);
    let (res, buf) = src.read(buf);
    assert_eq!(res.unwrap(), 4);
    assert_eq!(buf.into_inner(), vec![10, 20, 30, 40]);
}

#[test]
fn read_at_past_end_reads_nothing() {
    let mut src = ByteSource::new(vec![1]);
    let buf = OwnedBuf::with_capacity(4);
    let (res, buf) = src.read_at(buf, 9);
    assert_eq!(res.unwrap(), 0);
    assert_eq!(buf.bytes_init(), 0);
}

#[test]
fn owned_slice_exposes_its_bytes() {
    let s = OwnedSlice::from_vec(vec![1, 2, 3]);
    assert_eq!(IoBuf::bytes_init(&s), 3);
    assert_eq!(s.as_bytes(), &[1, 2, 3]);
}

#[test]
fn fill_prefix_replaces_init_prefix() {
    let mut buf = OwnedBuf::with_capacity(4);
    assert_eq!(buf.bytes_total(), 4);
    buf.fill_prefix(&[7, 7]);
    assert_eq!(buf.bytes_init(), 2);
    buf.fill_prefix(&[1]);
    assert_eq!(buf.bytes_init(), 1);
    assert_eq!(buf.into_inner(), vec![1]);
}

#[test]
fn forwarding_impl_reads_through_mut_borrow() {
    let mut src = ByteSource::new(vec![3, 1, 4]);
    let mut wrapper = &mut src;
    let buf = OwnedBuf::with_capacity(2);
    let (res, buf) = wrapper.read(buf);
    assert_eq!(res.unwrap(), 2);
    assert_eq!(buf.into_inner(), vec![3, 1]);
    let empty = VectoredBufMut::new();
    let (res, _empty) = wrapper.readv(empty);
    assert_eq!(res.unwrap(), 0);
}
