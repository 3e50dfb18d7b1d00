use eoip_rs::packet::buffer::{BufferPool, PacketBuf, BUF_TOTAL, HEADER_HEADROOM, MAX_FRAME_SIZE};

#[test]
fn standalone_buffer() {
    let mut buf = PacketBuf::new();
    assert_eq!(buf.len(), 0);
    assert!(buf.is_empty());

    let payload = buf.payload_mut();
    payload[..4].copy_from_slice(&[1, 2, 3, 4]);
    buf.set_len(4);
    assert_eq!(buf.len(), 4);
    assert_eq!(buf.as_slice(), &[1, 2, 3, 4]);
}

#[test]
fn prepend_header() {
    let mut buf = PacketBuf::new();
    buf.payload_mut()[..4].copy_from_slice(&[0xDE, 0xAD, 0xBE, 0xEF]);
    buf.set_len(4);

    let hdr = buf.prepend_header(8);
    hdr.copy_from_slice(&[0x20, 0x01, 0x64, 0x00, 0x00, 0x04, 0x01, 0x00]);

    assert_eq!(buf.len(), 12);
    assert_eq!(&buf.as_slice()[..8], &[0x20, 0x01, 0x64, 0x00, 0x00, 0x04, 0x01, 0x00]);
    assert_eq!(&buf.as_slice()[8..], &[0xDE, 0xAD, 0xBE, 0xEF]);
}

#[test]
fn pool_get_and_return() {
    let mut pool = BufferPool::new(4);
    assert_eq!(pool.available(), 4);

    let buf = pool.get();
    assert_eq!(pool.available(), 3);
    pool.put(buf);
    assert_eq!(pool.available(), 4);
}

#[test]
fn pool_exhaustion_fallback() {
    let mut pool = BufferPool::new(2);
    let _a = pool.get();
    let _b = pool.get();
    assert_eq!(pool.available(), 0);

    // Still works: allocates standalone
    let c = pool.get();
    assert!(!c.is_pooled());
}

#[test]
fn pool_no_leak_after_many_cycles() {
    let mut pool = BufferPool::new(8);
    for _ in 0..1000 {
        let mut buf = pool.get();
        buf.payload_mut()[0] = 0xFF;
        buf.set_len(1);
        pool.put(buf);
    }
    assert_eq!(pool.available(), 8);
}

#[test]
fn layout_constants() {
    assert_eq!(HEADER_HEADROOM, 64);
    assert_eq!(MAX_FRAME_SIZE, 1522);
    assert_eq!(BUF_TOTAL, HEADER_HEADROOM + MAX_FRAME_SIZE);
    assert_eq!(PacketBuf::new().payload_mut().len(), MAX_FRAME_SIZE);
}

#[test]
fn fill_copies_and_truncates() {
    let mut buf = PacketBuf::default();
    buf.fill(&[9, 8, 7]);
    assert_eq!(buf.as_slice(), &[9, 8, 7]);
    let long: Vec<u8> = (0..2000usize).map(|i| (i % 251) as u8).collect();
    buf.fill(&long);
    assert_eq!(buf.len(), MAX_FRAME_SIZE);
    assert_eq!(buf.as_slice(), &long[..MAX_FRAME_SIZE]);
    buf.reset();
    assert!(buf.is_empty());
}

#[test]
fn whole_headroom_can_be_used() {
    let mut buf = PacketBuf::new();
    buf.fill(&[1]);
    let hdr = buf.prepend_header(HEADER_HEADROOM);
    assert_eq!(hdr.len(), HEADER_HEADROOM);
    hdr[0] = 0xAA;
    assert_eq!(buf.len(), HEADER_HEADROOM + 1);
    assert_eq!(buf.as_slice()[0], 0xAA);
    assert_eq!(buf.as_slice()[HEADER_HEADROOM], 1);
}

#[test]
fn pool_is_first_in_first_out_and_resets() {
    let mut pool = BufferPool::new(2);
    assert_eq!(pool.capacity(), 2);
    let mut a = pool.get();
    assert!(a.is_pooled());
    a.fill(&[1, 2, 3]);
    pool.put(a);
    let b = pool.get();
    let c = pool.get();
    // The buffer that was given back last comes out last, emptied.
    assert!(b.is_empty() && c.is_empty());
    let mut c = c;
    assert_eq!(&c.payload_mut()[..3], &[1, 2, 3]);
    pool.put(b);
    pool.put(c);
    assert_eq!(pool.available(), 2);
}

#[test]
fn standalone_buffers_never_join_a_pool() {
    let mut pool = BufferPool::new(1);
    let pooled = pool.get();
    pool.put(PacketBuf::new());
    assert_eq!(pool.available(), 0);
    let extra = pool.get();
    pool.put(pooled);
    assert_eq!(pool.available(), 1);
    pool.put(extra);
    assert_eq!(pool.available(), 1);
}

#[test]
fn full_pool_frees_what_comes_back() {
    let mut a = BufferPool::new(1);
    let mut b = BufferPool::new(1);
    let from_b = b.get();
    a.put(from_b);
    assert_eq!(a.available(), 1);
}
