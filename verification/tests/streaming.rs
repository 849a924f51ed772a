use bnanr::streaming::{BnanStreamingBuffer, BufferCopyRegion, StreamingError};

#[test]
fn rejects_degenerate_layouts() {
    assert_eq!(
        BnanStreamingBuffer::new(64, 0).err(),
        Some(StreamingError::ZeroSlotSize)
    );
    assert_eq!(
        BnanStreamingBuffer::new(15, 16).err(),
        Some(StreamingError::ZeroSlotCount)
    );
}

#[test]
fn slots_are_handed_out_low_first_and_recycled() {
    let mut buf = BnanStreamingBuffer::new(70, 16).unwrap();
    assert_eq!(buf.total_slot_count(), 4);
    assert_eq!(buf.free_slot_count(), 4);
    let a = buf.allocate().unwrap();
    assert_eq!((a.slot_index, a.offset, a.size), (0, 0, 16));
    let b = buf.allocate().unwrap();
    assert_eq!((b.slot_index, b.offset, b.size), (1, 16, 16));
    assert_eq!(buf.free_slot_count(), 2);
    buf.free(a);
    let again = buf.allocate().unwrap();
    assert_eq!((again.slot_index, again.offset), (0, 0));
    let c = buf.allocate().unwrap();
    let d = buf.allocate().unwrap();
    assert_eq!((c.slot_index, d.slot_index), (2, 3));
    assert!(buf.allocate().is_none());
    assert_eq!(buf.free_slot_count(), 0);
}

#[test]
fn writes_are_bounds_checked() {
    let mut buf = BnanStreamingBuffer::new(64, 16).unwrap();
    let a = buf.allocate().unwrap();
    let b = buf.allocate().unwrap();
    assert_eq!(buf.write_offset(&b, 4, 12), Ok(20));
    assert_eq!(buf.write_offset(&b, 4, 13), Err(StreamingError::OutOfBounds));
    assert_eq!(buf.write_offset(&a, 0, 16), Ok(0));
    assert_eq!(buf.write_offset(&a, 17, 0), Err(StreamingError::OutOfBounds));
}

#[test]
fn move_to_frees_the_slot() {
    let mut buf = BnanStreamingBuffer::new(48, 16).unwrap();
    let a = buf.allocate().unwrap();
    let free_before = buf.free_slot_count();
    let region = buf.move_to(a, 256, 10).unwrap();
    assert_eq!(
        region,
        BufferCopyRegion { src_offset: 0, dst_offset: 256, size: 10 }
    );
    assert_eq!(buf.free_slot_count(), free_before + 1);
    let b = buf.allocate().unwrap();
    assert_eq!(b.slot_index, 0);
    assert_eq!(
        buf.move_to(b, 0, 17),
        Err(StreamingError::OutOfBounds)
    );
}
