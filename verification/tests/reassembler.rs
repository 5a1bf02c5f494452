use flac_source::reassembler::{normalize, Reassembler};

fn drain(r: &mut Reassembler) -> Vec<i32> {
    let mut out = Vec::new();
    while let Some(v) = r.take_buffered() {
        out.push(v);
    }
    out
}

#[test]
fn interleaving_two_channels() {
    // Planar storage [L0,L1,L2,R0,R1,R2] must be served L0,R0,L1,R1,L2,R2.
    let mut r = Reassembler::new(2, 32, 0);
    r.load_block(vec![10, 11, 12, 20, 21, 22]);
    assert_eq!(drain(&mut r), vec![10, 20, 11, 21, 12, 22]);
    assert_eq!(r.take_buffered(), None);
}

#[test]
fn mono_block_keeps_order() {
    let mut r = Reassembler::new(1, 32, 0);
    r.load_block(vec![5, -6, 7, -8]);
    assert_eq!(drain(&mut r), vec![5, -6, 7, -8]);
}

#[test]
fn block_yields_exactly_its_sample_count() {
    // A block holding 3 frames of 2 channels yields exactly 6 values.
    let mut r = Reassembler::new(2, 32, 0);
    r.load_block(vec![0, 1, 2, 3, 4, 5]);
    let mut count: usize = 0;
    while r.take_buffered().is_some() {
        count += 1;
    }
    assert_eq!(count, 6);
    assert_eq!(r.take_buffered(), None);
}

#[test]
fn normalization_shifts_to_full_range() {
    // A raw sample at depth b is shifted left by 32 - b.
    assert_eq!(normalize(1234, 32), 1234);
    assert_eq!(normalize(-1234, 32), -1234);
    assert_eq!(normalize(1, 16), 1 << 16);
    assert_eq!(normalize(-1, 16), -65536);
    assert_eq!(normalize(300, 16), 300 << 16);
    assert_eq!(normalize(1, 1), i32::MIN);
    assert_eq!(normalize(-3, 24), -3 << 8);
}

#[test]
fn normalization_applied_while_serving() {
    let mut r = Reassembler::new(1, 16, 0);
    r.load_block(vec![1, -1, 2]);
    assert_eq!(drain(&mut r), vec![65536, -65536, 131072]);
}

#[test]
fn empty_reassembler_serves_nothing() {
    let mut r = Reassembler::new(2, 16, 128);
    assert_eq!(r.take_buffered(), None);
    assert_eq!(r.take_buffered(), None);
    assert!(!r.is_exhausted());
}

#[test]
fn exhaustion_is_latched() {
    let mut r = Reassembler::new(1, 32, 0);
    assert!(!r.is_exhausted());
    r.mark_exhausted();
    assert!(r.is_exhausted());
    assert_eq!(r.take_buffered(), None);
    assert!(r.is_exhausted());
}

#[test]
fn storage_is_reusable_after_draining() {
    let mut r = Reassembler::new(1, 32, 0);
    r.load_block(vec![9, 8]);
    assert_eq!(drain(&mut r), vec![9, 8]);
    let storage = r.take_storage();
    assert_eq!(storage, vec![9, 8]);
    r.load_block(vec![7]);
    assert_eq!(drain(&mut r), vec![7]);
}

#[test]
fn zero_length_block_serves_nothing() {
    let mut r = Reassembler::new(2, 16, 0);
    r.load_block(Vec::new());
    assert_eq!(r.take_buffered(), None);
    assert!(!r.is_exhausted());
}
