use fbdplay::ring::{copy_block, pad_silence, store_block, RingBridge, SILENCE};

#[test]
fn new_bridge_is_empty() {
    let bridge = RingBridge::new(8);
    assert_eq!(bridge.size(), 8);
    assert_eq!(bridge.occupied(), 0);
}

#[test]
fn write_then_read_keeps_order() {
    let mut bridge = RingBridge::new(8);
    assert_eq!(bridge.write(&[10, -20, 30]), 3);
    assert_eq!(bridge.occupied(), 3);
    assert_eq!(bridge.read(2), vec![10, -20]);
    assert_eq!(bridge.occupied(), 1);
    assert_eq!(bridge.read(5), vec![30]);
    assert_eq!(bridge.occupied(), 0);
}

#[test]
fn write_takes_only_what_fits() {
    let mut bridge = RingBridge::new(4);
    assert_eq!(bridge.write(&[1, 2, 3, 4, 5, 6]), 4);
    assert_eq!(bridge.occupied(), 4);
    assert_eq!(bridge.read(10), vec![1, 2, 3, 4]);
}

#[test]
fn write_on_full_bridge_takes_nothing() {
    let mut bridge = RingBridge::new(3);
    assert_eq!(bridge.write(&[7, 8, 9]), 3);
    assert_eq!(bridge.write(&[1, 2]), 0);
    assert_eq!(bridge.occupied(), 3);
    assert_eq!(bridge.read(3), vec![7, 8, 9]);
}

#[test]
fn read_on_empty_bridge_gives_nothing() {
    let mut bridge = RingBridge::new(3);
    assert_eq!(bridge.read(2), Vec::<i16>::new());
    assert_eq!(bridge.write(&[5]), 1);
    assert_eq!(bridge.read(0), Vec::<i16>::new());
    assert_eq!(bridge.read(1), vec![5]);
    assert_eq!(bridge.read(1), Vec::<i16>::new());
}

#[test]
fn empty_block_is_written_as_nothing() {
    let mut bridge = RingBridge::new(3);
    assert_eq!(bridge.write(&[]), 0);
    assert_eq!(bridge.occupied(), 0);
}

#[test]
fn bridge_without_capacity_never_holds_anything() {
    let mut bridge = RingBridge::new(0);
    assert_eq!(bridge.size(), 0);
    assert_eq!(bridge.write(&[1, 2, 3]), 0);
    assert_eq!(bridge.read(3), Vec::<i16>::new());
    let mut out = [9i16; 4];
    assert_eq!(bridge.fill_output(&mut out), 0);
    assert_eq!(out, [0, 0, 0, 0]);
}

#[test]
fn wrapped_around_samples_keep_their_order() {
    let mut bridge = RingBridge::new(5);
    assert_eq!(bridge.write(&[1, 2, 3, 4]), 4);
    assert_eq!(bridge.read(3), vec![1, 2, 3]);
    assert_eq!(bridge.write(&[5, 6, 7, 8, 9]), 4);
    assert_eq!(bridge.occupied(), 5);
    assert_eq!(bridge.read(5), vec![4, 5, 6, 7, 8]);
}

#[test]
fn occupancy_stays_within_capacity() {
    let mut bridge = RingBridge::new(7);
    let mut expected: Vec<i16> = Vec::new();
    let mut next: i16 = 0;
    for round in 0..200usize {
        let want = (round * 5) % 11;
        let block: Vec<i16> = (0..want).map(|i| next.wrapping_add(i as i16)).collect();
        let written = bridge.write(&block);
        assert_eq!(written, want.min(7 - expected.len()));
        expected.extend_from_slice(&block[..written]);
        next = next.wrapping_add(want as i16);
        assert!(bridge.occupied() <= bridge.size());
        assert_eq!(bridge.occupied(), expected.len());
        let take = (round * 3) % 5;
        let samples = bridge.read(take);
        let served = take.min(expected.len());
        assert_eq!(samples, expected[..served].to_vec());
        expected.drain(..served);
        assert_eq!(bridge.occupied(), expected.len());
    }
}

#[test]
fn underrun_is_filled_with_silence() {
    let mut bridge = RingBridge::new(16);
    assert_eq!(bridge.write(&[11, 22, 33]), 3);
    let mut out = [77i16; 8];
    assert_eq!(bridge.fill_output(&mut out), 3);
    assert_eq!(out, [11, 22, 33, 0, 0, 0, 0, 0]);
    assert_eq!(bridge.occupied(), 0);
}

#[test]
fn full_supply_leaves_no_silence() {
    let mut bridge = RingBridge::new(16);
    assert_eq!(bridge.write(&[1, 2, 3, 4, 5, 6]), 6);
    let mut out = [0i16; 4];
    assert_eq!(bridge.fill_output(&mut out), 4);
    assert_eq!(out, [1, 2, 3, 4]);
    assert_eq!(bridge.read(4), vec![5, 6]);
}

#[test]
fn empty_bridge_plays_silence() {
    let mut bridge = RingBridge::new(4);
    let mut out = [5i16; 3];
    assert_eq!(bridge.fill_output(&mut out), 0);
    assert_eq!(out, [SILENCE, SILENCE, SILENCE]);
}

#[test]
fn split_ends_pass_samples_in_order() {
    let (mut producer, mut consumer) = RingBridge::new(6).split();
    assert_eq!(producer.size(), 6);
    assert_eq!(producer.room(), 6);
    assert_eq!(producer.write(&[3, 1, 4, 1]), 4);
    assert_eq!(producer.room(), 2);
    let mut out = [9i16; 3];
    assert_eq!(consumer.fill_output(&mut out), 3);
    assert_eq!(out, [3, 1, 4]);
    assert_eq!(producer.room(), 5);
    assert_eq!(producer.write(&[5, 9, 2, 6, 5, 3, 5]), 5);
    assert_eq!(producer.write(&[8]), 0);
    let mut rest = [9i16; 8];
    assert_eq!(consumer.fill_output(&mut rest), 6);
    assert_eq!(rest, [1, 5, 9, 2, 6, 5, 0, 0]);
    let mut none = [9i16; 2];
    assert_eq!(consumer.fill_output(&mut none), 0);
    assert_eq!(none, [0, 0]);
}

#[test]
fn copy_block_takes_from_offset() {
    let mut free = [0i16; 3];
    assert_eq!(copy_block(&mut free, &[1, 2, 3, 4, 5], 2), 3);
    assert_eq!(free, [3, 4, 5]);
    let mut none: [i16; 0] = [];
    assert_eq!(copy_block(&mut none, &[1, 2], 2), 0);
}

#[test]
fn store_block_writes_at_offset() {
    let mut out = [9i16; 5];
    assert_eq!(store_block(&mut out, &[1, 2], 2), 2);
    assert_eq!(out, [9, 9, 1, 2, 9]);
    assert_eq!(store_block(&mut out, &[], 5), 0);
    assert_eq!(out, [9, 9, 1, 2, 9]);
}

#[test]
fn pad_silence_clears_the_tail() {
    let mut out = [4i16, 5, 6, 7];
    pad_silence(&mut out, 1);
    assert_eq!(out, [4, 0, 0, 0]);
    pad_silence(&mut out, 4);
    assert_eq!(out, [4, 0, 0, 0]);
    pad_silence(&mut out, 0);
    assert_eq!(out, [0, 0, 0, 0]);
}

#[test]
fn producer_end_takes_what_it_saw_free() {
    let (mut producer, mut consumer) = RingBridge::new(8).split();
    assert_eq!(producer.write(&[1, 2, 3, 4, 5]), 5);
    let room = producer.room();
    assert_eq!(room, 3);
    let mut out = [0i16; 4];
    assert_eq!(consumer.fill_output(&mut out), 4);
    assert_eq!(producer.write(&[6, 7, 8]), room);
    assert_eq!(producer.room(), 4);
    assert_eq!(producer.write(&[9, 10]), 2);
    assert_eq!(producer.write(&[11]), 1);
    assert_eq!(producer.room(), 1);
    assert_eq!(producer.write(&[12, 13, 14]), 1);
    assert_eq!(producer.room(), 0);
    assert_eq!(producer.write(&[15]), 0);
    let mut rest = [0i16; 8];
    assert_eq!(consumer.fill_output(&mut rest), 8);
    assert_eq!(rest, [5, 6, 7, 8, 9, 10, 11, 12]);
}
