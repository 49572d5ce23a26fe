use sound_image::ring::{CaptureRing, FillMode};

fn bits(v: f32) -> u32 {
    v.to_bits()
}

#[test]
fn new_ring_is_empty_and_drops_when_full() {
    let ring = CaptureRing::new(8);
    assert_eq!(ring.len(), 0);
    assert_eq!(ring.capacity(), 8);
    assert_eq!(ring.mode(), FillMode::DropWhenFull);
    assert!(ring.snapshot().is_empty());
}

#[test]
fn length_never_exceeds_capacity() {
    let mut ring = CaptureRing::new(5);
    for i in 0..23u32 {
        ring.push(i);
        assert!(ring.len() <= 5);
        if i == 11 {
            ring.enter_overwrite_mode();
        }
        if i == 17 {
            ring.clear();
            assert_eq!(ring.len(), 0);
        }
    }
    assert!(ring.len() <= ring.capacity());
}

#[test]
fn snapshot_keeps_arrival_order() {
    let mut ring = CaptureRing::new(4);
    ring.enter_overwrite_mode();
    ring.push_all(&[1, 2, 3, 4, 5, 6]);
    assert_eq!(ring.snapshot(), vec![3, 4, 5, 6]);
    let mut pre = CaptureRing::new(4);
    pre.push_all(&[1, 2, 3]);
    assert_eq!(pre.snapshot(), vec![1, 2, 3]);
}

#[test]
fn snapshots_without_push_are_equal_and_pushes_shift() {
    let mut ring = CaptureRing::new(4);
    ring.enter_overwrite_mode();
    ring.push_all(&[10, 11, 12, 13]);
    let a = ring.snapshot();
    let b = ring.snapshot();
    assert_eq!(a, b);
    ring.push_all(&[20, 21]);
    assert_eq!(ring.snapshot(), vec![12, 13, 20, 21]);
}

#[test]
fn pre_sync_overflow_clears_then_refills() {
    let cap: usize = 1000;
    let mut ring = CaptureRing::new(cap);
    let silence = bits(0.0);
    for _ in 0..(cap - 1) {
        ring.push(silence);
    }
    assert_eq!(ring.len(), cap - 1);
    ring.push(silence);
    assert_eq!(ring.len(), 0);
    for k in 1..=cap {
        ring.push(silence);
        assert!(ring.len() <= cap);
        assert_eq!(ring.len(), k % cap);
    }
    assert_eq!(ring.len(), 0);
}

#[test]
fn pre_sync_drop_keeps_nothing_of_the_filling_push() {
    let mut ring = CaptureRing::new(3);
    ring.push_all(&[1, 2]);
    assert_eq!(ring.snapshot(), vec![1, 2]);
    ring.push(3);
    assert!(ring.snapshot().is_empty());
    ring.push(4);
    assert_eq!(ring.snapshot(), vec![4]);
}

#[test]
fn post_sync_keeps_last_capacity_samples() {
    let cap: usize = 512;
    let mut ring = CaptureRing::new(cap);
    ring.enter_overwrite_mode();
    let pushed: Vec<u32> = (0..(cap as u32 + 128)).map(|i| bits(i as f32 / 1000.0)).collect();
    ring.push_all(&pushed);
    assert_eq!(ring.snapshot(), pushed[128..].to_vec());
}

#[test]
fn tail_gives_newest_samples_or_none() {
    let mut ring = CaptureRing::new(10);
    ring.push_all(&[1, 2, 3, 4, 5]);
    assert_eq!(ring.tail(3), Some(vec![3, 4, 5]));
    assert_eq!(ring.tail(5), Some(vec![1, 2, 3, 4, 5]));
    assert_eq!(ring.tail(6), None);
}

#[test]
fn mode_switch_keeps_contents() {
    let mut ring = CaptureRing::new(3);
    ring.push_all(&[7, 8]);
    ring.enter_overwrite_mode();
    assert_eq!(ring.mode(), FillMode::OverwriteOldest);
    assert_eq!(ring.snapshot(), vec![7, 8]);
    ring.push_all(&[9, 10]);
    assert_eq!(ring.snapshot(), vec![8, 9, 10]);
}
