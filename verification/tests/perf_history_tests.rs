use taskmanager_iced::perf_history::{sample_is_finite, ProcessPerfHistory, MAX_HISTORY_CAPACITY, MIN_HISTORY_CAPACITY};

fn bits(v: f32) -> u32 {
    v.to_bits()
}

fn values(series: Vec<u32>) -> Vec<f32> {
    series.into_iter().map(f32::from_bits).collect()
}

#[test]
fn finite_bit_patterns() {
    assert!(sample_is_finite(bits(0.0)));
    assert!(sample_is_finite(bits(-12.5)));
    assert!(sample_is_finite(bits(f32::MAX)));
    assert!(!sample_is_finite(bits(f32::NAN)));
    assert!(!sample_is_finite(bits(f32::INFINITY)));
    assert!(!sample_is_finite(bits(f32::NEG_INFINITY)));
}

#[test]
fn capacity_is_clamped() {
    assert_eq!(ProcessPerfHistory::new(0).capacity(), MIN_HISTORY_CAPACITY);
    assert_eq!(ProcessPerfHistory::new(60).capacity(), 60);
    assert_eq!(ProcessPerfHistory::new(10_000).capacity(), MAX_HISTORY_CAPACITY);
    let fresh = ProcessPerfHistory::new(5);
    assert!(fresh.is_empty());
    assert_eq!(fresh.pid(), 0);
    assert_eq!(fresh.revision(), 0);
}

#[test]
fn a_full_window_evicts_its_oldest_sample() {
    let mut h = ProcessPerfHistory::new(2);
    h.push(42, Some(bits(1.0)), None, None, None);
    h.push(42, Some(bits(2.0)), None, None, None);
    h.push(42, Some(bits(3.0)), None, None, None);
    assert_eq!(values(h.cpu_samples()), vec![2.0, 3.0]);
    assert!(h.memory_samples().is_empty());
    assert_eq!(h.pid(), 42);
}

#[test]
fn non_finite_samples_are_dropped_and_do_not_bump_the_revision() {
    let mut h = ProcessPerfHistory::new(4);
    h.push(7, Some(bits(5.0)), Some(bits(1024.0)), None, None);
    let revision = h.revision();
    h.push(7, Some(bits(f32::NAN)), None, None, Some(bits(f32::INFINITY)));
    assert_eq!(h.revision(), revision);
    assert_eq!(values(h.cpu_samples()), vec![5.0]);
    assert_eq!(values(h.memory_samples()), vec![1024.0]);
    assert!(h.disk_write_samples().is_empty());
}

#[test]
fn a_new_pid_clears_every_series() {
    let mut h = ProcessPerfHistory::new(4);
    h.push(1, Some(bits(10.0)), Some(bits(20.0)), Some(bits(30.0)), Some(bits(40.0)));
    assert_eq!(h.revision(), 2);
    h.push(2, Some(bits(50.0)), None, None, None);
    assert_eq!(h.pid(), 2);
    assert_eq!(values(h.cpu_samples()), vec![50.0]);
    assert!(h.memory_samples().is_empty());
    assert!(h.disk_read_samples().is_empty());
    assert_eq!(h.revision(), 4);
    h.push(0, Some(bits(60.0)), None, None, None);
    assert_eq!(h.pid(), 2);
    assert_eq!(values(h.cpu_samples()), vec![50.0, 60.0]);
}

#[test]
fn resize_clears_and_repoints() {
    let mut h = ProcessPerfHistory::new(4);
    h.push(3, Some(bits(1.0)), None, None, None);
    h.resize(1, 9);
    assert_eq!(h.capacity(), MIN_HISTORY_CAPACITY);
    assert_eq!(h.pid(), 9);
    assert!(h.is_empty());
}

#[test]
fn seeding_keeps_the_newest_finite_tail() {
    let mut h = ProcessPerfHistory::new(60);
    let cpu: Vec<u32> = [1.0f32, 2.0, 3.0, 4.0].iter().map(|v| bits(*v)).collect();
    let memory = vec![bits(8.0), bits(f32::NAN), bits(9.0)];
    h.seed_from_provider(11, 3, &cpu, &memory, &[], &[]);
    assert_eq!(h.capacity(), 3);
    assert_eq!(h.pid(), 11);
    assert_eq!(values(h.cpu_samples()), vec![2.0, 3.0, 4.0]);
    assert_eq!(values(h.memory_samples()), vec![8.0, 9.0]);
    assert!(h.disk_read_samples().is_empty());
}

#[test]
fn snapshot_copies_all_four_series() {
    let mut h = ProcessPerfHistory::new(3);
    h.push(9, Some(bits(1.0)), Some(bits(2.0)), Some(bits(3.0)), None);
    h.push(9, Some(bits(4.0)), None, Some(bits(5.0)), Some(bits(6.0)));
    let snap = h.snapshot();
    assert_eq!(values(snap.cpu), vec![1.0, 4.0]);
    assert_eq!(values(snap.memory), vec![2.0]);
    assert_eq!(values(snap.disk_read), vec![3.0, 5.0]);
    assert_eq!(values(snap.disk_write), vec![6.0]);
}
