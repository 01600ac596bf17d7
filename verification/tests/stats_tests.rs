use pager::stats::{PagerStats, Ratio};

fn ratio_as_float(ratio: Ratio) -> f64 {
    ratio.numerator as f64 / ratio.denominator as f64
}

#[test]
fn test_pager_stats_default() {
    let stats = PagerStats::default();
    assert_eq!(stats.local_faults, 0);
    assert_eq!(stats.remote_faults, 0);
    assert!(stats.fault_service_time_us.is_empty());
    assert_eq!(ratio_as_float(stats.remote_miss_ratio()), 0.0);
}

#[test]
fn test_pager_stats_remote_miss_ratio() {
    let mut stats = PagerStats::default();
    stats.local_faults = 95;
    stats.remote_faults = 5;

    assert_eq!(ratio_as_float(stats.remote_miss_ratio()), 0.05);
}

#[test]
fn test_pager_stats_remote_miss_ratio_zero() {
    let mut stats = PagerStats::default();
    stats.local_faults = 100;
    stats.remote_faults = 0;

    assert_eq!(ratio_as_float(stats.remote_miss_ratio()), 0.0);
}

#[test]
fn test_pager_stats_remote_miss_ratio_all_remote() {
    let mut stats = PagerStats::default();
    stats.local_faults = 0;
    stats.remote_faults = 100;

    assert_eq!(ratio_as_float(stats.remote_miss_ratio()), 1.0);
}

#[test]
fn test_pager_stats_median_latency() {
    let mut stats = PagerStats::default();
    stats.fault_service_time_us = vec![10, 20, 30, 40, 50];

    assert_eq!(stats.median_latency_us(), Some(30));
}

#[test]
fn test_pager_stats_median_latency_even_count() {
    let mut stats = PagerStats::default();
    stats.fault_service_time_us = vec![10, 20, 30, 40];

    // Median of even count averages the two middle elements: (20 + 30) / 2 = 25
    assert_eq!(stats.median_latency_us(), Some(25));
}

#[test]
fn test_pager_stats_p99_latency() {
    let mut stats = PagerStats::default();
    stats.fault_service_time_us = (1..=100).collect();

    let p99 = stats.p99_latency_us().unwrap();
    assert!(p99 >= 99);
}

#[test]
fn test_pager_stats_p99_latency_small_sample() {
    let mut stats = PagerStats::default();
    stats.fault_service_time_us = vec![100, 200, 500];

    // p99 with 3 samples should return highest
    assert_eq!(stats.p99_latency_us(), Some(500));
}

#[test]
fn test_pager_stats_empty_latency() {
    let stats = PagerStats::default();
    assert_eq!(stats.median_latency_us(), None);
    assert_eq!(stats.p99_latency_us(), None);
}

#[test]
fn test_pager_stats_clone() {
    let mut stats = PagerStats::default();
    stats.local_faults = 10;
    stats.remote_faults = 5;
    stats.fault_service_time_us = vec![100, 200];

    let cloned = stats.clone();
    assert_eq!(cloned.local_faults, 10);
    assert_eq!(cloned.remote_faults, 5);
    assert_eq!(cloned.fault_service_time_us.len(), 2);
}

#[test]
fn median_ranks_unsorted_samples() {
    let mut stats = PagerStats::new();
    stats.fault_service_time_us = vec![50, 10, 40, 20, 30];
    assert_eq!(stats.median_latency_us(), Some(30));
    // the samples themselves stay in the order of arrival
    assert_eq!(stats.fault_service_time_us, vec![50, 10, 40, 20, 30]);

    stats.fault_service_time_us = vec![40, 10, 30, 20];
    assert_eq!(stats.median_latency_us(), Some(25));

    stats.fault_service_time_us = vec![7];
    assert_eq!(stats.median_latency_us(), Some(7));
    assert_eq!(stats.p99_latency_us(), Some(7));
}

#[test]
fn median_of_two_rounds_down_and_does_not_overflow() {
    let mut stats = PagerStats::new();
    stats.fault_service_time_us = vec![2, 1];
    assert_eq!(stats.median_latency_us(), Some(1));
    stats.fault_service_time_us = vec![u64::MAX, u64::MAX - 2];
    assert_eq!(stats.median_latency_us(), Some(u64::MAX - 1));
}

#[test]
fn p99_takes_the_sample_at_rank_99_percent() {
    let mut stats = PagerStats::new();
    // 100 samples: rank 99 of 0..=99, which is the largest
    stats.fault_service_time_us = (1..=100).rev().collect();
    assert_eq!(stats.p99_latency_us(), Some(100));
    // 200 samples: rank 198
    stats.fault_service_time_us = (1..=200).rev().collect();
    assert_eq!(stats.p99_latency_us(), Some(199));
    // 1000 samples: rank 990
    stats.fault_service_time_us = (0..1000).rev().collect();
    assert_eq!(stats.p99_latency_us(), Some(990));
    // 101 samples: rank 99
    stats.fault_service_time_us = (0..101).collect();
    assert_eq!(stats.p99_latency_us(), Some(99));
}

#[test]
fn p99_rank_agrees_with_the_float_formula() {
    for len in 1usize..=5000 {
        let by_float = ((len as f64 * 0.99) as usize).min(len - 1);
        let mut stats = PagerStats::new();
        stats.fault_service_time_us = (0..len as u64).collect();
        assert_eq!(stats.p99_latency_us(), Some(by_float as u64));
    }
}

#[test]
fn miss_ratio_is_exact_and_within_bounds() {
    let mut stats = PagerStats::new();
    assert_eq!(stats.remote_miss_ratio(), Ratio { numerator: 0, denominator: 1 });

    stats.local_faults = 3;
    stats.remote_faults = 1;
    assert_eq!(stats.remote_miss_ratio(), Ratio { numerator: 1, denominator: 4 });
    assert_eq!(ratio_as_float(stats.remote_miss_ratio()), 0.25);

    stats.local_faults = u64::MAX;
    stats.remote_faults = u64::MAX;
    let ratio = stats.remote_miss_ratio();
    assert_eq!(ratio.numerator, u64::MAX);
    assert_eq!(ratio.denominator, 2 * (u64::MAX as u128));
    assert_eq!(ratio_as_float(ratio), 0.5);
}

#[test]
fn snapshot_copies_every_figure() {
    let mut stats = PagerStats::new();
    stats.local_faults = 4;
    stats.remote_faults = 2;
    stats.fault_service_time_us = vec![9, 8, 7];
    let copy = stats.snapshot();
    assert_eq!(copy.local_faults, 4);
    assert_eq!(copy.remote_faults, 2);
    assert_eq!(copy.fault_service_time_us, vec![9, 8, 7]);
}
