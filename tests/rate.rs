use isofetch::rate::RateEstimator;

#[test]
fn no_sample_before_interval() {
    let mut r = RateEstimator::new(0);
    assert_eq!(r.observe(50_000, 100), None);
    assert_eq!(r.samples().len(), 0);
    assert_eq!(r.average(), 0);
}

#[test]
fn first_sample_is_instant_rate() {
    let mut r = RateEstimator::new(0);
    // 1000 bytes in 0.1 s
    assert_eq!(r.observe(100_000, 1000), Some(10_000));
    assert_eq!(r.samples(), vec![10_000]);
}

#[test]
fn anchor_moves_only_when_sampled() {
    let mut r = RateEstimator::new(0);
    assert_eq!(r.observe(60_000, 500), None);
    // measured from the start, not from the skipped observation
    assert_eq!(r.observe(200_000, 1000), Some(5_000));
    // then from the last sample: 3000 bytes over 0.3 s
    assert_eq!(r.observe(500_000, 4000), Some((5_000 + 10_000) / 2));
}

#[test]
fn clock_going_back_takes_no_sample() {
    let mut r = RateEstimator::new(1_000_000);
    assert_eq!(r.observe(500_000, 10), None);
}

#[test]
fn window_keeps_last_twenty() {
    let mut r = RateEstimator::new(0);
    let mut downloaded: u64 = 0;
    let mut all = Vec::new();
    for k in 1..=25u64 {
        // k * 100 bytes in each 0.1 s step: a rate of k * 1000 bytes/s
        downloaded += k * 100;
        let got = r.observe(k * 100_000, downloaded);
        all.push(k * 1000);
        let recent: Vec<u64> = all.iter().rev().take(20).rev().cloned().collect();
        let expected = recent.iter().sum::<u64>() / recent.len() as u64;
        assert_eq!(got, Some(expected));
        assert!(r.samples().len() <= 20);
    }
    assert_eq!(r.samples(), (6..=25u64).map(|k| k * 1000).collect::<Vec<u64>>());
    assert_eq!(r.average(), (6..=25u64).map(|k| k * 1000).sum::<u64>() / 20);
}
