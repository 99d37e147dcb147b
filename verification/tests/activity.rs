use kernel::monitor::{
    graph_offset, meter_level, meter_top, percent_parts, usage_sample, MeterLevel, UsageHistory, N_SAMPLES,
};

#[test]
fn usage_sample_scales_and_caps() {
    assert_eq!(usage_sample(&[], 2), 0);
    assert_eq!(usage_sample(&[500, 500], 2), 127);
    assert_eq!(usage_sample(&[1000, 1000], 2), 254);
    assert_eq!(usage_sample(&[1000, 1000, 900], 2), 254);
    assert_eq!(usage_sample(&[250], 1), 63);
}

#[test]
fn usage_history_reads_back_what_it_recorded() {
    let mut h = UsageHistory::new();
    assert_eq!(h.sample_back(1), u8::MAX);
    assert_eq!(h.sample_back(N_SAMPLES), u8::MAX);
    h.record(10);
    h.record(20);
    assert_eq!(h.sample_back(1), 20);
    assert_eq!(h.sample_back(2), 10);
    assert_eq!(h.sample_back(3), u8::MAX);
    for k in 0..N_SAMPLES {
        h.record(k as u8);
    }
    assert_eq!(h.sample_back(1), (N_SAMPLES - 1) as u8);
    assert_eq!(h.sample_back(N_SAMPLES), 0);
}

#[test]
fn meters_and_graph() {
    assert_eq!(graph_offset(254, 30), 29);
    assert_eq!(graph_offset(255, 30), 30);
    assert_eq!(graph_offset(0, 30), 0);
    assert_eq!(meter_top(32, 500), 16);
    assert_eq!(meter_top(32, 1000), 31);
    assert_eq!(meter_top(32, 0), 0);
    assert_eq!(meter_level(249), MeterLevel::Low);
    assert_eq!(meter_level(250), MeterLevel::Middle);
    assert_eq!(meter_level(750), MeterLevel::High);
    assert_eq!(percent_parts(1234), (123, 4));
}
