use ctrl_modem::speedtest::{
    asn_to_name, colo_to_city, format_size_label, parse_server_timing_tcp, SpeedtestHistory,
    transfer_schedule, upload_chunks, MeasurementStep, TestConfig, MAX_HISTORY, UPLOAD_CHUNK_LIMIT,
};
use ctrl_modem::types::SpeedtestMode;

struct Result {
    id: String,
    download_mbps: f64,
}

#[test]
fn test_history_ring_buffer() {
    let mut history: SpeedtestHistory<Result> = SpeedtestHistory::new();
    assert_eq!(history.results.len(), 0);
    for i in 0..55 {
        history.push(Result { id: format!("test-{i}"), download_mbps: 100.0 });
    }
    assert_eq!(history.results.len(), MAX_HISTORY);
    assert_eq!(history.results.front().unwrap().id, "test-5");
    assert_eq!(history.results.back().unwrap().id, "test-54");
    assert_eq!(history.results.back().unwrap().download_mbps, 100.0);
}

#[test]
fn size_labels() {
    assert_eq!(format_size_label(50_000_000), "50MB");
    assert_eq!(format_size_label(25_000_000), "25MB");
    assert_eq!(format_size_label(10_000_000), "10MB");
    assert_eq!(format_size_label(1_000_000), "1MB");
    assert_eq!(format_size_label(100_000), "100KB");
    assert_eq!(format_size_label(512), "512B");
}

#[test]
fn asn_and_city_lookups() {
    assert_eq!(asn_to_name(7018), "AT&T");
    assert_eq!(asn_to_name(33651), "Comcast");
    assert_eq!(asn_to_name(1), "Unknown");
    assert_eq!(colo_to_city("SJC"), "San Jose, CA");
    assert_eq!(colo_to_city("FRA"), "FRA");
}

#[test]
fn server_timing_tcp_stats() {
    let header = "cfRequestDuration;dur=12.3, cfL4;desc=\"?proto=TCP&rtt=1234&min_rtt=1000&lost=0&retrans=2&cwnd=10&delivery_rate=50000000\"";
    let stats = parse_server_timing_tcp(header).expect("cfL4 section present");
    assert_eq!(stats.rtt_us, 1234);
    assert_eq!(stats.min_rtt_us, 1000);
    assert_eq!(stats.lost, 0);
    assert_eq!(stats.retrans, 2);
    assert_eq!(stats.cwnd, 10);
    assert_eq!(stats.delivery_rate_bps, 50_000_000);
    assert!(parse_server_timing_tcp("cfRequestDuration;dur=12.3").is_none());
    let partial = parse_server_timing_tcp("cfL4;desc=\"rtt=5&rtt=7&cwnd=x\"").unwrap();
    assert_eq!(partial.rtt_us, 7);
    assert_eq!(partial.cwnd, 0);
}

#[test]
fn test_config_quick_vs_full() {
    let quick = TestConfig::quick();
    let full = TestConfig::full();

    assert_eq!(quick.latency_probes, 5);
    assert_eq!(full.latency_probes, 20);
    assert!(full.download_steps.len() > quick.download_steps.len());
    assert!(full.upload_steps.len() > quick.upload_steps.len());
    assert!(full.warmup);
    assert!(!quick.warmup);
    assert!(full.measure_loaded_latency);
    assert!(!quick.measure_loaded_latency);
}

#[test]
fn test_config_medium() {
    let medium = TestConfig::medium();
    assert_eq!(medium.latency_probes, 10);
    assert_eq!(medium.download_steps.len(), 3);
    assert_eq!(medium.upload_steps.len(), 3);
    assert!(medium.collect_metadata);
    assert!(medium.calculate_aim);
    assert!(medium.measure_loaded_latency);
    assert!(!medium.parse_tcp_stats);
}

#[test]
fn test_config_payload_sizes_are_safe() {
    for config in [TestConfig::quick(), TestConfig::medium(), TestConfig::full()] {
        for step in config.download_steps.iter().chain(config.upload_steps.iter()) {
            assert!(
                step.payload_bytes < 11_000_000 || step.payload_bytes >= 20_000_000,
                "Payload {} is in forbidden 11M-20M range",
                step.payload_bytes
            );
            assert!(
                step.payload_bytes < 100_000_000,
                "Payload {} is >= 100MB forbidden range",
                step.payload_bytes
            );
        }
    }
}

#[test]
fn test_config_total_bytes() {
    let quick = TestConfig::quick();
    assert_eq!(quick.total_download_bytes(), 3_300_000);
    assert_eq!(quick.total_upload_bytes(), 2_300_000);

    let medium = TestConfig::medium();
    assert_eq!(medium.total_download_bytes(), 35_500_000);
}

#[test]
fn config_for_each_mode() {
    let full = TestConfig::for_mode(SpeedtestMode::Full);
    assert_eq!(full.total_download_bytes(), 168_900_000);
    assert_eq!(full.total_upload_bytes(), 146_800_000);
    assert!(full.parse_tcp_stats && full.collect_breakdown);
    assert_eq!(full.early_termination_ms, Some(1000));
    let medium = TestConfig::for_mode(SpeedtestMode::Medium);
    assert_eq!(medium.total_upload_bytes(), 44_500_000);
    assert_eq!(medium.total_download_bytes() + medium.total_upload_bytes(), 80_000_000);
    assert_eq!(medium.early_termination_ms, Some(3000));
    let quick = TestConfig::for_mode(SpeedtestMode::Quick);
    assert_eq!(quick.download_steps[1].payload_bytes, 1_000_000);
    assert_eq!(quick.upload_steps[1].request_count, 2);
    assert_eq!(quick.min_request_duration_ms, 0);
}

#[test]
fn transfer_schedule_repeats_each_step() {
    let quick = TestConfig::quick();
    assert_eq!(transfer_schedule(&quick.download_steps), vec![100_000, 100_000, 100_000, 1_000_000, 1_000_000, 1_000_000]);
    assert_eq!(transfer_schedule(&quick.upload_steps), vec![100_000, 100_000, 100_000, 1_000_000, 1_000_000]);
    let steps = [
        MeasurementStep { payload_bytes: 7, request_count: 0 },
        MeasurementStep { payload_bytes: 9, request_count: 2 },
    ];
    assert_eq!(transfer_schedule(&steps), vec![9, 9]);
    assert!(transfer_schedule(&[]).is_empty());
    let full = TestConfig::full();
    let total: u64 = transfer_schedule(&full.download_steps).iter().sum();
    assert_eq!(total, full.total_download_bytes());
}

#[test]
fn upload_chunking() {
    assert_eq!(UPLOAD_CHUNK_LIMIT, 2 * 1024 * 1024);
    assert_eq!(upload_chunks(100_000), (1, 100_000));
    assert_eq!(upload_chunks(1_000_000), (1, 1_000_000));
    assert_eq!(upload_chunks(UPLOAD_CHUNK_LIMIT), (1, UPLOAD_CHUNK_LIMIT));
    assert_eq!(upload_chunks(UPLOAD_CHUNK_LIMIT + 1), (2, UPLOAD_CHUNK_LIMIT));
    assert_eq!(upload_chunks(10_000_000), (5, UPLOAD_CHUNK_LIMIT));
    assert_eq!(upload_chunks(25_000_000), (12, UPLOAD_CHUNK_LIMIT));
    assert_eq!(upload_chunks(4 * UPLOAD_CHUNK_LIMIT), (4, UPLOAD_CHUNK_LIMIT));
    assert_eq!(upload_chunks(u64::MAX), (u64::MAX / UPLOAD_CHUNK_LIMIT + 1, UPLOAD_CHUNK_LIMIT));
    assert_eq!(upload_chunks(0), (1, 0));
}
