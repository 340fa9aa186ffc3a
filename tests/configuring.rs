use loadgen::config::{credentials, payload, ConfigError, RunConfig, PAYLOAD_BYTE};

#[test]
fn config_accepts_positive_settings() {
    let cfg = RunConfig::new(1_000, 60, 1024, 4096).unwrap();
    assert_eq!(cfg, RunConfig { rate: 1_000, duration_s: 60, payload_size: 1024, max_concurrency: 4096 });
    assert_eq!(cfg.total_requests(), 60_000);
    assert_eq!(cfg.request_period_nanos(), 1_000_000);
    assert_eq!(cfg.pacer().admitted, 0);
}

#[test]
fn config_rejects_each_bad_setting() {
    assert_eq!(RunConfig::new(0, 60, 1, 1), Err(ConfigError::ZeroRate));
    assert_eq!(RunConfig::new(10, 0, 1, 1), Err(ConfigError::ZeroDuration));
    assert_eq!(RunConfig::new(10, 60, 1, 0), Err(ConfigError::ZeroConcurrency));
    assert_eq!(RunConfig::new(u64::MAX, 2, 1, 1), Err(ConfigError::TooManyRequests));
    assert_eq!(RunConfig::new(u64::MAX, 1, 1, 1).map(|c| c.total_requests()), Ok(u64::MAX));
}

#[test]
fn credentials_come_in_pairs() {
    assert_eq!(credentials(None, None), Ok(None));
    assert_eq!(
        credentials(Some("u".to_string()), Some("p".to_string())),
        Ok(Some(("u".to_string(), "p".to_string())))
    );
    assert_eq!(credentials(Some("u".to_string()), None), Err(ConfigError::PartialCredentials));
    assert_eq!(credentials(None, Some("p".to_string())), Err(ConfigError::PartialCredentials));
}

#[test]
fn payload_has_requested_size() {
    assert!(payload(0).is_empty());
    let p = payload(1024);
    assert_eq!(p.len(), 1024);
    assert!(p.iter().all(|&b| b == PAYLOAD_BYTE));
    assert_eq!(RunConfig::new(1, 1, 3, 1).unwrap().payload(), vec![42, 42, 42]);
}
