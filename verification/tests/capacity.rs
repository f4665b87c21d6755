use std::time::Duration;
use tiny_actor::{BackPressure, Capacity, Growth, Timeout};

/// The `f32` step that turns a scaled timeout into a duration.
fn scaled(t: Option<Timeout>) -> Option<Duration> {
    match t {
        Some(Timeout::Scaled { base_nanos, factor_bits, exponent }) => {
            let mult = f32::from_bits(factor_bits).powi(exponent);
            Some(Duration::from_nanos((base_nanos as f32 * mult) as u64))
        }
        Some(Timeout::Exact(d)) => Some(d),
        None => None,
    }
}

#[test]
fn backpressure_linear() {
    let cfg = BackPressure {
        start_at: 0,
        timeout: Duration::from_secs(1),
        growth: Growth::Linear,
    };

    assert_eq!(cfg.get_timeout(0), Some(Timeout::Exact(Duration::from_secs(1))));
    assert_eq!(cfg.get_timeout(1), Some(Timeout::Exact(Duration::from_secs(2))));
    assert_eq!(cfg.get_timeout(10), Some(Timeout::Exact(Duration::from_secs(11))));
}

#[test]
fn backpressure_linear_start_at() {
    let cfg = BackPressure {
        start_at: 10,
        timeout: Duration::from_secs(1),
        growth: Growth::Linear,
    };

    assert_eq!(cfg.get_timeout(0), None);
    assert_eq!(cfg.get_timeout(1), None);
    assert_eq!(cfg.get_timeout(9), None);
    assert_eq!(cfg.get_timeout(10), Some(Timeout::Exact(Duration::from_secs(1))));
    assert_eq!(cfg.get_timeout(11), Some(Timeout::Exact(Duration::from_secs(2))));
    assert_eq!(cfg.get_timeout(20), Some(Timeout::Exact(Duration::from_secs(11))));
}

#[test]
fn backpressure_linear_max() {
    let cfg = BackPressure {
        start_at: usize::MAX,
        timeout: Duration::from_secs(1),
        growth: Growth::Linear,
    };

    assert_eq!(cfg.get_timeout(0), None);
    assert_eq!(cfg.get_timeout(1), None);
    assert_eq!(cfg.get_timeout(9), None);
    assert_eq!(cfg.get_timeout(usize::MAX - 1), None);
    assert_eq!(cfg.get_timeout(usize::MAX), Some(Timeout::Exact(Duration::from_secs(1))));
}

#[test]
fn backpressure_exponential() {
    let cfg = BackPressure {
        start_at: 0,
        timeout: Duration::from_secs(1),
        growth: Growth::Exponential(1.1f32.to_bits()),
    };

    assert_eq!(
        scaled(cfg.get_timeout(0)),
        Some(Duration::from_nanos(1_000_000_000))
    );
    assert_eq!(
        scaled(cfg.get_timeout(1)),
        Some(Duration::from_nanos(1_100_000_000))
    );
    assert_eq!(
        scaled(cfg.get_timeout(2)),
        Some(Duration::from_nanos(1_210_000_000))
    );
    assert_eq!(
        scaled(cfg.get_timeout(3)),
        Some(Duration::from_nanos(1_331_000_064))
    );
}

#[test]
fn exponential_timeout_parts() {
    let cfg = BackPressure {
        start_at: 4,
        timeout: Duration::from_nanos(7),
        growth: Growth::Exponential(1.5f32.to_bits()),
    };
    assert_eq!(cfg.get_timeout(3), None);
    assert_eq!(
        cfg.get_timeout(4),
        Some(Timeout::Scaled { base_nanos: 7, factor_bits: 1.5f32.to_bits(), exponent: 0 })
    );
    assert_eq!(
        cfg.get_timeout(9),
        Some(Timeout::Scaled { base_nanos: 7, factor_bits: 1.5f32.to_bits(), exponent: 5 })
    );
}

#[test]
fn exponential_exponent_is_capped() {
    let cfg = BackPressure {
        start_at: 0,
        timeout: Duration::from_nanos(1),
        growth: Growth::Exponential(1.0f32.to_bits()),
    };
    assert_eq!(
        cfg.get_timeout(usize::MAX),
        Some(Timeout::Scaled { base_nanos: 1, factor_bits: 1.0f32.to_bits(), exponent: i32::MAX })
    );
}

#[test]
fn linear_timeout_saturates() {
    let cfg = BackPressure {
        start_at: 0,
        timeout: Duration::from_secs(u64::MAX),
        growth: Growth::Linear,
    };
    assert_eq!(cfg.get_timeout(0), Some(Timeout::Exact(Duration::from_nanos(u64::MAX))));
    assert_eq!(cfg.get_timeout(usize::MAX), Some(Timeout::Exact(Duration::from_nanos(u64::MAX))));
}

#[test]
fn disabled_backpressure_never_waits() {
    let cfg = BackPressure::disabled();
    assert_eq!(cfg.start_at, usize::MAX);
    assert_eq!(cfg.growth, Growth::Linear);
    assert_eq!(cfg.get_timeout(0), None);
    assert_eq!(cfg.get_timeout(usize::MAX - 1), None);
    assert_eq!(cfg.get_timeout(usize::MAX), Some(Timeout::Exact(Duration::from_nanos(0))));
}

#[test]
fn linear_timeout_grows() {
    let cfg = BackPressure {
        start_at: 2,
        timeout: Duration::from_millis(3),
        growth: Growth::Linear,
    };
    let mut last = Duration::from_nanos(0);
    for count in 2..50 {
        match cfg.get_timeout(count) {
            Some(Timeout::Exact(d)) => {
                assert!(d >= last);
                last = d;
            }
            other => panic!("unexpected {:?}", other),
        }
    }
    assert_eq!(last, Duration::from_millis(3 * 48));
}

#[test]
fn default_capacity() {
    let cap = Capacity::default();
    assert_eq!(
        cap,
        Capacity::Unbounded(BackPressure {
            start_at: 5,
            timeout: Duration::from_nanos(25),
            growth: Growth::Exponential(1.3f32.to_bits()),
        })
    );
    assert_eq!(BackPressure::default().get_timeout(4), None);
}
