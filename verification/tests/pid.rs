use motor_control::error::ConfigError;
use motor_control::fixed::Fixed;
use motor_control::fixed::ONE_RAW;
use motor_control::pid::PIDConfig;
use motor_control::pid::PID;

fn fixed(value: f32) -> Fixed {
    Fixed {
        raw: (value as f64 * ONE_RAW as f64).round() as i64,
    }
}

fn float(value: Fixed) -> f32 {
    (value.raw as f64 / ONE_RAW as f64) as f32
}

#[test]
fn p() {
    let cfg = PIDConfig {
        K_p: fixed(1f32),
        K_i: fixed(0f32),
        K_d: fixed(0f32),
        limit_high: fixed(100f32),
        limit_low: fixed(-100f32),
    };

    let mut pid = PID::new(cfg, fixed(1000f32)).unwrap();

    // test p channel
    assert_eq!(float(pid.update(fixed(1f32))), 1f32);
    // check if other channels are silent
    assert_eq!(float(pid.update(fixed(2f32))), 2f32);
    // check upper limit
    assert_eq!(float(pid.update(fixed(200f32))), 100f32);
    // check lower limit
    assert_eq!(float(pid.update(fixed(-200f32))), -100f32);
}

#[test]
fn pi() {
    let cfg = PIDConfig {
        K_p: fixed(1f32),
        K_i: fixed(1f32),
        K_d: fixed(0f32),
        limit_high: fixed(100f32),
        limit_low: fixed(-100f32),
    };

    let mut pid = PID::new(cfg, fixed(1f32)).unwrap();

    // test pi
    assert_eq!(float(pid.update(fixed(1f32))), 2f32);
    // check integrator
    assert_eq!(float(pid.update(fixed(2f32))), 5f32);
    // check upper limit
    assert_eq!(float(pid.update(fixed(200f32))), 100f32);
    // check anti windup
    assert_eq!(float(pid.update(fixed(0f32))), 100f32);
    // check lower limit
    assert_eq!(float(pid.update(fixed(-200f32))), -100f32);
    // check anti windup
    assert_eq!(float(pid.update(fixed(0f32))), -100f32);
    // check reset
    pid.reset(fixed(50f32), fixed(0f32));
    assert_eq!(float(pid.update(fixed(0f32))), 50f32);
}

#[test]
fn pd() {
    let cfg = PIDConfig {
        K_p: fixed(1f32),
        K_i: fixed(0f32),
        K_d: fixed(1f32),
        limit_high: fixed(100f32),
        limit_low: fixed(-100f32),
    };

    let mut pid = PID::new(cfg, fixed(1f32)).unwrap();
    // test pd
    assert_eq!(float(pid.update(fixed(1f32))), 2f32);
    // check differentiator
    assert_eq!(float(pid.update(fixed(2f32))), 3f32);
    // check upper limit
    assert_eq!(float(pid.update(fixed(200f32))), 100f32);
    // check lower limit
    assert_eq!(float(pid.update(fixed(-200f32))), -100f32);
    // check reset
    pid.reset(fixed(50f32), fixed(50f32));
    assert_eq!(float(pid.update(fixed(0f32))), -50f32);
}

#[test]
fn pid_refuses_zero_sampling_frequency() {
    let cfg = PIDConfig {
        K_p: Fixed { raw: ONE_RAW },
        K_i: Fixed { raw: ONE_RAW },
        K_d: Fixed { raw: ONE_RAW },
        limit_high: Fixed { raw: ONE_RAW },
        limit_low: Fixed { raw: -ONE_RAW },
    };
    assert_eq!(
        PID::new(cfg, Fixed { raw: 0 }).err(),
        Some(ConfigError::ZeroSamplingFrequency)
    );
    assert!(PID::new(cfg, Fixed { raw: 1 }).is_ok());
    assert!(PID::new(cfg, Fixed { raw: -ONE_RAW }).is_ok());
}

#[test]
fn pid_gains_are_per_sample() {
    // K_i = 3/s and K_d = 0.5 s at 4 Hz: 0.75 and 0.125 per sample
    let cfg = PIDConfig {
        K_p: Fixed { raw: 2 * ONE_RAW },
        K_i: Fixed { raw: 3 * ONE_RAW },
        K_d: Fixed { raw: ONE_RAW / 2 },
        limit_high: Fixed { raw: 1000 * ONE_RAW },
        limit_low: Fixed { raw: -1000 * ONE_RAW },
    };
    let mut pid = PID::new(cfg, Fixed { raw: 4 * ONE_RAW }).unwrap();
    // i = 0.75·8 = 6, d = 0.125·(8 − 0) = 1, out = (6 + 1 + 8)·2 = 30
    assert_eq!(pid.update(Fixed { raw: 8 * ONE_RAW }).raw, 30 * ONE_RAW);
    // i = 6 + 0.75·(−4) = 3, d = 0.125·(−4 − 8) = −1.5, out = (3 − 1.5 − 4)·2 = −5
    assert_eq!(pid.update(Fixed { raw: -4 * ONE_RAW }).raw, -5 * ONE_RAW);
}

#[test]
fn pid_proportional_only_is_a_clamp() {
    let cfg = PIDConfig {
        K_p: Fixed { raw: ONE_RAW },
        K_i: Fixed { raw: 0 },
        K_d: Fixed { raw: 0 },
        limit_high: Fixed { raw: 7 * ONE_RAW },
        limit_low: Fixed { raw: -3 * ONE_RAW },
    };
    let mut pid = PID::new(cfg, Fixed { raw: 50 * ONE_RAW }).unwrap();
    for raw in [
        0,
        1,
        -1,
        ONE_RAW / 3,
        7 * ONE_RAW,
        7 * ONE_RAW + 1,
        -3 * ONE_RAW,
        -3 * ONE_RAW - 1,
        i64::MAX,
        i64::MIN,
    ] {
        let x = Fixed { raw };
        assert_eq!(pid.update(x), x.clamp(cfg.limit_low, cfg.limit_high));
    }
}

#[test]
fn pid_integrator_never_winds_up() {
    let cfg = PIDConfig {
        K_p: Fixed { raw: ONE_RAW },
        K_i: Fixed { raw: 100 * ONE_RAW },
        K_d: Fixed { raw: 0 },
        limit_high: Fixed { raw: 10 * ONE_RAW },
        limit_low: Fixed { raw: -10 * ONE_RAW },
    };
    let mut pid = PID::new(cfg, Fixed { raw: ONE_RAW }).unwrap();
    for _ in 0..100 {
        let output = pid.update(Fixed { raw: i64::MAX });
        assert_eq!(output.raw, 10 * ONE_RAW);
    }
    // an integrator held at the limit lets go within one update:
    // i = 10 + 100·(−0.125) = −2.5, out = −2.5 − 0.125
    let output = pid.update(Fixed { raw: -ONE_RAW / 8 });
    assert_eq!(output.raw, -ONE_RAW * 21 / 8);
    for _ in 0..100 {
        let output = pid.update(Fixed { raw: i64::MIN });
        assert_eq!(output.raw, -10 * ONE_RAW);
    }
}

#[test]
fn pid_reset_then_zero_error_gives_the_integrator() {
    let cfg = PIDConfig {
        K_p: Fixed { raw: 3 * ONE_RAW },
        K_i: Fixed { raw: ONE_RAW },
        K_d: Fixed { raw: 5 * ONE_RAW },
        limit_high: Fixed { raw: 100 * ONE_RAW },
        limit_low: Fixed { raw: -100 * ONE_RAW },
    };
    let mut pid = PID::new(cfg, Fixed { raw: 10 * ONE_RAW }).unwrap();
    pid.update(Fixed { raw: 17 * ONE_RAW });
    pid.reset(Fixed { raw: 20 * ONE_RAW }, Fixed { raw: 0 });
    assert_eq!(pid.update(Fixed { raw: 0 }).raw, 60 * ONE_RAW);
    pid.reset(Fixed { raw: 90 * ONE_RAW }, Fixed { raw: 0 });
    assert_eq!(pid.update(Fixed { raw: 0 }).raw, 100 * ONE_RAW);
}

#[test]
fn pid_limits_out_of_order_give_the_upper_one_first() {
    let cfg = PIDConfig {
        K_p: Fixed { raw: ONE_RAW },
        K_i: Fixed { raw: 0 },
        K_d: Fixed { raw: 0 },
        limit_high: Fixed { raw: -ONE_RAW },
        limit_low: Fixed { raw: ONE_RAW },
    };
    let mut pid = PID::new(cfg, Fixed { raw: ONE_RAW }).unwrap();
    assert_eq!(pid.update(Fixed { raw: 0 }).raw, -ONE_RAW);
    assert_eq!(pid.update(Fixed { raw: -2 * ONE_RAW }).raw, ONE_RAW);
}
