use rustmission::utils::{bytes_to_human_format, seconds_to_human_format};

fn bytes_by_division(bytes: i64) -> String {
    let kb: f64 = 1024.0;
    let mb: f64 = kb * 1024.0;
    let gb: f64 = mb * 1024.0;
    let tb: f64 = gb * 1024.0;
    if bytes == 0 {
        return "0 B".to_string();
    }
    let (value, unit) = if bytes < (kb - 25f64) as i64 {
        (bytes as f64, "B")
    } else if bytes < (mb - 25f64) as i64 {
        (bytes as f64 / kb, "KB")
    } else if bytes < (gb - 25f64) as i64 {
        (bytes as f64 / mb, "MB")
    } else if bytes < (tb - 25f64) as i64 {
        (bytes as f64 / gb, "GB")
    } else {
        (bytes as f64 / tb, "TB")
    };
    format!("{value:.1} {unit}")
}

#[test]
fn bytes_zero_is_special() {
    assert_eq!(bytes_to_human_format(0), "0 B");
}

#[test]
fn bytes_exact_values() {
    assert_eq!(bytes_to_human_format(1), "1.0 B");
    assert_eq!(bytes_to_human_format(998), "998.0 B");
    assert_eq!(bytes_to_human_format(999), "1.0 KB");
    assert_eq!(bytes_to_human_format(1024), "1.0 KB");
    assert_eq!(bytes_to_human_format(1536), "1.5 KB");
    assert_eq!(bytes_to_human_format(1048550), "1024.0 KB");
    assert_eq!(bytes_to_human_format(1048551), "1.0 MB");
    assert_eq!(bytes_to_human_format(1073741824), "1.0 GB");
    assert_eq!(bytes_to_human_format(1099511627776), "1.0 TB");
    assert_eq!(bytes_to_human_format(-5), "-5.0 B");
}

#[test]
fn bytes_ties_go_to_the_even_tenth() {
    // 1280 / 1024 = 1.25 and 1792 / 1024 = 1.75 exactly
    assert_eq!(bytes_to_human_format(1280), "1.2 KB");
    assert_eq!(bytes_to_human_format(1792), "1.8 KB");
    assert_eq!(bytes_to_human_format(1280), bytes_by_division(1280));
    assert_eq!(bytes_to_human_format(1792), bytes_by_division(1792));
}

#[test]
fn bytes_agree_with_division_near_unit_borders() {
    let borders: [i64; 5] = [999, 1048551, 1073741799, 1099511627751, 1 << 53];
    for border in borders {
        let mut delta: i64 = -300;
        while delta <= 300 {
            let bytes = border + delta;
            assert_eq!(bytes_to_human_format(bytes), bytes_by_division(bytes), "{bytes}");
            delta += 1;
        }
    }
}

#[test]
fn bytes_agree_with_division_on_a_sweep() {
    let mut bytes: i64 = 1;
    let mut step: i64 = 1;
    while bytes < i64::MAX / 3 {
        assert_eq!(bytes_to_human_format(bytes), bytes_by_division(bytes), "{bytes}");
        assert_eq!(bytes_to_human_format(bytes + 1), bytes_by_division(bytes + 1), "{bytes}");
        assert_eq!(bytes_to_human_format(bytes - 1), bytes_by_division(bytes - 1), "{bytes}");
        bytes += step;
        step = step * 3 / 2 + 1;
    }
}

#[test]
fn bytes_agree_with_division_on_multiples_of_small_powers() {
    let mut k: i64 = 1;
    while k < 40000 {
        assert_eq!(bytes_to_human_format(k * 64), bytes_by_division(k * 64), "{k}");
        assert_eq!(bytes_to_human_format(k * 65536), bytes_by_division(k * 65536), "{k}");
        assert_eq!(
            bytes_to_human_format(k * 67108864),
            bytes_by_division(k * 67108864),
            "{k}"
        );
        assert_eq!(
            bytes_to_human_format(k * 68719476736),
            bytes_by_division(k * 68719476736),
            "{k}"
        );
        k += 1;
    }
}

#[test]
fn bytes_agree_with_division_at_the_extremes() {
    let values: [i64; 12] = [
        i64::MAX,
        i64::MAX - 1,
        i64::MAX - 511,
        i64::MAX - 512,
        i64::MAX - 513,
        i64::MIN,
        i64::MIN + 1,
        i64::MIN + 1024,
        -(1 << 53) - 1,
        -(1 << 53) - 3,
        -(1 << 54) - 2,
        -(1 << 54) - 6,
    ];
    for bytes in values {
        assert_eq!(bytes_to_human_format(bytes), bytes_by_division(bytes), "{bytes}");
    }
}

#[test]
fn seconds_zero_is_special() {
    assert_eq!(seconds_to_human_format(0), "0s");
}

#[test]
fn seconds_exact_values() {
    assert_eq!(seconds_to_human_format(1), "1s");
    assert_eq!(seconds_to_human_format(59), "59s");
    assert_eq!(seconds_to_human_format(61), "1m1s");
    assert_eq!(seconds_to_human_format(3601), "1h0m1s");
    assert_eq!(seconds_to_human_format(3725), "1h2m5s");
    assert_eq!(seconds_to_human_format(90061), "1d1h1m1s");
    assert_eq!(seconds_to_human_format(172800), "2d0h0m0s");
}

#[test]
fn seconds_of_exactly_one_unit_stay_in_the_smaller_unit() {
    assert_eq!(seconds_to_human_format(60), "60s");
    assert_eq!(seconds_to_human_format(3600), "60m0s");
    assert_eq!(seconds_to_human_format(86400), "24h0m0s");
}

#[test]
fn seconds_negative_are_plain_seconds() {
    assert_eq!(seconds_to_human_format(-5), "-5s");
    assert_eq!(seconds_to_human_format(-100000), "-100000s");
}
