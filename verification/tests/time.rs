use doglog::clock::render_time;

#[test]
fn zero_duration() {
    assert_eq!(render_time(0, 0), "0:00:00.000");
}

#[test]
fn hours_minutes_seconds_millis() {
    // 1 hour, 2 minutes, 5 seconds, 42 milliseconds
    assert_eq!(render_time(3725, 42), "1:02:05.042");
}

#[test]
fn hours_have_no_width_cap_and_no_leading_zero() {
    // 123 hours, 59 minutes, 59 seconds
    assert_eq!(render_time(446399, 999), "123:59:59.999");
}

#[test]
fn subsecond_fields_are_zero_padded() {
    assert_eq!(render_time(61, 7), "0:01:01.007");
    assert_eq!(render_time(60, 70), "0:01:00.070");
    assert_eq!(render_time(59, 700), "0:00:59.700");
}

#[test]
fn rendered_string_round_trips() {
    let cases: Vec<(u64, u32)> = vec![
        (0, 0),
        (1, 1),
        (59, 999),
        (60, 0),
        (3599, 500),
        (3600, 0),
        (3725, 42),
        (446399, 999),
        (86400 * 365, 123),
    ];
    for (secs, millis) in cases {
        let rendered = render_time(secs, millis);
        let (h_part, rest) = rendered.split_once(':').unwrap();
        let (m_part, rest) = rest.split_once(':').unwrap();
        let (s_part, ms_part) = rest.split_once('.').unwrap();
        assert_eq!(m_part.len(), 2);
        assert_eq!(s_part.len(), 2);
        assert_eq!(ms_part.len(), 3);
        let h: u64 = h_part.parse().unwrap();
        let m: u64 = m_part.parse().unwrap();
        let s: u64 = s_part.parse().unwrap();
        let ms: u64 = ms_part.parse().unwrap();
        assert_eq!(h * 3600000 + m * 60000 + s * 1000 + ms, secs * 1000 + millis as u64);
    }
}

#[test]
fn milliseconds_are_truncated_not_rounded() {
    // 999_999 nanoseconds are still 0 milliseconds; the formatter's
    // callers truncate by integer division, rendered here as .000
    assert_eq!(render_time(2, 999_999_999 / 1_000_000), "0:00:02.999");
    assert_eq!(render_time(2, 999_999 / 1_000_000), "0:00:02.000");
}
