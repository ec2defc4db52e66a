use slumberd::handlers::response::SlumberResponse;
use slumberd::handlers::SlumberConfig;
use slumberd::handlers::SlumberKind;
use slumberd::time::Delay;

const ID: u128 = 0x0123_4567_89ab_cdef_0fed_cba9_8765_4321;

fn ms(millis: u64) -> Delay {
    Delay::from_millis(millis)
}

fn fixed(duration: u64) -> SlumberConfig {
    SlumberConfig {
        id: ID,
        kind: SlumberKind::Fixed,
        min: ms(15),
        max: ms(30000),
        duration: ms(duration),
    }
}

fn random(min: u64, duration: u64, max: u64) -> SlumberConfig {
    SlumberConfig {
        id: ID,
        kind: SlumberKind::Random,
        min: ms(min),
        max: ms(max),
        duration: ms(duration),
    }
}

fn pairs(headers: &[(String, String)]) -> Vec<(&str, &str)> {
    headers
        .iter()
        .map(|(name, value)| (name.as_str(), value.as_str()))
        .collect()
}

#[test]
fn fixed_reply_reports_the_delay_without_bounds() {
    let body = fixed(30000).payload();
    assert_eq!(body.request_id, ID);
    assert_eq!(body.duration.kind, SlumberKind::Fixed);
    assert_eq!(body.duration.duration_millis, 30000);
    assert_eq!(body.duration.duration_pretty, "30s");
    assert_eq!(body.duration.min_millis, None);
    assert_eq!(body.duration.min_pretty, None);
    assert_eq!(body.duration.max_millis, None);
    assert_eq!(body.duration.max_pretty, None);
}

#[test]
fn random_reply_reports_the_window() {
    let body = random(1500, 2250, 3000).payload();
    assert_eq!(body.request_id, ID);
    assert_eq!(body.duration.kind, SlumberKind::Random);
    assert_eq!(body.duration.duration_millis, 2250);
    assert_eq!(body.duration.duration_pretty, "2.25s");
    assert_eq!(body.duration.min_millis, Some(1500));
    assert_eq!(body.duration.min_pretty, Some("1.5s".to_string()));
    assert_eq!(body.duration.max_millis, Some(3000));
    assert_eq!(body.duration.max_pretty, Some("3s".to_string()));
}

#[test]
fn delays_are_shown_as_durations_are() {
    for millis in [0u64, 1, 15, 999, 1000, 1001, 1500, 30000, 61_001, u64::MAX] {
        let body = fixed(millis).payload();
        assert_eq!(
            body.duration.duration_pretty,
            format!("{:?}", std::time::Duration::from_millis(millis))
        );
        assert_eq!(body.duration.duration_millis, millis as u128);
    }
    assert_eq!(fixed(15).payload().duration.duration_pretty, "15ms");
    assert_eq!(fixed(0).payload().duration.duration_pretty, "0ns");
}

#[test]
fn builder_gathers_the_parts() {
    let started = SlumberResponse::builder(ID, SlumberKind::Random, &ms(2000));
    assert_eq!(started.request_id, ID);
    assert_eq!(started.kind, SlumberKind::Random);
    assert_eq!(started.duration, ms(2000));
    assert_eq!(started.min, None);
    assert_eq!(started.max, None);

    let with_min = started.min(&ms(1000));
    assert_eq!(with_min.min, Some(ms(1000)));
    assert_eq!(with_min.max, None);
    assert_eq!(with_min.duration, ms(2000));

    let with_both = with_min.max(&ms(4000));
    assert_eq!(with_both.min, Some(ms(1000)));
    assert_eq!(with_both.max, Some(ms(4000)));
    assert_eq!(with_both.request_id, ID);

    let body = with_both.build();
    assert_eq!(body.request_id, ID);
    assert_eq!(body.duration.kind, SlumberKind::Random);
    assert_eq!(body.duration.duration_millis, 2000);
    assert_eq!(body.duration.duration_pretty, "2s");
    assert_eq!(body.duration.min_millis, Some(1000));
    assert_eq!(body.duration.min_pretty, Some("1s".to_string()));
    assert_eq!(body.duration.max_millis, Some(4000));
    assert_eq!(body.duration.max_pretty, Some("4s".to_string()));

    // only one end given
    let body = SlumberResponse::builder(7, SlumberKind::Fixed, &ms(15))
        .max(&ms(20))
        .build();
    assert_eq!(body.request_id, 7);
    assert_eq!(body.duration.min_millis, None);
    assert_eq!(body.duration.min_pretty, None);
    assert_eq!(body.duration.max_millis, Some(20));
    assert_eq!(body.duration.max_pretty, Some("20ms".to_string()));
}

#[test]
fn fixed_reply_mirrors_itself_in_four_headers() {
    let headers = fixed(30000).headers();
    assert_eq!(
        pairs(&headers),
        vec![
            ("X-Request-Id", "01234567-89ab-cdef-0fed-cba987654321"),
            ("X-Slumber-Time", "30s"),
            ("X-Slumber-Time-Millis", "30000"),
            ("X-Slumber-Type", "fixed"),
        ]
    );
}

#[test]
fn random_reply_mirrors_the_window_too() {
    let headers = random(1500, 2250, 3000).headers();
    assert_eq!(
        pairs(&headers),
        vec![
            ("X-Request-Id", "01234567-89ab-cdef-0fed-cba987654321"),
            ("X-Slumber-Time", "2.25s"),
            ("X-Slumber-Time-Millis", "2250"),
            ("X-Slumber-Type", "random"),
            ("X-Slumber-Min-Time", "1.5s"),
            ("X-Slumber-Min-Time-Millis", "1500"),
            ("X-Slumber-Max-Time", "3s"),
            ("X-Slumber-Max-Time-Millis", "3000"),
        ]
    );
}

#[test]
fn identifiers_are_written_as_uuids_are() {
    let cases: [(u128, &str); 4] = [
        (0, "00000000-0000-0000-0000-000000000000"),
        (1, "00000000-0000-0000-0000-000000000001"),
        (u128::MAX, "ffffffff-ffff-ffff-ffff-ffffffffffff"),
        (
            0x936d_a01f_9abd_4d9d_80c7_02af_85c8_22a8,
            "936da01f-9abd-4d9d-80c7-02af85c822a8",
        ),
    ];
    for (id, text) in cases {
        let config = SlumberConfig { id, ..fixed(15) };
        let headers = config.headers();
        assert_eq!(headers[0].0, "X-Request-Id");
        assert_eq!(headers[0].1, text);
        assert_eq!(uuid::Uuid::from_u128(config.payload().request_id).to_string(), text);
    }
}

#[test]
fn reply_to_the_same_resolution_is_the_same() {
    let config = random(10000, 12345, 20000);
    let (a, b) = (config.payload(), config.payload());
    assert_eq!(a.request_id, b.request_id);
    assert_eq!(a.duration.duration_pretty, b.duration.duration_pretty);
    assert_eq!(a.duration.duration_millis, b.duration.duration_millis);
    assert_eq!(a.duration.min_pretty, b.duration.min_pretty);
    assert_eq!(a.duration.max_pretty, b.duration.max_pretty);
    assert_eq!(config.headers(), config.headers());
}
