use slumberd::config::CliArgs;
use slumberd::logging::init;
use slumberd::logging::LogFormat;
use slumberd::logging::LogLevel;
use slumberd::time::Delay;

fn args(min_sleep_ms: u64, max_sleep_ms: u64, sleep_ms: u64) -> CliArgs {
    CliArgs {
        min_sleep_ms,
        max_sleep_ms,
        sleep_ms,
        ..CliArgs::default()
    }
}

#[test]
fn defaults_are_the_documented_ones() {
    let cli = CliArgs::default();
    assert_eq!(cli.sleep_ms, 5000);
    assert_eq!(cli.host, "127.0.0.1");
    assert!(!cli.json);
    assert_eq!(cli.min_sleep_ms, 15);
    assert_eq!(cli.max_sleep_ms, 30000);
    assert_eq!(cli.port, 8080);
    assert!(!cli.random);
    assert_eq!(cli.verbosity, 0);
    assert!(!cli.disable_help);

    assert_eq!(cli.min_sleep(), Delay::from_millis(15));
    assert_eq!(cli.sleep(), Delay::from_millis(5000));
    assert_eq!(cli.max_sleep(), Delay::from_millis(30000));
    assert!(!cli.bounds_inverted());
    assert!(!cli.sleep_out_of_range());
}

#[test]
fn ordered_bounds_are_kept() {
    let cli = args(1000, 3000, 2000);
    assert_eq!(cli.min_sleep(), Delay::from_millis(1000));
    assert_eq!(cli.max_sleep(), Delay::from_millis(3000));
    assert_eq!(cli.sleep(), Delay::from_millis(2000));
}

#[test]
fn inverted_bounds_are_swapped() {
    let cli = args(3000, 1000, 2000);
    assert!(cli.bounds_inverted());
    assert_eq!(cli.min_sleep(), Delay::from_millis(1000));
    assert_eq!(cli.max_sleep(), Delay::from_millis(3000));
    assert_eq!(cli.sleep(), Delay::from_millis(2000));
    // as written, 2000 lies below the minimum of 3000
    assert!(cli.sleep_out_of_range());
}

#[test]
fn default_delay_is_brought_into_the_bounds() {
    let low = args(1000, 3000, 10);
    assert!(low.sleep_out_of_range());
    assert_eq!(low.sleep(), Delay::from_millis(1000));

    let high = args(1000, 3000, 50000);
    assert!(high.sleep_out_of_range());
    assert_eq!(high.sleep(), Delay::from_millis(3000));

    let inverted_high = args(3000, 1000, 50000);
    assert_eq!(inverted_high.sleep(), Delay::from_millis(3000));

    let point = args(700, 700, 5);
    assert_eq!(point.min_sleep(), point.max_sleep());
    assert_eq!(point.sleep(), Delay::from_millis(700));
}

#[test]
fn default_delay_lies_within_the_bounds_for_many_settings() {
    let values: [u64; 7] = [0, 1, 15, 999, 1000, 30000, u64::MAX];
    for min in values {
        for max in values {
            for sleep in values {
                let cli = args(min, max, sleep);
                assert!(cli.min_sleep().le(&cli.sleep()));
                assert!(cli.sleep().le(&cli.max_sleep()));
                assert_eq!(cli.min_sleep(), Delay::from_millis(min.min(max)));
                assert_eq!(cli.max_sleep(), Delay::from_millis(min.max(max)));
                assert_eq!(cli.bounds_inverted(), min > max);
            }
        }
    }
}

#[test]
fn logger_follows_the_settings() {
    let mut cli = CliArgs::default();
    let setup = init(&cli);
    assert_eq!(setup.format, LogFormat::Pattern);
    assert_eq!(setup.level, LogLevel::Info);

    cli.json = true;
    cli.verbosity = 1;
    let setup = init(&cli);
    assert_eq!(setup.format, LogFormat::Json);
    assert_eq!(setup.level, LogLevel::Debug);

    cli.verbosity = 2;
    assert_eq!(init(&cli).level, LogLevel::Trace);
    cli.verbosity = 40;
    assert_eq!(init(&cli).level, LogLevel::Trace);
}
