use slumberd::handlers::SleepBounds;
use slumberd::time::Delay;

#[test]
fn test_sleep_bounds_min() {
    let (req_min, req_max) = (Delay::from_millis(2000), Delay::from_millis(3000));
    let (config_min, config_max) = (Delay::from_millis(1000), Delay::from_millis(4000));

    // test sane bounds
    assert_eq!(
        Delay::from_millis(2000),
        SleepBounds::min(&req_min, &req_max, &config_min, &config_max)
    );

    // test lower bound violated (req < config)
    let req_min = Delay::from_millis(500);

    assert_eq!(
        Delay::from_millis(1000),
        SleepBounds::min(&req_min, &req_max, &config_min, &config_max)
    );

    // test request upper bound violated (req_min > req_max)
    let req_min = Delay::from_millis(3500);

    assert_eq!(
        Delay::from_millis(3000),
        SleepBounds::min(&req_min, &req_max, &config_min, &config_max)
    );
}

#[test]
fn test_sleep_bounds_max() {
    let (req_min, req_max) = (Delay::from_millis(2000), Delay::from_millis(3000));
    let (config_min, config_max) = (Delay::from_millis(1000), Delay::from_millis(4000));

    // test sane bounds
    assert_eq!(
        Delay::from_millis(3000),
        SleepBounds::max(&req_min, &req_max, &config_min, &config_max)
    );

    // test lower bound violation
    let req_max = Delay::from_millis(1500);

    assert_eq!(
        Delay::from_millis(2000),
        SleepBounds::max(&req_min, &req_max, &config_min, &config_max)
    );

    // test upper bound violation
    let req_max = Delay::from_millis(5000);

    assert_eq!(
        Delay::from_millis(4000),
        SleepBounds::max(&req_min, &req_max, &config_min, &config_max)
    );
}

#[test]
fn test_sleep_bounds_duration() {
    let (min, max) = (Delay::from_millis(1000), Delay::from_millis(3000));

    // test sane bounds
    assert_eq!(
        Delay::from_millis(2000),
        SleepBounds::duration(&Delay::from_millis(2000), &min, &max)
    );

    // test lower bound violation
    assert_eq!(
        min,
        SleepBounds::duration(&Delay::from_millis(500), &min, &max)
    );

    // test upper bound violation
    assert_eq!(
        max,
        SleepBounds::duration(&Delay::from_millis(5000), &min, &max)
    );
}
