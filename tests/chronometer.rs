use chronometer::Chronometer;

fn wait_millis(millis: u64) {
    let begin = std::time::Instant::now();
    while begin.elapsed() < std::time::Duration::from_millis(millis) {}
}

#[test]
fn create() {
    let chrono = Chronometer::new();

    assert_eq!(chrono.started, false);
    assert_eq!(chrono.paused, false);

    assert_eq!(chrono.chrono, None);
    assert_eq!(chrono.laps, vec![]);

    assert_eq!(chrono.duration(), None);
}

#[test]
fn start() {
    let mut chrono = Chronometer::new();

    chrono.start();

    assert_eq!(chrono.started, true);
    assert_eq!(chrono.paused, false);

    assert_ne!(chrono.chrono, None);

    wait_millis(100);

    match chrono.duration() {
        Some(duration) => assert_eq!(duration.as_millis() > 0, true),
        None => assert_eq!(true, false),
    }
}

#[test]
fn pause() {
    let mut chrono = Chronometer::new();

    chrono.start();

    assert_eq!(chrono.started, true);
    assert_eq!(chrono.paused, false);

    let time_before_pause = match chrono.duration() {
        Some(duration) => duration.as_millis(),
        None => 10000,
    };

    chrono.pause();

    assert_eq!(chrono.started, true);
    assert_eq!(chrono.paused, true);

    let time_after_pause = match chrono.duration() {
        Some(duration) => duration.as_millis(),
        None => 10000,
    };

    assert_eq!(time_before_pause, time_after_pause);
}
