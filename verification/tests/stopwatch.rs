use stopwatch::{Span, Stopwatch};
use tokio::time::Duration;

/// The span as a standard duration.
fn to_std(span: Span) -> Duration {
    Duration::new(span.as_secs(), span.subsec_nanos())
}

/// Keeps the calling thread busy for at least `d`.
fn sleep(d: Duration) {
    let begin = std::time::Instant::now();
    while begin.elapsed() < d {
        std::hint::spin_loop();
    }
}

#[test]
fn test_stopwatch_starts() {
    let mut sw = Stopwatch::new();
    sw.start();
    assert_ne!(sw.start_time(), None);
}

#[test]
fn test_start_new_sets_correct_values_and_starts() {
    let sw = Stopwatch::start_new();
    assert_ne!(sw.start_time(), None);
    assert_eq!(sw.last_split(), None);
    assert_eq!(to_std(sw.elapsed()), Duration::from_secs(0));
}

#[test]
fn test_new_sets_correct_values() {
    let sw = Stopwatch::new();
    assert_eq!(sw.start_time(), None);
    assert_eq!(sw.last_split(), None);
    assert_eq!(to_std(sw.elapsed()), Duration::from_secs(0));
}

#[test]
fn test_split_splits() {
    let mut sw = Stopwatch::start_new();
    sw.split();
    assert_ne!(sw.last_split(), None);
}

#[test]
fn test_split_dont_split_if_stopped() {
    let mut sw = Stopwatch::new();
    sw.split();
    assert_eq!(sw.last_split(), None);
}

#[test]
fn test_stop_resets_instants() {
    let mut sw = Stopwatch::new();
    sw.start();
    sw.stop();
    assert_eq!(sw.start_time(), None);
    assert_eq!(sw.last_split(), None);
}

#[test]
fn test_stop_saves_elapsed_time() {
    let mut sw = Stopwatch::new();
    sw.start();
    sleep(Duration::from_millis(50));
    sw.stop();
    assert!(sw.elapsed().as_millis() >= 50);
}

#[test]
fn test_reset_sets_correct_values() {
    let mut sw = Stopwatch::start_new();
    sw.split();
    sw.reset();

    assert_eq!(sw.start_time(), None);
    assert_eq!(sw.last_split(), None);

    sleep(Duration::from_millis(10));

    sw.stop();
    sw.reset();
    assert_eq!(to_std(sw.elapsed()), Duration::from_secs(0));
}

#[test]
fn test_restart_sets_correct_values_and_starts() {
    let mut sw1 = Stopwatch::start_new();
    sw1.split();

    let mut sw2 = sw1.clone();

    sw2.restart();

    assert_ne!(sw2.start_time(), sw1.start_time());
    assert_eq!(sw2.last_split(), None);

    // Stopwatch needs to stop in order for elapsed to be different than 0
    sleep(Duration::from_millis(10));

    sw1.stop();
    sw1.restart();
    assert_eq!(to_std(sw1.elapsed()), Duration::from_secs(0));
}
