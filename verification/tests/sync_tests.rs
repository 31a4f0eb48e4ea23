use redshift::config::ConfigDocument;
use redshift::sync::{OpacityWatcher, PollOutcome, SharedOpacity, INITIAL_OPACITY, POLL_PERIOD_MS};

fn written(opacity: i64) -> Option<ConfigDocument> {
    Some(ConfigDocument { opacity: Some(opacity), enabled: Some(true), launch_on_startup: Some(false) })
}

#[test]
fn constants_of_the_polling_task() {
    assert_eq!(INITIAL_OPACITY, 100);
    assert_eq!(POLL_PERIOD_MS, 100);
}

#[test]
fn shared_opacity_starts_at_the_initial_value() {
    let shared = SharedOpacity::new();
    assert_eq!(shared.current(), 100);
}

#[test]
fn shared_opacity_holds_what_was_published() {
    let shared = SharedOpacity::new();
    shared.publish(150);
    assert_eq!(shared.current(), 150);
    shared.publish(90);
    assert_eq!(shared.current(), 90);
    shared.publish(200);
    assert_eq!(shared.current(), 200);
}

#[test]
fn shared_opacity_never_shows_an_unclamped_value() {
    let shared = SharedOpacity::new();
    assert_eq!(shared.publish(255), 200);
    assert_eq!(shared.current(), 200);
    assert_eq!(shared.publish(0), 90);
    assert_eq!(shared.current(), 90);
    assert_eq!(shared.publish(140), 140);
    assert_eq!(shared.current(), 140);
}

#[test]
fn watcher_remembers_what_it_was_given() {
    let watcher = OpacityWatcher::new(100);
    assert_eq!(watcher.last_published(), 100);
}

#[test]
fn writes_converge_in_order_and_clamped() {
    let shared = SharedOpacity::new();
    let mut watcher = OpacityWatcher::new(shared.current());
    let writes: [i64; 5] = [90, 150, 400, -5, 200];
    let expected: [u8; 5] = [90, 150, 200, 90, 200];
    let mut observed: Vec<u8> = Vec::new();
    for write in writes {
        watcher.poll(&shared, written(write));
        let seen: u8 = shared.current();
        assert!((90..=200).contains(&seen));
        observed.push(seen);
    }
    assert_eq!(observed, expected.to_vec());
}

#[test]
fn each_write_reports_its_transition() {
    let mut watcher = OpacityWatcher::new(100);
    assert_eq!(watcher.observe(written(90)), PollOutcome::Changed { from: 100, to: 90 });
    assert_eq!(watcher.observe(written(150)), PollOutcome::Changed { from: 90, to: 150 });
    assert_eq!(watcher.observe(written(400)), PollOutcome::Changed { from: 150, to: 200 });
    assert_eq!(watcher.observe(written(-5)), PollOutcome::Changed { from: 200, to: 90 });
    assert_eq!(watcher.observe(written(200)), PollOutcome::Changed { from: 90, to: 200 });
    assert_eq!(watcher.last_published(), 200);
}

#[test]
fn same_value_twice_reports_one_change() {
    let mut watcher = OpacityWatcher::new(100);
    assert_eq!(watcher.observe(written(150)), PollOutcome::Changed { from: 100, to: 150 });
    assert_eq!(watcher.observe(written(150)), PollOutcome::Unchanged);
    assert_eq!(watcher.observe(written(150)), PollOutcome::Unchanged);
    assert_eq!(watcher.last_published(), 150);
}

#[test]
fn already_published_value_reports_nothing() {
    let mut watcher = OpacityWatcher::new(100);
    assert_eq!(watcher.observe(written(100)), PollOutcome::Unchanged);
    assert_eq!(watcher.last_published(), 100);
}

#[test]
fn values_that_clamp_alike_report_nothing() {
    let mut watcher = OpacityWatcher::new(100);
    assert_eq!(watcher.observe(written(300)), PollOutcome::Changed { from: 100, to: 200 });
    assert_eq!(watcher.observe(written(400)), PollOutcome::Unchanged);
    assert_eq!(watcher.observe(written(200)), PollOutcome::Unchanged);
    assert_eq!(watcher.observe(written(-1)), PollOutcome::Changed { from: 200, to: 90 });
    assert_eq!(watcher.observe(written(17)), PollOutcome::Unchanged);
}

#[test]
fn failed_read_is_skipped() {
    let shared = SharedOpacity::new();
    let mut watcher = OpacityWatcher::new(shared.current());
    assert_eq!(watcher.poll(&shared, written(180)), PollOutcome::Changed { from: 100, to: 180 });
    assert_eq!(watcher.poll(&shared, None), PollOutcome::Unchanged);
    assert_eq!(watcher.last_published(), 180);
    assert_eq!(shared.current(), 180);
    assert_eq!(watcher.poll(&shared, written(180)), PollOutcome::Unchanged);
    assert_eq!(shared.current(), 180);
}

#[test]
fn document_without_opacity_publishes_the_default() {
    let mut watcher = OpacityWatcher::new(100);
    let document = ConfigDocument { opacity: None, enabled: Some(true), launch_on_startup: None };
    assert_eq!(watcher.observe(Some(document)), PollOutcome::Changed { from: 100, to: 90 });
    assert_eq!(watcher.observe(Some(document)), PollOutcome::Unchanged);
}

#[test]
fn poll_without_change_leaves_the_cell_alone() {
    let shared = SharedOpacity::new();
    let mut watcher = OpacityWatcher::new(shared.current());
    assert_eq!(watcher.poll(&shared, written(100)), PollOutcome::Unchanged);
    assert_eq!(shared.current(), 100);
}
