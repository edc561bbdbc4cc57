use npu_monitor::counter::CounterSample;
use npu_monitor::driver::{DriverAction, DriverEvent, DriverState, Monitor};
use npu_monitor::history::RateSample;
use npu_monitor::input::{KeyCode, KeyPress, QuitReason};
use npu_monitor::rate::{EstimatorState, Percentage, Timestamp};

fn at(millis: u64) -> Timestamp {
    Timestamp { millis }
}

fn value(p: Percentage) -> f64 {
    p.numerator as f64 / p.denominator as f64
}

fn percentages(monitor: &Monitor) -> Vec<f64> {
    monitor.history().iter().map(|sample| value(sample.percentage)).collect()
}

fn indices(monitor: &Monitor) -> Vec<u64> {
    monitor.history().iter().map(|sample| sample.elapsed_index).collect()
}

const QUIT_KEY: KeyPress = KeyPress { code: KeyCode::Char('q'), modifiers: 0 };
const INTERRUPT: KeyPress = KeyPress { code: KeyCode::Char('c'), modifiers: 0x02 };
const OTHER_KEY: KeyPress = KeyPress { code: KeyCode::Char('x'), modifiers: 0 };

#[test]
fn new_monitor_is_running_and_empty() {
    let monitor = Monitor::new("Test NPU", at(5));
    assert_eq!(monitor.state(), DriverState::Running);
    assert_eq!(monitor.tick_index(), 0);
    assert_eq!(monitor.estimator(), EstimatorState { previous_raw: 0, previous_instant: at(5) });
    assert_eq!(monitor.history(), vec![]);
}

#[test]
fn five_ticks_one_second_apart() {
    let mut monitor = Monitor::new("Test NPU", at(0));
    for (tick, text) in ["0", "10", "10", "25", "25"].iter().enumerate() {
        let frame = monitor.tick(Some(text), at(1000 * (tick as u64 + 1)));
        assert!(frame.is_some());
    }
    assert_eq!(percentages(&monitor), vec![0.0, 1.0, 0.0, 1.5, 0.0]);
    assert_eq!(indices(&monitor), vec![1, 2, 3, 4, 5]);
    assert_eq!(monitor.tick_index(), 5);
    assert_eq!(monitor.estimator(), EstimatorState { previous_raw: 25, previous_instant: at(5000) });
}

#[test]
fn first_tick_without_elapsed_time_is_zero() {
    let mut monitor = Monitor::new("Test NPU", at(1000));
    monitor.tick(Some("500"), at(1000));
    assert_eq!(monitor.history()[0].percentage, Percentage::zero());
}

#[test]
fn tick_index_rises_by_one_on_every_tick() {
    let mut monitor = Monitor::new("Test NPU", at(0));
    let contents = [Some("10"), None, Some("junk"), Some("20"), None, None, Some("30")];
    for (tick, content) in contents.iter().enumerate() {
        assert_eq!(monitor.tick_index(), tick as u64);
        monitor.tick(*content, at(1000 * (tick as u64 + 1)));
        assert_eq!(monitor.tick_index(), tick as u64 + 1);
        assert_eq!(monitor.history().last().unwrap().elapsed_index, tick as u64 + 1);
    }
    assert_eq!(indices(&monitor), vec![1, 2, 3, 4, 5, 6, 7]);
}

#[test]
fn failed_read_resets_the_baseline() {
    let mut monitor = Monitor::new("Test NPU", at(0));
    monitor.tick(Some("1000"), at(1000));
    monitor.tick(Some("1010"), at(2000));
    monitor.tick(None, at(3000));
    assert_eq!(monitor.estimator(), EstimatorState { previous_raw: 0, previous_instant: at(3000) });
    monitor.tick(Some("1030"), at(4000));
    monitor.tick(Some("1040"), at(5000));
    assert_eq!(percentages(&monitor), vec![100.0, 1.0, -101.0, 103.0, 1.0]);
}

#[test]
fn unparsable_text_counts_as_a_failed_read() {
    let mut failed = Monitor::new("Test NPU", at(0));
    let mut garbled = Monitor::new("Test NPU", at(0));
    for (tick, text) in ["50", "not a number", "70"].iter().enumerate() {
        let now = at(1000 * (tick as u64 + 1));
        failed.tick(if tick == 1 { None } else { Some(text) }, now);
        garbled.tick(Some(text), now);
    }
    assert_eq!(failed.history(), garbled.history());
    assert_eq!(percentages(&garbled), vec![5.0, -5.0, 7.0]);
}

#[test]
fn advance_takes_the_sample_as_it_is() {
    let mut by_text = Monitor::new("Test NPU", at(0));
    let mut by_value = Monitor::new("Test NPU", at(0));
    by_text.tick(Some("150"), at(1000));
    by_value.advance(CounterSample { raw_value: 150 }, at(1000));
    assert_eq!(by_text.history(), by_value.history());
    assert_eq!(by_text.estimator(), by_value.estimator());
    assert_eq!(
        by_value.history(),
        vec![RateSample {
            elapsed_index: 1,
            percentage: Percentage { numerator: 15_000, denominator: 1000 },
        }]
    );
}

#[test]
fn history_keeps_the_last_sixty_ticks() {
    let mut monitor = Monitor::new("Test NPU", at(0));
    for tick in 1..=61u64 {
        monitor.advance(CounterSample { raw_value: tick }, at(1000 * tick));
    }
    let expected: Vec<u64> = (2..=61).collect();
    assert_eq!(indices(&monitor), expected);
    for tick in 62..=200u64 {
        monitor.advance(CounterSample { raw_value: tick }, at(1000 * tick));
        assert_eq!(monitor.history().len(), 60);
    }
    let expected: Vec<u64> = (141..=200).collect();
    assert_eq!(indices(&monitor), expected);
}

#[test]
fn frame_describes_the_chart() {
    let mut monitor = Monitor::new("Meteor Lake NPU", at(0));
    monitor.tick(Some("10"), at(1000));
    let frame = monitor.tick(Some("30"), at(2000)).expect("a running monitor draws");
    assert_eq!(frame.title, "NPU (Meteor Lake NPU) Usage History");
    assert_eq!((frame.x_axis.lower, frame.x_axis.upper), (-58, 2));
    assert_eq!(
        (frame.x_axis.low_label, frame.x_axis.mid_label, frame.x_axis.high_label),
        ("60", "30", "now")
    );
    assert_eq!((frame.y_axis.lower, frame.y_axis.upper), (0, 100));
    assert_eq!(
        (frame.y_axis.low_label, frame.y_axis.mid_label, frame.y_axis.high_label),
        ("0", "50", "100")
    );
    assert_eq!(frame.points, monitor.history());
    assert_eq!(frame.points.len(), 2);
    assert!(frame.connect_points);
    assert!(!frame.show_legend);
}

#[test]
fn frame_window_scrolls_with_the_ticks() {
    let mut monitor = Monitor::new("Test NPU", at(0));
    let empty = monitor.frame();
    assert_eq!((empty.x_axis.lower, empty.x_axis.upper), (-60, 0));
    assert!(empty.points.is_empty());
    for tick in 1..=75u64 {
        monitor.advance(CounterSample { raw_value: tick }, at(1000 * tick));
    }
    let frame = monitor.frame();
    assert_eq!((frame.x_axis.lower, frame.x_axis.upper), (15, 75));
    assert_eq!(frame.points.first().unwrap().elapsed_index, 16);
    assert_eq!(frame.points.last().unwrap().elapsed_index, 75);
}

#[test]
fn quit_key_stops_the_monitor() {
    let mut monitor = Monitor::new("Test NPU", at(0));
    monitor.tick(Some("10"), at(1000));
    assert_eq!(monitor.state().next_action(), DriverAction::Tick);
    assert_eq!(monitor.observe(Some(QUIT_KEY)), DriverState::Stopping);
    assert_eq!(monitor.state().next_action(), DriverAction::CleanUp);
    assert_eq!(monitor.cleaned_up(), DriverState::Stopped);
    assert_eq!(monitor.state(), DriverState::Stopped);
    assert_eq!(monitor.state().next_action(), DriverAction::Exit);
}

#[test]
fn interrupt_combination_stops_the_monitor() {
    let mut monitor = Monitor::new("Test NPU", at(0));
    monitor.tick(Some("10"), at(1000));
    assert_eq!(monitor.observe(Some(INTERRUPT)), DriverState::Stopping);
    assert_eq!(monitor.cleaned_up(), DriverState::Stopped);
}

#[test]
fn no_tick_runs_after_a_quit_signal() {
    for signal in [QUIT_KEY, INTERRUPT] {
        let mut monitor = Monitor::new("Test NPU", at(0));
        monitor.tick(Some("10"), at(1000));
        let history = monitor.history();
        let estimator = monitor.estimator();
        monitor.observe(Some(signal));
        assert!(monitor.tick(Some("20"), at(2000)).is_none());
        assert!(monitor.advance(CounterSample { raw_value: 30 }, at(3000)).is_none());
        monitor.cleaned_up();
        assert!(monitor.tick(Some("40"), at(4000)).is_none());
        assert_eq!(monitor.tick_index(), 1);
        assert_eq!(monitor.history(), history);
        assert_eq!(monitor.estimator(), estimator);
        assert_eq!(monitor.state(), DriverState::Stopped);
    }
}

#[test]
fn other_keys_and_timeouts_keep_the_monitor_running() {
    let mut monitor = Monitor::new("Test NPU", at(0));
    assert_eq!(monitor.observe(None), DriverState::Running);
    assert_eq!(monitor.observe(Some(OTHER_KEY)), DriverState::Running);
    assert_eq!(
        monitor.observe(Some(KeyPress { code: KeyCode::Char('c'), modifiers: 0 })),
        DriverState::Running
    );
    assert_eq!(monitor.observe(Some(KeyPress { code: KeyCode::Other, modifiers: 0x02 })), DriverState::Running);
    assert!(monitor.tick(Some("10"), at(1000)).is_some());
}

#[test]
fn cleanup_only_ends_a_stopping_monitor() {
    let mut monitor = Monitor::new("Test NPU", at(0));
    assert_eq!(monitor.cleaned_up(), DriverState::Running);
    monitor.observe(Some(QUIT_KEY));
    assert_eq!(monitor.observe(Some(QUIT_KEY)), DriverState::Stopping);
    assert_eq!(monitor.cleaned_up(), DriverState::Stopped);
    assert_eq!(monitor.cleaned_up(), DriverState::Stopped);
    assert_eq!(monitor.observe(Some(QUIT_KEY)), DriverState::Stopped);
}

#[test]
fn state_transitions() {
    let quit = DriverEvent::Polled(Some(QuitReason::Quit));
    let idle = DriverEvent::Polled(None);
    let cleaned = DriverEvent::CleanedUp;
    assert_eq!(DriverState::Running.next(quit), DriverState::Stopping);
    assert_eq!(DriverState::Running.next(idle), DriverState::Running);
    assert_eq!(DriverState::Running.next(cleaned), DriverState::Running);
    assert_eq!(DriverState::Stopping.next(quit), DriverState::Stopping);
    assert_eq!(DriverState::Stopping.next(idle), DriverState::Stopping);
    assert_eq!(DriverState::Stopping.next(cleaned), DriverState::Stopped);
    assert_eq!(DriverState::Stopped.next(quit), DriverState::Stopped);
    assert_eq!(DriverState::Stopped.next(idle), DriverState::Stopped);
    assert_eq!(DriverState::Stopped.next(cleaned), DriverState::Stopped);
}
