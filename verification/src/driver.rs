//! The render driver: what one tick of the monitor does, and when the
//! monitor stops.
//!
//! The driver owns the estimator's baseline, the history and the tick count.
//! The embedding program runs the loop around it: each second it reads the
//! counter file, hands the text to [`Monitor::tick`], draws the frame it gets
//! back, polls for a key and hands what it saw to [`Monitor::observe`].

use vstd::prelude::*;
use vstd::string::StringExecFns;

use crate::counter::{content_view, counter_reading, read_counter, CounterSample};
use crate::history::{appended, HistoryWindow, RateSample, HISTORY_CAPACITY};
use crate::input::{is_interrupt, is_quit_key, poll_result, quit_signal, KeyPress, QuitReason};
use crate::rate::{EstimatorState, Timestamp};

verus! {

/// Where the driver is in its life.
#[derive(Clone, Copy, Debug, PartialEq, Eq, Structural)]
pub enum DriverState {
    /// Sampling and drawing, once per tick.
    Running,
    /// A quit signal was seen; the terminal has yet to be restored.
    Stopping,
    /// The terminal is restored; nothing more happens.
    Stopped,
}

/// What the embedding program reports back to the driver.
#[derive(Clone, Copy, Debug, PartialEq, Eq, Structural)]
pub enum DriverEvent {
    /// The input gate was polled, with this result.
    Polled(Option<QuitReason>),
    /// The terminal was restored.
    CleanedUp,
}

/// What the embedding program has to do next.
#[derive(Clone, Copy, Debug, PartialEq, Eq, Structural)]
pub enum DriverAction {
    /// Run one tick: sample, draw, poll.
    Tick,
    /// Restore the terminal.
    CleanUp,
    /// Leave the loop.
    Exit,
}

impl DriverState {
    /// The state that follows `self` on `event`.  A quit signal stops a
    /// running driver, the end of the cleanup ends a stopping one, and
    /// nothing else changes the state.
    pub open spec fn after(self, event: DriverEvent) -> DriverState {
        match (self, event) {
            (DriverState::Running, DriverEvent::Polled(Some(_))) => DriverState::Stopping,
            (DriverState::Stopping, DriverEvent::CleanedUp) => DriverState::Stopped,
            _ => self,
        }
    }

    /// What is to be done in state `self`.
    pub open spec fn action(self) -> DriverAction {
        match self {
            DriverState::Running => DriverAction::Tick,
            DriverState::Stopping => DriverAction::CleanUp,
            DriverState::Stopped => DriverAction::Exit,
        }
    }

    /// The state that follows `self` on `event`.
    pub fn next(self, event: DriverEvent) -> (state: DriverState)
        ensures
            state == self.after(event),
    {
        match (self, event) {
            (DriverState::Running, DriverEvent::Polled(Some(_))) => DriverState::Stopping,
            (DriverState::Stopping, DriverEvent::CleanedUp) => DriverState::Stopped,
            _ => self,
        }
    }

    /// What the embedding program has to do in state `self`.
    pub fn next_action(self) -> (action: DriverAction)
        ensures
            action == self.action(),
    {
        match self {
            DriverState::Running => DriverAction::Tick,
            DriverState::Stopping => DriverAction::CleanUp,
            DriverState::Stopped => DriverAction::Exit,
        }
    }
}

/// One axis of the chart: its bounds and the three labels along it.
#[derive(Clone, Copy, Debug)]
pub struct Axis {
    pub lower: i128,
    pub upper: i128,
    /// The label at the lower bound.
    pub low_label: &'static str,
    /// The label half way.
    pub mid_label: &'static str,
    /// The label at the upper bound.
    pub high_label: &'static str,
}

/// What to draw after a tick: one line chart that fills the terminal.
#[derive(Debug)]
pub struct ChartFrame {
    pub title: String,
    pub x_axis: Axis,
    pub y_axis: Axis,
    /// The points of the chart's one series, oldest first.
    pub points: Vec<RateSample>,
    /// Whether successive points are joined by a line.
    pub connect_points: bool,
    /// Whether the chart carries a legend.
    pub show_legend: bool,
}

/// The chart's title for a device of the given name.
pub open spec fn chart_title(display_name: Seq<char>) -> Seq<char> {
    "NPU ("@ + display_name + ") Usage History"@
}

/// The x-axis after `tick_index` ticks: the last sixty ticks, labelled by
/// how many seconds ago they were.
pub open spec fn x_axis_at(tick_index: nat) -> Axis {
    Axis {
        lower: (tick_index - HISTORY_CAPACITY) as i128,
        upper: tick_index as i128,
        low_label: "60",
        mid_label: "30",
        high_label: "now",
    }
}

/// The y-axis: zero to one hundred percent, whatever the samples are.
pub open spec fn y_axis() -> Axis {
    Axis { lower: 0, upper: 100, low_label: "0", mid_label: "50", high_label: "100" }
}

/// The driver's data, as plain mathematical values.
pub struct MonitorView {
    pub state: DriverState,
    pub estimator: EstimatorState,
    /// The samples of the history, oldest first.
    pub history: Seq<RateSample>,
    /// The number of ticks run so far.
    pub tick_index: nat,
    pub display_name: Seq<char>,
}

impl MonitorView {
    /// The driver at startup: running, with a baseline of zero taken at
    /// `now`, an empty history and no tick run.
    pub open spec fn initial(display_name: Seq<char>, now: Timestamp) -> MonitorView {
        MonitorView {
            state: DriverState::Running,
            estimator: EstimatorState::spec_initial(now),
            history: Seq::empty(),
            tick_index: 0,
            display_name,
        }
    }

    /// The sample that a tick with the given reading adds.
    pub open spec fn next_sample(self, reading: u64, now: Timestamp) -> RateSample {
        RateSample {
            elapsed_index: (self.tick_index + 1) as u64,
            percentage: self.estimator.percentage_at(reading, now),
        }
    }

    /// The driver after a tick that read `reading` at `now`.  A running
    /// driver derives the percentage, moves the baseline, counts the tick
    /// and appends the sample; a driver that is not running does nothing.
    pub open spec fn ticked(self, reading: u64, now: Timestamp) -> MonitorView {
        if self.state == DriverState::Running {
            MonitorView {
                state: self.state,
                estimator: self.estimator.advanced(reading, now),
                history: appended(self.history, self.next_sample(reading, now)),
                tick_index: self.tick_index + 1,
                display_name: self.display_name,
            }
        } else {
            self
        }
    }

    /// The driver after `event`.
    pub open spec fn notified(self, event: DriverEvent) -> MonitorView {
        MonitorView { state: self.state.after(event), ..self }
    }

    /// What holds of a driver throughout its life: the history holds the
    /// samples of the latest ticks, sixty at most, numbered consecutively up
    /// to the current tick, and every percentage in it is a proper fraction.
    pub open spec fn consistent(self) -> bool {
        &&& self.tick_index <= u64::MAX
        &&& self.history.len() == if self.tick_index < HISTORY_CAPACITY {
            self.tick_index
        } else {
            HISTORY_CAPACITY as nat
        }
        &&& forall|i: int|
            0 <= i < self.history.len() ==> (#[trigger] self.history[i]).elapsed_index
                == self.tick_index - self.history.len() + 1 + i
        &&& forall|i: int| 0 <= i < self.history.len() ==> (#[trigger] self.history[i]).percentage.wf()
    }
}

/// Whether `frame` is the chart of the driver `view`: the history as one
/// series of joined points, without a legend, over the last sixty ticks.
pub open spec fn depicts(frame: ChartFrame, view: MonitorView) -> bool {
    &&& frame.title@ == chart_title(view.display_name)
    &&& frame.x_axis == x_axis_at(view.tick_index)
    &&& frame.y_axis == y_axis()
    &&& frame.points@ == view.history
    &&& frame.connect_points
    &&& !frame.show_legend
}

/// A driver starts out consistent.
pub proof fn lemma_initial_is_consistent(display_name: Seq<char>, now: Timestamp)
    ensures
        MonitorView::initial(display_name, now).consistent(),
{
}

/// A tick keeps a driver consistent, whatever was read and whenever.
pub proof fn lemma_tick_keeps_consistency(view: MonitorView, reading: u64, now: Timestamp)
    requires
        view.consistent(),
        view.tick_index < u64::MAX,
    ensures
        view.ticked(reading, now).consistent(),
{
    if view.state == DriverState::Running {
        let sample = view.next_sample(reading, now);
        let after = view.ticked(reading, now);
        assert(sample.percentage.wf());
        assert forall|i: int| 0 <= i < after.history.len() implies (#[trigger] after.history[i]).elapsed_index
            == after.tick_index - after.history.len() + 1 + i && after.history[i].percentage.wf() by {
            let all = view.history.push(sample);
            let dropped = all.len() - after.history.len();
            assert(after.history[i] == all[i + dropped]);
            if i + dropped < view.history.len() {
                assert(all[i + dropped] == view.history[i + dropped]);
            }
        }
    }
}

/// Polling and cleaning up leave the samples and the tick count alone, so
/// they keep a driver consistent.
pub proof fn lemma_event_keeps_consistency(view: MonitorView, event: DriverEvent)
    requires
        view.consistent(),
    ensures
        view.notified(event).consistent(),
        view.notified(event).history == view.history,
        view.notified(event).tick_index == view.tick_index,
        view.notified(event).estimator == view.estimator,
{
}

/// Every tick of a running driver raises the tick count by exactly one and
/// stamps the new sample with it, whatever the reading was: a reading of
/// zero that stands for a failed read counts like any other.
pub proof fn lemma_tick_counts_every_reading(view: MonitorView, reading: u64, now: Timestamp)
    requires
        view.state == DriverState::Running,
        view.tick_index < u64::MAX,
    ensures
        view.ticked(reading, now).tick_index == view.tick_index + 1,
        view.ticked(reading, now).history.last().elapsed_index == view.tick_index + 1,
        view.ticked(reading, now).history.len() > 0,
        view.ticked(reading, now).estimator == view.estimator.advanced(reading, now),
{
}

/// A failed read enters as a reading of zero and becomes the baseline like
/// any reading.  So the tick of the failure shows the whole previous counter
/// value as a drop, and the next good reading is measured against zero
/// instead of against the last good reading: one spurious dip and one
/// spurious peak.
pub proof fn lemma_failed_read_resets_baseline(
    state: EstimatorState,
    failed_at: Timestamp,
    next_raw: u64,
    next_at: Timestamp,
)
    requires
        failed_at.millis > state.previous_instant.millis,
        next_at.millis > failed_at.millis,
    ensures
        counter_reading(None) == 0,
        ({
            let dip = state.percentage_at(counter_reading(None), failed_at);
            let reset = state.advanced(counter_reading(None), failed_at);
            let peak = reset.percentage_at(next_raw, next_at);
            &&& dip.numerator == -100 * state.previous_raw
            &&& dip.denominator == failed_at.millis - state.previous_instant.millis
            &&& reset == EstimatorState { previous_raw: 0, previous_instant: failed_at }
            &&& peak.numerator == 100 * next_raw
            &&& peak.denominator == next_at.millis - failed_at.millis
        }),
{
}

/// The quit key and the interrupt combination alike stop a running driver:
/// the poll that observes either makes it stopping, the end of the cleanup
/// makes it stopped, and from the poll on no tick changes anything.
pub proof fn lemma_quit_stops_the_driver(
    view: MonitorView,
    key: KeyPress,
    reading: u64,
    now: Timestamp,
)
    requires
        view.state == DriverState::Running,
        is_quit_key(key) || is_interrupt(key),
    ensures
        ({
            let stopping = view.notified(DriverEvent::Polled(quit_signal(Some(key))));
            let stopped = stopping.notified(DriverEvent::CleanedUp);
            &&& stopping.state == DriverState::Stopping
            &&& stopping.state.action() == DriverAction::CleanUp
            &&& stopping.ticked(reading, now) == stopping
            &&& stopped.state == DriverState::Stopped
            &&& stopped.state.action() == DriverAction::Exit
            &&& stopped.ticked(reading, now) == stopped
        }),
{
}

/// Only a quit signal makes a running driver leave that state, and a
/// stopped driver stays stopped whatever happens.
pub proof fn lemma_states_only_move_forward(event: DriverEvent)
    ensures
        DriverState::Running.after(event) != DriverState::Running <==> event matches DriverEvent::Polled(
            Some(_),
        ),
        DriverState::Running.after(event) != DriverState::Stopped,
        DriverState::Stopping.after(event) != DriverState::Running,
        DriverState::Stopped.after(event) == DriverState::Stopped,
{
}

/// The render driver.
pub struct Monitor {
    state: DriverState,
    estimator: EstimatorState,
    history: HistoryWindow,
    tick_index: u64,
    display_name: String,
}

impl View for Monitor {
    type V = MonitorView;

    closed spec fn view(&self) -> MonitorView {
        MonitorView {
            state: self.state,
            estimator: self.estimator,
            history: self.history@,
            tick_index: self.tick_index as nat,
            display_name: self.display_name@,
        }
    }
}

impl Monitor {
    /// A driver for the device of the given name, started at `now`.
    pub fn new(display_name: &str, now: Timestamp) -> (monitor: Monitor)
        ensures
            monitor@ == MonitorView::initial(display_name@, now),
            monitor@.consistent(),
    {
        Monitor {
            state: DriverState::Running,
            estimator: EstimatorState::initial(now),
            history: HistoryWindow::new(),
            tick_index: 0,
            display_name: String::from_str(display_name),
        }
    }

    /// The driver's state.
    pub fn state(&self) -> (state: DriverState)
        ensures
            state == self@.state,
    {
        self.state
    }

    /// The number of ticks run so far, which is the x-coordinate of the
    /// newest sample.
    pub fn tick_index(&self) -> (index: u64)
        ensures
            index == self@.tick_index,
    {
        self.tick_index
    }

    /// The estimator's baseline.
    pub fn estimator(&self) -> (estimator: EstimatorState)
        ensures
            estimator == self@.estimator,
    {
        self.estimator
    }

    /// The samples of the history, oldest first.
    pub fn history(&self) -> (samples: Vec<RateSample>)
        ensures
            samples@ == self@.history,
            samples@.len() <= HISTORY_CAPACITY,
    {
        self.history.snapshot()
    }

    /// The chart of the driver as it stands.
    pub fn frame(&self) -> (frame: ChartFrame)
        ensures
            depicts(frame, self@),
    {
        let mut title = String::from_str("NPU (");
        title.append(self.display_name.as_str());
        title.append(") Usage History");
        let upper: i128 = self.tick_index as i128;
        ChartFrame {
            title,
            x_axis: Axis {
                lower: upper - 60,
                upper,
                low_label: "60",
                mid_label: "30",
                high_label: "now",
            },
            y_axis: Axis { lower: 0, upper: 100, low_label: "0", mid_label: "50", high_label: "100" },
            points: self.history.snapshot(),
            connect_points: true,
            show_legend: false,
        }
    }

    /// Runs the computing part of one tick on a counter sample taken at
    /// `now`, and returns the chart to draw.
    ///
    /// A driver that is no longer running runs no tick: it stays as it is
    /// and returns `None`.
    pub fn advance(&mut self, sample: CounterSample, now: Timestamp) -> (frame: Option<ChartFrame>)
        requires
            old(self)@.state == DriverState::Running ==> old(self)@.tick_index < u64::MAX,
        ensures
            final(self)@ == old(self)@.ticked(sample.raw_value, now),
            old(self)@.state != DriverState::Running ==> *final(self) == *old(self),
            old(self)@.consistent() ==> final(self)@.consistent(),
            match frame {
                Some(chart) => old(self)@.state == DriverState::Running && depicts(
                    chart,
                    final(self)@,
                ),
                None => old(self)@.state != DriverState::Running,
            },
    {
        if self.state != DriverState::Running {
            return None;
        }
        proof {
            if self@.consistent() {
                lemma_tick_keeps_consistency(self@, sample.raw_value, now);
            }
        }
        let (percentage, estimator) = self.estimator.derive(sample.raw_value, now);
        self.estimator = estimator;
        self.tick_index = self.tick_index + 1;
        self.history.append(RateSample { elapsed_index: self.tick_index, percentage });
        Some(self.frame())
    }

    /// Runs the computing part of one tick.  `content` is the text of the
    /// counter file as read at `now`, or `None` when it could not be read.
    ///
    /// The tick counts and the baseline moves whether or not the read
    /// succeeded: a failed or unreadable sample enters as a reading of zero.
    pub fn tick(&mut self, content: Option<&str>, now: Timestamp) -> (frame: Option<ChartFrame>)
        requires
            old(self)@.state == DriverState::Running ==> old(self)@.tick_index < u64::MAX,
        ensures
            final(self)@ == old(self)@.ticked(counter_reading(content_view(content)), now),
            old(self)@.state != DriverState::Running ==> *final(self) == *old(self),
            old(self)@.consistent() ==> final(self)@.consistent(),
            match frame {
                Some(chart) => old(self)@.state == DriverState::Running && depicts(
                    chart,
                    final(self)@,
                ),
                None => old(self)@.state != DriverState::Running,
            },
    {
        self.advance(read_counter(content), now)
    }

    /// Takes note of the result of a poll of the input gate.  `observed` is
    /// the key press seen within the tick period, if any.  A quit signal
    /// makes a running driver stop; anything else changes nothing.
    pub fn observe(&mut self, observed: Option<KeyPress>) -> (state: DriverState)
        ensures
            final(self)@ == old(self)@.notified(DriverEvent::Polled(quit_signal(observed))),
            state == final(self)@.state,
            old(self)@.consistent() ==> final(self)@.consistent(),
    {
        self.state = self.state.next(DriverEvent::Polled(poll_result(observed)));
        self.state
    }

    /// Takes note that the terminal was restored, which ends a stopping
    /// driver.
    pub fn cleaned_up(&mut self) -> (state: DriverState)
        ensures
            final(self)@ == old(self)@.notified(DriverEvent::CleanedUp),
            state == final(self)@.state,
            old(self)@.consistent() ==> final(self)@.consistent(),
    {
        self.state = self.state.next(DriverEvent::CleanedUp);
        self.state
    }
}

} // verus!
