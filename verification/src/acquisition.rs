//! The target acquisition state machine: searching by repeated detection,
//! locking on the voted box, then tracking it frame by frame.
//!
//! The vision engine is not called from here. For each frame the machine
//! says what it wants done (`VisionRequest`); the caller does it, measures
//! it, and hands the outcome back (`VisionResult`).

use vstd::prelude::*;
use crate::geometry::{no_target, Rect};
use crate::scheduler::{SchedulerState, SAFETY_MARGIN_MS};
use crate::voting::{
    lemma_winner_exists, sample_is_well_formed, sample_wf, winning_box, DetectionHistory,
    HISTORY_CAPACITY,
};

verus! {

/// Where the acquisition stands.
#[derive(Clone, Copy, Debug, PartialEq, Eq, Structural)]
pub enum AcquisitionState {
    /// Collecting detection samples.
    Searching,
    /// The vote is taken; the tracker is not initialized yet.
    Locked,
    /// The tracker follows the box.
    Tracking,
}

/// What the vision engine is asked to do with the current frame.
#[derive(Clone, Copy, Debug, PartialEq, Eq)]
pub enum VisionRequest {
    /// Nothing: the frame comes too early, the box stays as it is.
    Idle,
    /// Run the detector.
    Detect,
    /// Initialize the tracker on this box.
    InitTracker(Rect),
    /// Update the tracker, which last saw the target in this box.
    Track(Rect),
}

/// What the vision engine reported.
#[derive(Debug)]
pub enum VisionResult {
    /// The candidates of one detection pass, possibly none.
    Detected(Vec<Rect>),
    /// Whether the tracker could be initialized.
    TrackerInitialized(bool),
    /// The box the tracker reports.
    TrackerUpdated(Rect),
}

/// A vision result, as a mathematical value.
pub enum VisionOutcome {
    Detected(Seq<Rect>),
    TrackerInitialized(bool),
    TrackerUpdated(Rect),
}

impl View for VisionResult {
    type V = VisionOutcome;

    open spec fn view(&self) -> VisionOutcome {
        match self {
            VisionResult::Detected(candidates) => VisionOutcome::Detected(candidates@),
            VisionResult::TrackerInitialized(ok) => VisionOutcome::TrackerInitialized(*ok),
            VisionResult::TrackerUpdated(b) => VisionOutcome::TrackerUpdated(*b),
        }
    }
}

impl VisionResult {
    /// Whether every box in the result is well formed.
    pub fn is_well_formed(&self) -> (b: bool)
        ensures
            b == self@.wf(),
    {
        match self {
            VisionResult::Detected(candidates) => sample_is_well_formed(candidates),
            VisionResult::TrackerInitialized(_) => true,
            VisionResult::TrackerUpdated(b) => b.is_well_formed(),
        }
    }
}

impl VisionOutcome {
    /// Every box in the outcome is well formed.
    pub open spec fn wf(&self) -> bool {
        match self {
            VisionOutcome::Detected(candidates) => sample_wf(*candidates),
            VisionOutcome::TrackerInitialized(_) => true,
            VisionOutcome::TrackerUpdated(b) => b.wf(),
        }
    }
}

/// The acquisition, as a mathematical value.
pub struct AcquisitionModel {
    pub state: AcquisitionState,
    pub bounding_box: Rect,
    pub initial_box: Option<Rect>,
    pub history: Seq<Seq<Rect>>,
    pub scheduler: SchedulerState,
}

/// Position of a state on the one-way road from searching to tracking.
pub open spec fn rank(state: AcquisitionState) -> int {
    match state {
        AcquisitionState::Searching => 0,
        AcquisitionState::Locked => 1,
        AcquisitionState::Tracking => 2,
    }
}

impl AcquisitionModel {
    /// A frame that arrives at `now_ms` may be processed: always while
    /// searching, and otherwise when the scheduler says it is due.
    pub open spec fn eligible(&self, now_ms: u64) -> bool {
        self.state == AcquisitionState::Searching || self.scheduler.is_due(now_ms)
    }

    /// What the machine wants done with a frame that arrives at `now_ms`.
    pub open spec fn request(&self, now_ms: u64) -> VisionRequest {
        if !self.eligible(now_ms) {
            VisionRequest::Idle
        } else {
            match self.state {
                AcquisitionState::Searching => VisionRequest::Detect,
                AcquisitionState::Locked => VisionRequest::InitTracker(self.bounding_box),
                AcquisitionState::Tracking => VisionRequest::Track(self.bounding_box),
            }
        }
    }

    /// The outcome is of the kind that the current state asks for.
    pub open spec fn expects(&self, outcome: VisionOutcome) -> bool {
        match (self.state, outcome) {
            (AcquisitionState::Searching, VisionOutcome::Detected(_)) => true,
            (AcquisitionState::Locked, VisionOutcome::TrackerInitialized(_)) => true,
            (AcquisitionState::Tracking, VisionOutcome::TrackerUpdated(_)) => true,
            _ => false,
        }
    }

    /// The acquisition after a detection pass that found `candidates`.
    pub open spec fn after_detection(
        &self,
        now_ms: u64,
        candidates: Seq<Rect>,
    ) -> AcquisitionModel {
        let scheduler = self.scheduler.after_untimed_run(now_ms);
        if candidates.len() == 0 {
            AcquisitionModel { bounding_box: no_target(), scheduler, ..*self }
        } else {
            let history = self.history.push(candidates);
            if history.len() >= HISTORY_CAPACITY {
                let winner = winning_box(history).unwrap();
                AcquisitionModel {
                    state: AcquisitionState::Locked,
                    bounding_box: winner,
                    initial_box: Some(winner),
                    history,
                    scheduler,
                }
            } else {
                AcquisitionModel { bounding_box: candidates[0], history, scheduler, ..*self }
            }
        }
    }

    /// The acquisition after the vision engine reported `outcome` for the
    /// frame that arrived at `now_ms`, having taken `measured_ms`.
    ///
    /// A frame that is not eligible changes nothing, nor does an outcome of
    /// a kind that the state did not ask for.
    pub open spec fn step(
        &self,
        now_ms: u64,
        outcome: VisionOutcome,
        measured_ms: u32,
    ) -> AcquisitionModel {
        if !self.eligible(now_ms) || !self.expects(outcome) {
            *self
        } else {
            match outcome {
                VisionOutcome::Detected(candidates) => self.after_detection(now_ms, candidates),
                VisionOutcome::TrackerInitialized(_) => AcquisitionModel {
                    state: AcquisitionState::Tracking,
                    scheduler: self.scheduler.after_timed_run(now_ms, measured_ms),
                    ..*self
                },
                VisionOutcome::TrackerUpdated(b) => AcquisitionModel {
                    bounding_box: b,
                    scheduler: self.scheduler.after_timed_run(now_ms, measured_ms),
                    ..*self
                },
            }
        }
    }

    /// What ties the parts together: the history fills up while searching
    /// and is full and frozen afterwards, and the box first locked on is the
    /// winner of the vote.
    pub open spec fn wf(&self) -> bool {
        &&& self.bounding_box.wf()
        &&& self.scheduler.wf()
        &&& self.history.len() <= HISTORY_CAPACITY
        &&& forall|i: int|
            0 <= i < self.history.len() ==> (#[trigger] self.history[i]).len() > 0 && sample_wf(
                self.history[i],
            )
        &&& self.state == AcquisitionState::Searching ==> self.history.len() < HISTORY_CAPACITY
            && self.initial_box.is_none()
        &&& self.state != AcquisitionState::Searching ==> self.history.len() == HISTORY_CAPACITY
            && self.initial_box == winning_box(self.history) && self.initial_box.is_some()
            && self.initial_box.unwrap().wf()
    }
}

/// One frame's worth of input to the machine.
pub struct FrameEvent {
    pub now_ms: u64,
    pub outcome: VisionOutcome,
    pub measured_ms: u32,
}

/// The acquisition after a whole sequence of frames.
pub open spec fn run(start: AcquisitionModel, events: Seq<FrameEvent>) -> AcquisitionModel
    decreases events.len(),
{
    if events.len() == 0 {
        start
    } else {
        let last = events.last();
        run(start, events.drop_last()).step(last.now_ms, last.outcome, last.measured_ms)
    }
}

/// One step moves the state forward by at most one place and never back;
/// once the state has left `Searching`, the history and the box first locked
/// on stay as they are.
pub proof fn lemma_step_never_backward(
    before: AcquisitionModel,
    now_ms: u64,
    outcome: VisionOutcome,
    measured_ms: u32,
)
    ensures
        rank(before.state) <= rank(before.step(now_ms, outcome, measured_ms).state) <= rank(
            before.state,
        ) + 1,
        before.state != AcquisitionState::Searching ==> before.step(
            now_ms,
            outcome,
            measured_ms,
        ).history == before.history && before.step(now_ms, outcome, measured_ms).initial_box
            == before.initial_box,
        !before.eligible(now_ms) ==> before.step(now_ms, outcome, measured_ms) == before,
{
}

/// Whatever the vision engine reports, over any number of frames, the state
/// only moves along `Searching`, `Locked`, `Tracking`, and never back.
pub proof fn lemma_run_never_backward(start: AcquisitionModel, events: Seq<FrameEvent>)
    ensures
        rank(start.state) <= rank(run(start, events).state),
        start.state != AcquisitionState::Searching ==> run(start, events).history == start.history,
    decreases events.len(),
{
    if events.len() > 0 {
        let last = events.last();
        lemma_run_never_backward(start, events.drop_last());
        lemma_step_never_backward(
            run(start, events.drop_last()),
            last.now_ms,
            last.outcome,
            last.measured_ms,
        );
    }
}

/// A longer run ends in a state at least as far along as a shorter one.
pub proof fn lemma_run_monotone(start: AcquisitionModel, events: Seq<FrameEvent>, n: int)
    requires
        0 <= n <= events.len(),
    ensures
        rank(run(start, events.subrange(0, n)).state) <= rank(run(start, events).state),
    decreases events.len() - n,
{
    if n == events.len() {
        assert(events.subrange(0, n) =~= events);
    } else {
        lemma_run_monotone(start, events, n + 1);
        let longer = events.subrange(0, n + 1);
        assert(longer.drop_last() =~= events.subrange(0, n));
        let last = longer.last();
        lemma_step_never_backward(
            run(start, events.subrange(0, n)),
            last.now_ms,
            last.outcome,
            last.measured_ms,
        );
    }
}

/// A step keeps a well-formed acquisition well formed.
pub proof fn lemma_step_preserves_wf(
    before: AcquisitionModel,
    now_ms: u64,
    outcome: VisionOutcome,
    measured_ms: u32,
)
    requires
        before.wf(),
        outcome.wf(),
    ensures
        before.step(now_ms, outcome, measured_ms).wf(),
{
    let after = before.step(now_ms, outcome, measured_ms);
    if before.eligible(now_ms) && before.expects(outcome) {
        match outcome {
            VisionOutcome::Detected(candidates) => {
                if candidates.len() > 0 {
                    let history = before.history.push(candidates);
                    assert forall|i: int| 0 <= i < history.len() implies (#[trigger] history[
                        i
                    ]).len() > 0 && sample_wf(history[i]) by {
                        if i < before.history.len() {
                            assert(history[i] == before.history[i]);
                        }
                    }
                    if history.len() >= HISTORY_CAPACITY {
                        lemma_winner_exists(history);
                    }
                }
            },
            _ => {},
        }
    }
}

/// The acquisition: its state, the current box, and what it has collected.
#[derive(Debug)]
pub struct Acquisition {
    state: AcquisitionState,
    bounding_box: Rect,
    initial_box: Option<Rect>,
    history: DetectionHistory,
    scheduler: SchedulerState,
}

impl View for Acquisition {
    type V = AcquisitionModel;

    closed spec fn view(&self) -> AcquisitionModel {
        AcquisitionModel {
            state: self.state,
            bounding_box: self.bounding_box,
            initial_box: self.initial_box,
            history: self.history@,
            scheduler: self.scheduler,
        }
    }
}

impl Acquisition {
    /// The acquisition is well formed when its model is.
    pub open spec fn wf(&self) -> bool {
        self@.wf()
    }

    /// The acquisition at the start: searching, no target, nothing
    /// collected, the scheduler waiting for its margin alone.
    pub open spec fn new_model() -> AcquisitionModel {
        AcquisitionModel {
            state: AcquisitionState::Searching,
            bounding_box: no_target(),
            initial_box: None,
            history: Seq::empty(),
            scheduler: SchedulerState {
                last_run_timestamp_ms: 0,
                next_min_interval_ms: SAFETY_MARGIN_MS,
            },
        }
    }

    /// A fresh acquisition.
    pub fn new() -> (a: Acquisition)
        ensures
            a.wf(),
            a@ == Acquisition::new_model(),
    {
        Acquisition {
            state: AcquisitionState::Searching,
            bounding_box: Rect::empty(),
            initial_box: None,
            history: DetectionHistory::new(),
            scheduler: SchedulerState::new(),
        }
    }

    /// Where the acquisition stands.
    pub fn state(&self) -> (s: AcquisitionState)
        ensures
            s == self@.state,
    {
        self.state
    }

    /// The current box; without area while there is no target.
    pub fn bounding_box(&self) -> (b: Rect)
        ensures
            b == self@.bounding_box,
    {
        self.bounding_box
    }

    /// The box first locked on, once the vote is taken.
    pub fn initial_box(&self) -> (b: Option<Rect>)
        ensures
            b == self@.initial_box,
    {
        self.initial_box
    }

    /// The detection samples collected.
    pub fn history(&self) -> (h: &DetectionHistory)
        ensures
            h@ == self@.history,
    {
        &self.history
    }

    /// When the vision engine last ran, and how long it is to rest.
    pub fn scheduler(&self) -> (s: SchedulerState)
        ensures
            s == self@.scheduler,
    {
        self.scheduler
    }

    /// Whether a frame that arrives at `now_ms` may be processed.
    pub fn is_eligible(&self, now_ms: u64) -> (b: bool)
        ensures
            b == self@.eligible(now_ms),
    {
        self.state == AcquisitionState::Searching || self.scheduler.due(now_ms)
    }

    /// What to ask of the vision engine for a frame that arrives at
    /// `now_ms`.
    pub fn request(&self, now_ms: u64) -> (r: VisionRequest)
        ensures
            r == self@.request(now_ms),
    {
        if !self.is_eligible(now_ms) {
            VisionRequest::Idle
        } else {
            match self.state {
                AcquisitionState::Searching => VisionRequest::Detect,
                AcquisitionState::Locked => VisionRequest::InitTracker(self.bounding_box),
                AcquisitionState::Tracking => VisionRequest::Track(self.bounding_box),
            }
        }
    }

    /// Takes in what the vision engine reported for the frame that arrived
    /// at `now_ms`, after `measured_ms` of work. Returns whether the report
    /// was used: it is dropped when the frame was not eligible or when the
    /// report is not of the kind the state asked for.
    ///
    /// The state moves forward by at most one place and never back.
    pub fn advance(&mut self, now_ms: u64, result: VisionResult, measured_ms: u32) -> (used: bool)
        requires
            old(self).wf(),
            result@.wf(),
        ensures
            final(self)@ == old(self)@.step(now_ms, result@, measured_ms),
            used == (old(self)@.eligible(now_ms) && old(self)@.expects(result@)),
            !used ==> final(self)@ == old(self)@,
            rank(old(self)@.state) <= rank(final(self)@.state) <= rank(old(self)@.state) + 1,
            old(self)@.state != AcquisitionState::Searching ==> final(self)@.history == old(
                self,
            )@.history,
            final(self).wf(),
    {
        proof {
            lemma_step_preserves_wf(self@, now_ms, result@, measured_ms);
            lemma_step_never_backward(self@, now_ms, result@, measured_ms);
        }
        if !self.is_eligible(now_ms) {
            return false;
        }
        match result {
            VisionResult::Detected(candidates) => {
                if self.state != AcquisitionState::Searching {
                    return false;
                }
                self.scheduler.record_untimed_run(now_ms);
                if candidates.len() == 0 {
                    self.bounding_box = Rect::empty();
                } else {
                    let first = candidates[0];
                    let recorded = self.history.record(candidates);
                    assert(recorded);
                    if self.history.is_full() {
                        let winner = self.history.retrieve_best_bounding_box();
                        match winner {
                            Some(w) => {
                                self.bounding_box = w;
                                self.initial_box = Some(w);
                                self.state = AcquisitionState::Locked;
                            },
                            None => {},
                        }
                    } else {
                        self.bounding_box = first;
                    }
                }
                true
            },
            VisionResult::TrackerInitialized(_) => {
                if self.state != AcquisitionState::Locked {
                    return false;
                }
                self.scheduler.record_timed_run(now_ms, measured_ms);
                self.state = AcquisitionState::Tracking;
                true
            },
            VisionResult::TrackerUpdated(b) => {
                if self.state != AcquisitionState::Tracking {
                    return false;
                }
                self.scheduler.record_timed_run(now_ms, measured_ms);
                self.bounding_box = b;
                true
            },
        }
    }
}

} // verus!
