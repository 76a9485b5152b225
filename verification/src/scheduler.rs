use vstd::prelude::*;

verus! {

/// The phases of one capture cycle, in order. A cycle normally walks
/// `Idle -> Capturing -> Previewing -> Preprocessing -> Inferring ->
/// Persisting -> Sleeping -> Idle`; a missing display or a failed step
/// short-circuits straight to `Sleeping`.
#[derive(Clone, Copy, PartialEq, Eq, Structural, Debug)]
pub enum Phase {
    Idle,
    Capturing,
    Previewing,
    Preprocessing,
    Inferring,
    /// `saved` records whether this cycle's snapshot file write has
    /// already succeeded; the record is appended only after it has.
    Persisting { saved: bool },
    Sleeping,
}

/// What the environment reports back to the scheduler after carrying out
/// the requested action.
#[derive(Clone, Copy, PartialEq, Eq, Structural, Debug)]
pub enum Event {
    /// The capture interval elapsed; a new cycle may begin.
    Tick,
    /// No display was found to capture.
    NoDisplay,
    /// A display was found but capturing it failed.
    CaptureFailed,
    /// A frame was captured.
    Captured,
    /// The preview thumbnail was encoded and handed to the UI.
    PreviewOk,
    /// Encoding the preview failed; the failure is swallowed.
    PreviewFailed,
    /// The frame was preprocessed into the model's input layout.
    Preprocessed,
    /// One forward pass succeeded and produced `len` floats.
    InferSucceeded { len: usize },
    /// The forward pass failed.
    InferFailed,
    /// The full-resolution frame was saved to the snapshot directory.
    SaveOk,
    /// Saving the frame failed.
    SaveFailed,
    /// The record was appended to the vector store.
    AppendOk,
    /// Appending the record failed; the saved file stays orphaned.
    AppendFailed,
    /// The fixed sleep between cycles finished.
    SleepDone,
}

/// What the scheduler asks the environment to do next.
#[derive(Clone, Copy, PartialEq, Eq, Structural, Debug)]
pub enum Action {
    /// Wait for the next tick.
    AwaitTick,
    /// Enumerate displays and capture the first one.
    CaptureScreen,
    /// Build and emit the bounded preview thumbnail.
    BuildPreview,
    /// Run the preprocessor on the captured frame.
    PreprocessFrame,
    /// Feed the tensor through the inference session.
    RunInference,
    /// Save the full-resolution frame under a fresh identifier.
    SaveSnapshot,
    /// Append the cycle's record to the vector store.
    AppendRecord,
    /// Sleep for the fixed capture interval.
    Sleep,
}

/// The orchestrating loop's state: the current phase and the counters the
/// persistence guarantees are stated over.
#[derive(Clone, Copy, PartialEq, Eq, Structural, Debug)]
pub struct CaptureScheduler {
    pub phase: Phase,
    /// Cycles fully completed, including skipped ones.
    pub cycles_completed: u64,
    /// Snapshot files successfully written.
    pub files_saved: u64,
    /// Rows successfully appended to the vector store.
    pub rows_appended: u64,
    /// Cycles that ended without any capture (no display, capture failure).
    pub cycles_skipped: u64,
}

/// 1 exactly in the phases where the current cycle's snapshot file can
/// already have been counted.
pub open spec fn file_slack(phase: Phase) -> int {
    match phase {
        Phase::Persisting { saved: true } => 1,
        Phase::Sleeping => 1,
        _ => 0,
    }
}

/// 1 exactly in the phase where the current cycle can already have been
/// counted as skipped.
pub open spec fn skip_slack(phase: Phase) -> int {
    match phase {
        Phase::Sleeping => 1,
        _ => 0,
    }
}

impl CaptureScheduler {
    /// The loop's invariant: a row is never appended without a prior
    /// successful file save, and at most one file and one skip can be
    /// attributed to the cycle in flight.
    pub open spec fn inv(&self) -> bool {
        &&& self.rows_appended <= self.files_saved
        &&& self.files_saved <= self.cycles_completed + file_slack(self.phase)
        &&& self.cycles_skipped <= self.cycles_completed + skip_slack(self.phase)
        &&& self.phase == (Phase::Persisting { saved: true }) ==> self.rows_appended
            < self.files_saved
    }

    /// A fresh scheduler: idle, with nothing captured, saved or appended.
    pub fn new() -> (s: CaptureScheduler)
        ensures
            s == (CaptureScheduler {
                phase: Phase::Idle,
                cycles_completed: 0,
                files_saved: 0,
                rows_appended: 0,
                cycles_skipped: 0,
            }),
            s.inv(),
    {
        CaptureScheduler {
            phase: Phase::Idle,
            cycles_completed: 0,
            files_saved: 0,
            rows_appended: 0,
            cycles_skipped: 0,
        }
    }

    /// Advances the scheduler by one environment event. The returned
    /// action is what the environment must do next; an event that is not
    /// expected in the current phase changes nothing.
    pub fn step(&mut self, event: Event) -> (a: Action)
        requires
            old(self).inv(),
            old(self).cycles_completed < u64::MAX - 1,
        ensures
            *final(self) == step_spec(*old(self), event).0,
            a == step_spec(*old(self), event).1,
            final(self).inv(),
    {
        match (self.phase, event) {
            (Phase::Idle, Event::Tick) => {
                self.phase = Phase::Capturing;
                Action::CaptureScreen
            },
            (Phase::Capturing, Event::NoDisplay) => {
                self.phase = Phase::Sleeping;
                self.cycles_skipped = self.cycles_skipped + 1;
                Action::Sleep
            },
            (Phase::Capturing, Event::CaptureFailed) => {
                self.phase = Phase::Sleeping;
                self.cycles_skipped = self.cycles_skipped + 1;
                Action::Sleep
            },
            (Phase::Capturing, Event::Captured) => {
                self.phase = Phase::Previewing;
                Action::BuildPreview
            },
            (Phase::Previewing, Event::PreviewOk) => {
                self.phase = Phase::Preprocessing;
                Action::PreprocessFrame
            },
            (Phase::Previewing, Event::PreviewFailed) => {
                self.phase = Phase::Preprocessing;
                Action::PreprocessFrame
            },
            (Phase::Preprocessing, Event::Preprocessed) => {
                self.phase = Phase::Inferring;
                Action::RunInference
            },
            (Phase::Inferring, Event::InferSucceeded { len }) => {
                if len == 0 {
                    self.phase = Phase::Sleeping;
                    Action::Sleep
                } else {
                    self.phase = Phase::Persisting { saved: false };
                    Action::SaveSnapshot
                }
            },
            (Phase::Inferring, Event::InferFailed) => {
                self.phase = Phase::Sleeping;
                Action::Sleep
            },
            (Phase::Persisting { saved: false }, Event::SaveOk) => {
                self.phase = Phase::Persisting { saved: true };
                self.files_saved = self.files_saved + 1;
                Action::AppendRecord
            },
            (Phase::Persisting { saved: false }, Event::SaveFailed) => {
                self.phase = Phase::Sleeping;
                Action::Sleep
            },
            (Phase::Persisting { saved: true }, Event::AppendOk) => {
                self.phase = Phase::Sleeping;
                self.rows_appended = self.rows_appended + 1;
                Action::Sleep
            },
            (Phase::Persisting { saved: true }, Event::AppendFailed) => {
                self.phase = Phase::Sleeping;
                Action::Sleep
            },
            (Phase::Sleeping, Event::SleepDone) => {
                self.phase = Phase::Idle;
                self.cycles_completed = self.cycles_completed + 1;
                Action::AwaitTick
            },
            _ => Action::AwaitTick,
        }
    }
}

/// The transition function of the scheduler, as a mathematical map from a
/// state and an event to the next state and the requested action.
pub open spec fn step_spec(pre: CaptureScheduler, event: Event) -> (CaptureScheduler, Action) {
    match (pre.phase, event) {
        (Phase::Idle, Event::Tick) => (
            CaptureScheduler { phase: Phase::Capturing, ..pre },
            Action::CaptureScreen,
        ),
        (Phase::Capturing, Event::NoDisplay) => (
            CaptureScheduler {
                phase: Phase::Sleeping,
                cycles_skipped: (pre.cycles_skipped + 1) as u64,
                ..pre
            },
            Action::Sleep,
        ),
        (Phase::Capturing, Event::CaptureFailed) => (
            CaptureScheduler {
                phase: Phase::Sleeping,
                cycles_skipped: (pre.cycles_skipped + 1) as u64,
                ..pre
            },
            Action::Sleep,
        ),
        (Phase::Capturing, Event::Captured) => (
            CaptureScheduler { phase: Phase::Previewing, ..pre },
            Action::BuildPreview,
        ),
        (Phase::Previewing, Event::PreviewOk) => (
            CaptureScheduler { phase: Phase::Preprocessing, ..pre },
            Action::PreprocessFrame,
        ),
        (Phase::Previewing, Event::PreviewFailed) => (
            CaptureScheduler { phase: Phase::Preprocessing, ..pre },
            Action::PreprocessFrame,
        ),
        (Phase::Preprocessing, Event::Preprocessed) => (
            CaptureScheduler { phase: Phase::Inferring, ..pre },
            Action::RunInference,
        ),
        (Phase::Inferring, Event::InferSucceeded { len }) => if len == 0 {
            (CaptureScheduler { phase: Phase::Sleeping, ..pre }, Action::Sleep)
        } else {
            (
                CaptureScheduler { phase: Phase::Persisting { saved: false }, ..pre },
                Action::SaveSnapshot,
            )
        },
        (Phase::Inferring, Event::InferFailed) => (
            CaptureScheduler { phase: Phase::Sleeping, ..pre },
            Action::Sleep,
        ),
        (Phase::Persisting { saved: false }, Event::SaveOk) => (
            CaptureScheduler {
                phase: Phase::Persisting { saved: true },
                files_saved: (pre.files_saved + 1) as u64,
                ..pre
            },
            Action::AppendRecord,
        ),
        (Phase::Persisting { saved: false }, Event::SaveFailed) => (
            CaptureScheduler { phase: Phase::Sleeping, ..pre },
            Action::Sleep,
        ),
        (Phase::Persisting { saved: true }, Event::AppendOk) => (
            CaptureScheduler {
                phase: Phase::Sleeping,
                rows_appended: (pre.rows_appended + 1) as u64,
                ..pre
            },
            Action::Sleep,
        ),
        (Phase::Persisting { saved: true }, Event::AppendFailed) => (
            CaptureScheduler { phase: Phase::Sleeping, ..pre },
            Action::Sleep,
        ),
        (Phase::Sleeping, Event::SleepDone) => (
            CaptureScheduler {
                phase: Phase::Idle,
                cycles_completed: (pre.cycles_completed + 1) as u64,
                ..pre
            },
            Action::AwaitTick,
        ),
        _ => (pre, Action::AwaitTick),
    }
}

/// A row is never appended without a prior successful file save: in every
/// reachable state, rows never exceed files.
pub proof fn lemma_rows_never_exceed_files(s: CaptureScheduler)
    requires
        s.inv(),
    ensures
        s.rows_appended <= s.files_saved,
{
}

/// Every step of the transition function preserves the invariant.
pub proof fn lemma_step_spec_preserves_inv(pre: CaptureScheduler, event: Event)
    requires
        pre.inv(),
        pre.cycles_completed < u64::MAX - 1,
    ensures
        step_spec(pre, event).0.inv(),
{
}

/// Folds a sequence of events through the transition function.
pub open spec fn run_steps(pre: CaptureScheduler, events: Seq<Event>) -> CaptureScheduler
    decreases events.len(),
{
    if events.len() == 0 {
        pre
    } else {
        run_steps(step_spec(pre, events[0]).0, events.drop_first())
    }
}

/// Folding a concatenation is folding one part after the other.
pub proof fn lemma_run_steps_append(pre: CaptureScheduler, a: Seq<Event>, b: Seq<Event>)
    ensures
        run_steps(pre, a + b) == run_steps(run_steps(pre, a), b),
    decreases a.len(),
{
    if a.len() == 0 {
        assert(a + b =~= b);
    } else {
        assert((a + b)[0] == a[0]);
        assert((a + b).drop_first() =~= a.drop_first() + b);
        lemma_run_steps_append(step_spec(pre, a[0]).0, a.drop_first(), b);
    }
}

/// The events of one cycle in which every step succeeds and the forward
/// pass yields `len` floats.
pub open spec fn successful_cycle_events(len: usize) -> Seq<Event> {
    seq![
        Event::Tick,
        Event::Captured,
        Event::PreviewOk,
        Event::Preprocessed,
        Event::InferSucceeded { len },
        Event::SaveOk,
        Event::AppendOk,
        Event::SleepDone,
    ]
}

/// The events of a cycle with no display available.
pub open spec fn skipped_cycle_events() -> Seq<Event> {
    seq![Event::Tick, Event::NoDisplay, Event::SleepDone]
}

/// The events of a cycle whose forward pass fails.
pub open spec fn failed_inference_cycle_events() -> Seq<Event> {
    seq![
        Event::Tick,
        Event::Captured,
        Event::PreviewOk,
        Event::Preprocessed,
        Event::InferFailed,
        Event::SleepDone,
    ]
}

/// One fully successful cycle saves exactly one snapshot file, appends
/// exactly one row, completes one cycle, and returns the loop to idle.
pub proof fn lemma_successful_cycle(pre: CaptureScheduler, len: usize)
    requires
        pre.inv(),
        pre.phase == Phase::Idle,
        len != 0,
        pre.cycles_completed < u64::MAX - 1,
    ensures
        ({
            let post = run_steps(pre, successful_cycle_events(len));
            &&& post.phase == Phase::Idle
            &&& post.inv()
            &&& post.files_saved == pre.files_saved + 1
            &&& post.rows_appended == pre.rows_appended + 1
            &&& post.cycles_completed == pre.cycles_completed + 1
            &&& post.cycles_skipped == pre.cycles_skipped
        }),
{
    let e = successful_cycle_events(len);
    reveal_with_fuel(run_steps, 9);
    assert(e.drop_first().drop_first().drop_first().drop_first().drop_first().drop_first()
        .drop_first().drop_first().len() == 0);
}

/// A cycle with no display available leaves files and rows untouched,
/// counts one skipped cycle, still sleeps, and continues: the loop is back
/// at idle with one more completed cycle.
pub proof fn lemma_skipped_cycle(pre: CaptureScheduler)
    requires
        pre.inv(),
        pre.phase == Phase::Idle,
        pre.cycles_completed < u64::MAX - 1,
    ensures
        ({
            let post = run_steps(pre, skipped_cycle_events());
            &&& post.phase == Phase::Idle
            &&& post.inv()
            &&& post.files_saved == pre.files_saved
            &&& post.rows_appended == pre.rows_appended
            &&& post.cycles_completed == pre.cycles_completed + 1
            &&& post.cycles_skipped == pre.cycles_skipped + 1
        }),
{
    reveal_with_fuel(run_steps, 4);
    assert(skipped_cycle_events().drop_first().drop_first().drop_first().len() == 0);
}

/// A cycle whose forward pass fails persists nothing: no file, no row, and
/// the loop still completes the cycle and sleeps.
pub proof fn lemma_failed_inference_cycle(pre: CaptureScheduler)
    requires
        pre.inv(),
        pre.phase == Phase::Idle,
        pre.cycles_completed < u64::MAX - 1,
    ensures
        ({
            let post = run_steps(pre, failed_inference_cycle_events());
            &&& post.phase == Phase::Idle
            &&& post.inv()
            &&& post.files_saved == pre.files_saved
            &&& post.rows_appended == pre.rows_appended
            &&& post.cycles_completed == pre.cycles_completed + 1
            &&& post.cycles_skipped == pre.cycles_skipped
        }),
{
    reveal_with_fuel(run_steps, 7);
    assert(failed_inference_cycle_events().drop_first().drop_first().drop_first().drop_first()
        .drop_first().drop_first().len() == 0);
}

/// Repeats a cycle's events `n` times.
pub open spec fn repeat_events(events: Seq<Event>, n: nat) -> Seq<Event>
    decreases n,
{
    if n == 0 {
        Seq::empty()
    } else {
        events + repeat_events(events, (n - 1) as nat)
    }
}

/// After `n` fully successful cycles from an idle scheduler, exactly `n`
/// more snapshot files have been saved and exactly `n` more rows appended
/// and never a row without its file.
pub proof fn lemma_n_successful_cycles(pre: CaptureScheduler, len: usize, n: nat)
    requires
        pre.inv(),
        pre.phase == Phase::Idle,
        len != 0,
        pre.cycles_completed + n <= u64::MAX - 1,
    ensures
        ({
            let post = run_steps(pre, repeat_events(successful_cycle_events(len), n));
            &&& post.phase == Phase::Idle
            &&& post.inv()
            &&& post.files_saved == pre.files_saved + n
            &&& post.rows_appended == pre.rows_appended + n
            &&& post.cycles_completed == pre.cycles_completed + n
            &&& post.cycles_skipped == pre.cycles_skipped
        }),
    decreases n,
{
    if n == 0 {
        assert(repeat_events(successful_cycle_events(len), 0) =~= Seq::<Event>::empty());
        reveal_with_fuel(run_steps, 1);
    } else {
        lemma_successful_cycle(pre, len);
        lemma_run_steps_append(
            pre,
            successful_cycle_events(len),
            repeat_events(successful_cycle_events(len), (n - 1) as nat),
        );
        let mid = run_steps(pre, successful_cycle_events(len));
        lemma_n_successful_cycles(mid, len, (n - 1) as nat);
    }
}

/// Across `n` consecutive cycles whose forward pass always fails, not one
/// file and not one row appears, while the loop still completes all `n`
/// sleep intervals.
pub proof fn lemma_n_failed_inference_cycles(pre: CaptureScheduler, n: nat)
    requires
        pre.inv(),
        pre.phase == Phase::Idle,
        pre.cycles_completed + n <= u64::MAX - 1,
    ensures
        ({
            let post = run_steps(pre, repeat_events(failed_inference_cycle_events(), n));
            &&& post.phase == Phase::Idle
            &&& post.inv()
            &&& post.files_saved == pre.files_saved
            &&& post.rows_appended == pre.rows_appended
            &&& post.cycles_completed == pre.cycles_completed + n
            &&& post.cycles_skipped == pre.cycles_skipped
        }),
    decreases n,
{
    if n == 0 {
        assert(repeat_events(failed_inference_cycle_events(), 0) =~= Seq::<Event>::empty());
        reveal_with_fuel(run_steps, 1);
    } else {
        lemma_failed_inference_cycle(pre);
        lemma_run_steps_append(
            pre,
            failed_inference_cycle_events(),
            repeat_events(failed_inference_cycle_events(), (n - 1) as nat),
        );
        let mid = run_steps(pre, failed_inference_cycle_events());
        lemma_n_failed_inference_cycles(mid, (n - 1) as nat);
    }
}

} // verus!
