//! The decisions of a recording: which step comes next for each event.
//!
//! A recorder drives a `Controller`: it performs the action the controller
//! returns (open a file, start or stop the stream, wait one poll interval,
//! finalize the file) and reports what happened as the next event.
use crate::format::{conversion_spec, output_spec_of, Conversion, OutputSpec, StreamSettings};
use crate::signals::StopSignals;
use vstd::prelude::*;

verus! {

/// The three ways of recording.
#[derive(Clone, Copy, Debug, PartialEq, Eq, Structural)]
pub enum Mode {
    /// One file, until a segment stop is requested.
    Continuous,
    /// One file, until the given number of seconds has passed or a segment
    /// stop is requested.
    Timed(u64),
    /// Files of the given number of seconds each, one after another, until a
    /// batch stop is requested; each file runs its full length.
    Batch(u64),
}

/// Where a segment stands.
#[derive(Clone, Copy, Debug, PartialEq, Eq, Structural)]
pub enum Phase {
    /// No file is open; a segment may begin.
    Idle,
    /// A new file is being created.
    Opening,
    /// The file is open and the stream is being started.
    Starting,
    /// The stream runs and feeds the file.
    Recording,
    /// The stream is being stopped.
    Stopping,
    /// The stream is stopped and the file is being finalized.
    Finalizing,
    /// The recording ended normally.
    Done,
    /// The recording ended with an error.
    Failed,
}

/// What a recorder reports to its controller.
#[derive(Clone, Copy, Debug, PartialEq, Eq, Structural)]
pub enum Event {
    /// A segment may begin; the stop signals as they stand now.
    Begin(StopSignals),
    FileOpened,
    FileOpenFailed,
    StreamStarted,
    StreamFailed,
    /// One poll interval has passed: the seconds since the stream started,
    /// and the stop signals as they stand now.
    Tick(u64, StopSignals),
    StreamStopped,
    Finalized,
    FinalizeFailed,
}

/// The kinds of error that end a recording.
#[derive(Clone, Copy, Debug, PartialEq, Eq, Structural)]
pub enum FailureKind {
    /// The driver refused to start the input stream.
    StreamInit,
    /// An output file could not be created or completed.
    Encode,
}

/// What a controller asks its recorder to do next.
#[derive(Clone, Copy, Debug, PartialEq, Eq, Structural)]
pub enum Action {
    /// Create a new file with this header and install its encoder.
    OpenFile(OutputSpec),
    /// Start the input stream, converting samples this way.
    StartStream(Conversion),
    /// Sleep one poll interval, then report a tick.
    Wait,
    /// Stop the input stream.
    StopStream,
    /// Finalize the installed encoder.
    FinalizeFile,
    /// Report whether another segment may begin.
    NextSegment,
    /// The recording is over.
    Finish,
    /// The recording is over because of an error of this kind.
    Fail(FailureKind),
    /// The event does not fit the current phase; nothing changed.
    Ignore,
}

/// A controller as its contracts see it.
pub ghost struct ControllerView {
    pub mode: Mode,
    pub settings: StreamSettings,
    pub spec: OutputSpec,
    pub phase: Phase,
    /// An error was reported and the open file is being closed before the
    /// recording fails.
    pub failing: bool,
}

/// The input stream runs in these phases.
pub open spec fn stream_live(p: Phase) -> bool {
    p == Phase::Recording || p == Phase::Stopping
}

/// An output file is open in these phases.
pub open spec fn file_open(p: Phase) -> bool {
    p == Phase::Starting || p == Phase::Recording || p == Phase::Stopping || p == Phase::Finalizing
}

/// Whether a segment of this mode ends at this poll.
pub open spec fn segment_over(mode: Mode, elapsed: u64, signals: StopSignals) -> bool {
    match mode {
        Mode::Continuous => signals.segment,
        Mode::Timed(d) => elapsed >= d || signals.segment,
        Mode::Batch(d) => elapsed >= d,
    }
}

/// The view with another phase and failure flag.
pub open spec fn moved(v: ControllerView, phase: Phase, failing: bool) -> ControllerView {
    ControllerView { phase, failing, ..v }
}

/// The next view and action for an event.
pub open spec fn step_spec(v: ControllerView, e: Event) -> (ControllerView, Action) {
    match (v.phase, e) {
        (Phase::Idle, Event::Begin(sig)) => {
            if v.mode is Batch && sig.batch {
                (moved(v, Phase::Done, false), Action::Finish)
            } else {
                (moved(v, Phase::Opening, false), Action::OpenFile(v.spec))
            }
        },
        (Phase::Opening, Event::FileOpened) => (
            moved(v, Phase::Starting, false),
            Action::StartStream(conversion_spec(v.settings.format)),
        ),
        (Phase::Opening, Event::FileOpenFailed) => (
            moved(v, Phase::Failed, false),
            Action::Fail(FailureKind::Encode),
        ),
        (Phase::Starting, Event::StreamStarted) => (moved(v, Phase::Recording, false), Action::Wait),
        (Phase::Starting, Event::StreamFailed) => (
            moved(v, Phase::Finalizing, true),
            Action::FinalizeFile,
        ),
        (Phase::Recording, Event::Tick(elapsed, sig)) => {
            if segment_over(v.mode, elapsed, sig) {
                (moved(v, Phase::Stopping, false), Action::StopStream)
            } else {
                (v, Action::Wait)
            }
        },
        (Phase::Stopping, Event::StreamStopped) => (
            moved(v, Phase::Finalizing, false),
            Action::FinalizeFile,
        ),
        (Phase::Finalizing, Event::Finalized) => {
            if v.failing {
                (moved(v, Phase::Failed, false), Action::Fail(FailureKind::StreamInit))
            } else if v.mode is Batch {
                (moved(v, Phase::Idle, false), Action::NextSegment)
            } else {
                (moved(v, Phase::Done, false), Action::Finish)
            }
        },
        (Phase::Finalizing, Event::FinalizeFailed) => {
            let kind = if v.failing {
                FailureKind::StreamInit
            } else {
                FailureKind::Encode
            };
            (moved(v, Phase::Failed, false), Action::Fail(kind))
        },
        _ => (v, Action::Ignore),
    }
}

/// The header is the one the settings determine, and only a phase with an
/// open file may carry a pending failure.
pub open spec fn view_wf(v: ControllerView) -> bool {
    &&& v.spec == output_spec_of(v.settings)
    &&& v.failing ==> v.phase == Phase::Finalizing
}

/// The view and the actions after a sequence of events, in order.
pub open spec fn run_spec(v: ControllerView, es: Seq<Event>) -> (ControllerView, Seq<Action>)
    decreases es.len(),
{
    if es.len() == 0 {
        (v, Seq::empty())
    } else {
        let (w, acts) = run_spec(v, es.drop_last());
        let (x, a) = step_spec(w, es.last());
        (x, acts.push(a))
    }
}

/// Whatever the events, a controller keeps its mode, settings and header,
/// and every file it asks to open carries the header its settings determine.
pub proof fn lemma_header_never_drifts(v: ControllerView, es: Seq<Event>)
    requires
        view_wf(v),
    ensures
        view_wf(run_spec(v, es).0),
        run_spec(v, es).0.mode == v.mode,
        run_spec(v, es).0.settings == v.settings,
        run_spec(v, es).0.spec == v.spec,
        run_spec(v, es).1.len() == es.len(),
        forall|i: int|
            #![trigger run_spec(v, es).1[i]]
            0 <= i < es.len() && run_spec(v, es).1[i] is OpenFile
                ==> run_spec(v, es).1[i]->OpenFile_0 == output_spec_of(v.settings),
    decreases es.len(),
{
    if es.len() > 0 {
        lemma_header_never_drifts(v, es.drop_last());
        let (w, acts) = run_spec(v, es.drop_last());
        let (x, a) = step_spec(w, es.last());
        assert(run_spec(v, es).1 == acts.push(a));
        assert forall|i: int|
            #![trigger run_spec(v, es).1[i]]
            0 <= i < es.len() && run_spec(v, es).1[i] is OpenFile
                implies run_spec(v, es).1[i]->OpenFile_0 == output_spec_of(v.settings) by {
            if i < es.len() - 1 {
                assert(run_spec(v, es).1[i] == acts[i]);
            }
        }
    }
}

/// A file is finalized only once no stream feeds it: either the running
/// stream was reported stopped, or the stream never started. A running stream
/// leaves the running phases only on the report that it stopped.
pub proof fn lemma_stream_stops_before_finalize(v: ControllerView, e: Event)
    ensures
        step_spec(v, e).1 == Action::FinalizeFile ==> {
            &&& !stream_live(step_spec(v, e).0.phase)
            &&& (v.phase == Phase::Stopping && e == Event::StreamStopped)
                || (v.phase == Phase::Starting && e == Event::StreamFailed)
        },
        stream_live(v.phase) && !stream_live(step_spec(v, e).0.phase) ==> e == Event::StreamStopped,
{
}

/// Over any sequence of events, each request to finalize answers a report
/// that the stream stopped or never started.
pub proof fn lemma_every_finalize_follows_stop(v: ControllerView, es: Seq<Event>)
    ensures
        run_spec(v, es).1.len() == es.len(),
        forall|i: int|
            #![trigger run_spec(v, es).1[i]]
            0 <= i < es.len() && run_spec(v, es).1[i] == Action::FinalizeFile
                ==> es[i] == Event::StreamStopped || es[i] == Event::StreamFailed,
    decreases es.len(),
{
    if es.len() > 0 {
        lemma_every_finalize_follows_stop(v, es.drop_last());
        let (w, acts) = run_spec(v, es.drop_last());
        let (x, a) = step_spec(w, es.last());
        lemma_stream_stops_before_finalize(w, es.last());
        assert forall|i: int|
            #![trigger run_spec(v, es).1[i]]
            0 <= i < es.len() && run_spec(v, es).1[i] == Action::FinalizeFile
                implies es[i] == Event::StreamStopped || es[i] == Event::StreamFailed by {
            if i < es.len() - 1 {
                assert(run_spec(v, es).1[i] == acts[i]);
                assert(es.drop_last()[i] == es[i]);
            }
        }
    }
}

/// A recording ends, normally or with an error, only with no file open: it
/// finishes from the idle phase or right after its file was finalized.
pub proof fn lemma_end_leaves_no_open_file(v: ControllerView, e: Event)
    requires
        view_wf(v),
    ensures
        step_spec(v, e).1 == Action::Finish ==> {
            &&& !file_open(step_spec(v, e).0.phase)
            &&& v.phase == Phase::Idle || (v.phase == Phase::Finalizing && e == Event::Finalized)
        },
        step_spec(v, e).1 is Fail ==> {
            &&& !file_open(step_spec(v, e).0.phase)
            &&& v.phase == Phase::Opening || v.phase == Phase::Finalizing
        },
        step_spec(v, e).1 == Action::NextSegment ==> step_spec(v, e).0.phase == Phase::Idle,
{
}

/// In batch mode a stop request never cuts a segment short: the segment runs
/// until its length has passed, and the stop is honored between segments.
pub proof fn lemma_batch_segments_run_full_length(
    v: ControllerView,
    len: u64,
    elapsed: u64,
    sig: StopSignals,
)
    requires
        v.mode == Mode::Batch(len),
        v.phase == Phase::Recording,
    ensures
        elapsed < len ==> step_spec(v, Event::Tick(elapsed, sig)) == (v, Action::Wait),
        elapsed >= len ==> step_spec(v, Event::Tick(elapsed, sig)).1 == Action::StopStream,
        sig.batch ==> step_spec(moved(v, Phase::Idle, false), Event::Begin(sig)).1 == Action::Finish,
{
}

/// A timed segment ends at the first poll that sees a segment stop, however
/// much of its length is left, and otherwise once its length has passed.
pub proof fn lemma_timed_stop_is_prompt(v: ControllerView, len: u64, elapsed: u64, sig: StopSignals)
    requires
        v.mode == Mode::Timed(len),
        v.phase == Phase::Recording,
    ensures
        step_spec(v, Event::Tick(elapsed, sig)).1 == Action::StopStream <==> (sig.segment
            || elapsed >= len),
        !sig.segment && elapsed < len ==> step_spec(v, Event::Tick(elapsed, sig)) == (v, Action::Wait),
{
}

/// The decisions of one recording, in one of the three modes, with the
/// header that every file of the recording carries.
pub struct Controller {
    mode: Mode,
    settings: StreamSettings,
    spec: OutputSpec,
    phase: Phase,
    failing: bool,
}

impl Controller {
    pub closed spec fn view(&self) -> ControllerView {
        ControllerView {
            mode: self.mode,
            settings: self.settings,
            spec: self.spec,
            phase: self.phase,
            failing: self.failing,
        }
    }

    /// A controller for one recording in `mode` with the given settings; the
    /// header of every file it opens is computed here, once.
    pub fn new(mode: Mode, settings: StreamSettings) -> (r: Controller)
        ensures
            view_wf(r@),
            r@.mode == mode,
            r@.settings == settings,
            r@.phase == Phase::Idle,
            !r@.failing,
    {
        Controller { mode, settings, spec: settings.output_spec(), phase: Phase::Idle, failing: false }
    }

    /// The current phase.
    pub fn phase(&self) -> (r: Phase)
        ensures
            r == self@.phase,
    {
        self.phase
    }

    /// The header every file of this recording carries.
    pub fn output_spec(&self) -> (r: OutputSpec)
        ensures
            r == self@.spec,
    {
        self.spec
    }

    /// Moves to the next phase for `e` and says what to do.
    pub fn step(&mut self, e: Event) -> (r: Action)
        requires
            view_wf(old(self)@),
        ensures
            view_wf(final(self)@),
            (final(self)@, r) == step_spec(old(self)@, e),
    {
        let (phase, failing, action) = match (self.phase, e) {
            (Phase::Idle, Event::Begin(sig)) => {
                if matches!(self.mode, Mode::Batch(_)) && sig.batch {
                    (Phase::Done, false, Action::Finish)
                } else {
                    (Phase::Opening, false, Action::OpenFile(self.spec))
                }
            },
            (Phase::Opening, Event::FileOpened) => (
                Phase::Starting,
                false,
                Action::StartStream(self.settings.format.conversion()),
            ),
            (Phase::Opening, Event::FileOpenFailed) => (
                Phase::Failed,
                false,
                Action::Fail(FailureKind::Encode),
            ),
            (Phase::Starting, Event::StreamStarted) => (Phase::Recording, false, Action::Wait),
            (Phase::Starting, Event::StreamFailed) => (Phase::Finalizing, true, Action::FinalizeFile),
            (Phase::Recording, Event::Tick(elapsed, sig)) => {
                let over = match self.mode {
                    Mode::Continuous => sig.segment,
                    Mode::Timed(d) => elapsed >= d || sig.segment,
                    Mode::Batch(d) => elapsed >= d,
                };
                if over {
                    (Phase::Stopping, false, Action::StopStream)
                } else {
                    (Phase::Recording, false, Action::Wait)
                }
            },
            (Phase::Stopping, Event::StreamStopped) => (Phase::Finalizing, false, Action::FinalizeFile),
            (Phase::Finalizing, Event::Finalized) => {
                if self.failing {
                    (Phase::Failed, false, Action::Fail(FailureKind::StreamInit))
                } else if matches!(self.mode, Mode::Batch(_)) {
                    (Phase::Idle, false, Action::NextSegment)
                } else {
                    (Phase::Done, false, Action::Finish)
                }
            },
            (Phase::Finalizing, Event::FinalizeFailed) => {
                let kind = if self.failing {
                    FailureKind::StreamInit
                } else {
                    FailureKind::Encode
                };
                (Phase::Failed, false, Action::Fail(kind))
            },
            _ => (self.phase, self.failing, Action::Ignore),
        };
        self.phase = phase;
        self.failing = failing;
        action
    }
}

} // verus!
