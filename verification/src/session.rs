//! The course of one run, as a machine that never touches the outside world.
//!
//! A run loads the model, creates the engine's state, reads the recording,
//! hands the samples to the engine, and prints the elapsed time and then each
//! segment. The caller does the outside work: it carries out each `Request`
//! and reports what came of it as an `Event`. The session decides what
//! follows. Any failure ends the run at once.

use crate::audio::{load_wav_to_f32, wav_pcm16, DecodeError, SampleBuffer};
use crate::config::{Settings, TranscriptionConfig};
use vstd::pervasive::unreached;
use vstd::prelude::*;

verus! {

/// A failure reported by the engine: the model could not be loaded, its
/// state could not be created, or the inference failed.
#[derive(Clone, Debug, PartialEq, Eq)]
pub struct EngineError {
    pub message: String,
}

/// Why a run ended early.
#[derive(Clone, Debug, PartialEq, Eq)]
pub enum RunError {
    Decode(DecodeError),
    Engine(EngineError),
}

impl RunError {
    /// The text that describes the failure.
    pub open spec fn text(&self) -> Seq<char> {
        match self {
            RunError::Decode(error) => error.text(),
            RunError::Engine(error) => error.message@,
        }
    }

    pub fn message(&self) -> (text: String)
        ensures
            text@ == self.text(),
    {
        match self {
            RunError::Decode(error) => error.message(),
            RunError::Engine(error) => error.message.clone(),
        }
    }
}

/// What the session is waiting for.
#[derive(Clone, Copy, Debug, PartialEq, Eq)]
pub enum Stage {
    LoadingModel,
    CreatingState,
    ReadingAudio,
    Transcribing,
    /// Waiting for segment `next` of `count`.
    ReadingSegments { next: i32, count: i32 },
    Finished,
    Aborted,
}

/// What came of the last request.
#[derive(Clone, Debug, PartialEq, Eq)]
pub enum Event {
    ModelLoaded,
    StateCreated,
    /// The whole content of the recording's file.
    AudioRead { bytes: Vec<u8> },
    /// The inference ended; `elapsed` is the time it took, as text, and
    /// `segments` the number of segments the engine reports.
    Transcribed { elapsed: String, segments: i32 },
    /// The engine's answer for the segment asked for: its text, if it has one
    /// at that index.
    Segment { text: Option<String> },
    /// The request failed, with the outside world's description of why.
    Failed { message: String },
}

/// What the caller is to do next.
#[derive(Clone, Debug, PartialEq, Eq)]
pub enum Request {
    LoadModel { path: &'static str },
    CreateState,
    ReadAudio { path: &'static str },
    Transcribe { config: TranscriptionConfig, samples: SampleBuffer },
    FetchSegment { index: i32 },
    /// The run is over and succeeded.
    Finish,
    /// The run is over and failed.
    Abort { error: RunError },
}

/// The session's answer to an event: a line for standard output, if there is
/// one, and the next request.
#[derive(Clone, Debug, PartialEq, Eq)]
pub struct Step {
    pub line: Option<String>,
    pub request: Request,
}

/// The line that reports how long the inference took.
pub open spec fn time_line(elapsed: Seq<char>) -> Seq<char> {
    "time => "@ + elapsed
}

/// The characters of a line, if there is a line.
pub open spec fn line_text(line: Option<String>) -> Option<Seq<char>> {
    match line {
        Some(text) => Some(text@),
        None => None,
    }
}

impl Stage {
    /// While segments are read, the one waited for is one of those counted.
    pub open spec fn wf(self) -> bool {
        self matches Stage::ReadingSegments { next, count } ==> 0 <= next < count
    }

    /// The event answers the request that led to this stage.
    pub open spec fn expects(self, event: Event) -> bool {
        match self {
            Stage::LoadingModel => event is ModelLoaded || event is Failed,
            Stage::CreatingState => event is StateCreated || event is Failed,
            Stage::ReadingAudio => event is AudioRead || event is Failed,
            Stage::Transcribing => event is Transcribed || event is Failed,
            Stage::ReadingSegments { .. } => event is Segment,
            Stage::Finished => false,
            Stage::Aborted => false,
        }
    }

    /// The stage that follows this one on an event it expects.
    ///
    /// A failure aborts. A recording that does not decode aborts. A count of
    /// segments that is not positive finishes the run at once; otherwise the
    /// segments are read from index 0 up to the count.
    pub open spec fn after(self, event: Event) -> Stage {
        match (self, event) {
            (_, Event::Failed { .. }) => Stage::Aborted,
            (Stage::LoadingModel, Event::ModelLoaded) => Stage::CreatingState,
            (Stage::CreatingState, Event::StateCreated) => Stage::ReadingAudio,
            (Stage::ReadingAudio, Event::AudioRead { bytes }) => if wav_pcm16(bytes@) is Some {
                Stage::Transcribing
            } else {
                Stage::Aborted
            },
            (Stage::Transcribing, Event::Transcribed { segments, .. }) => if segments > 0 {
                Stage::ReadingSegments { next: 0, count: segments }
            } else {
                Stage::Finished
            },
            (Stage::ReadingSegments { next, count }, Event::Segment { .. }) => if next + 1
                < count {
                Stage::ReadingSegments { next: (next + 1) as i32, count }
            } else {
                Stage::Finished
            },
            _ => self,
        }
    }

    /// The line printed when the event arrives at this stage: the elapsed
    /// time when the inference ends, and the text of each segment that has
    /// one. Nothing else is ever printed.
    pub open spec fn line(self, event: Event) -> Option<Seq<char>> {
        match (self, event) {
            (Stage::Transcribing, Event::Transcribed { elapsed, .. }) => Some(time_line(elapsed@)),
            (Stage::ReadingSegments { .. }, Event::Segment { text: Some(text) }) => Some(text@),
            _ => None,
        }
    }

    /// The error that ends the run when the event aborts it at this stage.
    ///
    /// A failure to read the recording and a recording that does not decode
    /// are decode errors; every other failure is the engine's. A reported
    /// failure keeps its message.
    pub open spec fn aborts_with(self, event: Event, error: RunError) -> bool {
        match event {
            Event::Failed { message } => if self is ReadingAudio {
                error matches RunError::Decode(DecodeError::Unreadable { message: text })
                    && text@ == message@
            } else {
                error matches RunError::Engine(engine) && engine.message@ == message@
            },
            _ => error matches RunError::Decode(decode) && decode is Malformed,
        }
    }
}

impl Request {
    /// The request is the one that the stage reached by `event` from `stage`
    /// calls for, under `settings`.
    pub open spec fn answers(self, settings: Settings, stage: Stage, event: Event) -> bool {
        match stage.after(event) {
            Stage::LoadingModel => false,
            Stage::CreatingState => self is CreateState,
            Stage::ReadingAudio => self matches Request::ReadAudio { path } && path@
                == settings.audio_path@,
            Stage::Transcribing => {
                &&& self matches Request::Transcribe { config, samples }
                &&& config == settings.config
                &&& samples.wf()
                &&& event matches Event::AudioRead { bytes }
                &&& wav_pcm16(bytes@) matches Some(pcm)
                &&& samples.encodes(pcm)
            },
            Stage::ReadingSegments { next, .. } => self matches Request::FetchSegment { index }
                && index == next,
            Stage::Finished => self is Finish,
            Stage::Aborted => self matches Request::Abort { error } && stage.aborts_with(
                event,
                error,
            ),
        }
    }

    /// The exit status that the request ends the process with, if it ends it:
    /// zero for success, one for failure.
    pub open spec fn status(self) -> Option<u8> {
        match self {
            Request::Finish => Some(0u8),
            Request::Abort { .. } => Some(1u8),
            _ => None,
        }
    }

    pub fn exit_status(&self) -> (status: Option<u8>)
        ensures
            status == self.status(),
    {
        match self {
            Request::Finish => Some(0),
            Request::Abort { .. } => Some(1),
            _ => None,
        }
    }
}

/// One run in progress.
pub struct Session {
    settings: Settings,
    stage: Stage,
}

impl Session {
    pub closed spec fn settings(&self) -> Settings {
        self.settings
    }

    pub closed spec fn stage(&self) -> Stage {
        self.stage
    }

    pub open spec fn wf(&self) -> bool {
        self.stage().wf()
    }

    /// Starts a run: the first thing to do is to load the model.
    pub fn begin(settings: Settings) -> (started: (Session, Request))
        ensures
            started.0.wf(),
            started.0.settings() == settings,
            started.0.stage() == Stage::LoadingModel,
            started.1 matches Request::LoadModel { path } && path@ == settings.model_path@,
    {
        (
            Session { settings, stage: Stage::LoadingModel },
            Request::LoadModel { path: settings.model_path },
        )
    }

    /// What the session is waiting for.
    pub fn current_stage(&self) -> (stage: Stage)
        ensures
            stage == self.stage(),
    {
        self.stage
    }

    /// Whether the event answers the request that is pending.
    pub fn accepts(&self, event: &Event) -> (ok: bool)
        ensures
            ok == self.stage().expects(*event),
    {
        match (self.stage, event) {
            (Stage::LoadingModel, Event::ModelLoaded) => true,
            (Stage::CreatingState, Event::StateCreated) => true,
            (Stage::ReadingAudio, Event::AudioRead { .. }) => true,
            (Stage::Transcribing, Event::Transcribed { .. }) => true,
            (Stage::ReadingSegments { .. }, Event::Segment { .. }) => true,
            (Stage::LoadingModel, Event::Failed { .. }) => true,
            (Stage::CreatingState, Event::Failed { .. }) => true,
            (Stage::ReadingAudio, Event::Failed { .. }) => true,
            (Stage::Transcribing, Event::Failed { .. }) => true,
            _ => false,
        }
    }

    /// Takes what the decoding of the recording gave: with samples the run
    /// goes on to the inference, with an error it ends. Nothing is printed.
    pub fn audio_decoded(&mut self, loaded: Result<SampleBuffer, DecodeError>) -> (step: Step)
        requires
            old(self).stage() is ReadingAudio,
        ensures
            final(self).settings() == old(self).settings(),
            final(self).stage() == (if loaded is Ok {
                Stage::Transcribing
            } else {
                Stage::Aborted
            }),
            step.line is None,
            match loaded {
                Ok(samples) => step.request == (Request::Transcribe {
                    config: old(self).settings().config,
                    samples,
                }),
                Err(error) => step.request == (Request::Abort { error: RunError::Decode(error) }),
            },
    {
        match loaded {
            Ok(samples) => {
                self.stage = Stage::Transcribing;
                Step {
                    line: None,
                    request: Request::Transcribe { config: self.settings.config, samples },
                }
            },
            Err(error) => {
                self.stage = Stage::Aborted;
                Step { line: None, request: Request::Abort { error: RunError::Decode(error) } }
            },
        }
    }

    /// Takes what came of the pending request and says what to print and
    /// what to do next.
    pub fn step(&mut self, event: Event) -> (step: Step)
        requires
            old(self).wf(),
            old(self).stage().expects(event),
        ensures
            final(self).wf(),
            final(self).settings() == old(self).settings(),
            final(self).stage() == old(self).stage().after(event),
            line_text(step.line) == old(self).stage().line(event),
            step.request.answers(old(self).settings(), old(self).stage(), event),
    {
        let stage = self.stage;
        match event {
            Event::Failed { message } => {
                self.stage = Stage::Aborted;
                let error = match stage {
                    Stage::ReadingAudio => RunError::Decode(DecodeError::Unreadable { message }),
                    _ => RunError::Engine(EngineError { message }),
                };
                Step { line: None, request: Request::Abort { error } }
            },
            Event::ModelLoaded => {
                self.stage = Stage::CreatingState;
                Step { line: None, request: Request::CreateState }
            },
            Event::StateCreated => {
                self.stage = Stage::ReadingAudio;
                Step { line: None, request: Request::ReadAudio { path: self.settings.audio_path } }
            },
            Event::AudioRead { bytes } => self.audio_decoded(load_wav_to_f32(bytes.as_slice())),
            Event::Transcribed { elapsed, segments } => {
                let line = String::from_str("time => ").concat(elapsed.as_str());
                if segments > 0 {
                    self.stage = Stage::ReadingSegments { next: 0, count: segments };
                    Step { line: Some(line), request: Request::FetchSegment { index: 0 } }
                } else {
                    self.stage = Stage::Finished;
                    Step { line: Some(line), request: Request::Finish }
                }
            },
            Event::Segment { text } => match stage {
                Stage::ReadingSegments { next, count } => {
                    if next + 1 < count {
                        self.stage = Stage::ReadingSegments { next: next + 1, count };
                        Step { line: text, request: Request::FetchSegment { index: next + 1 } }
                    } else {
                        self.stage = Stage::Finished;
                        Step { line: text, request: Request::Finish }
                    }
                },
                _ => unreached(),
            },
        }
    }
}

/// The stage reached from `start` by the events, taken in order.
pub open spec fn stage_after(start: Stage, events: Seq<Event>) -> Stage
    decreases events.len(),
{
    if events.len() == 0 {
        start
    } else {
        stage_after(start, events.drop_last()).after(events.last())
    }
}

/// Every event arrives at a stage that expects it.
pub open spec fn in_turn(start: Stage, events: Seq<Event>) -> bool
    decreases events.len(),
{
    events.len() == 0 || (in_turn(start, events.drop_last()) && stage_after(
        start,
        events.drop_last(),
    ).expects(events.last()))
}

/// The lines printed while the events arrive, in the order printed.
pub open spec fn lines_of(start: Stage, events: Seq<Event>) -> Seq<Seq<char>>
    decreases events.len(),
{
    if events.len() == 0 {
        Seq::empty()
    } else {
        let earlier = lines_of(start, events.drop_last());
        match stage_after(start, events.drop_last()).line(events.last()) {
            Some(line) => earlier.push(line),
            None => earlier,
        }
    }
}

/// The texts that are there, in order.
pub open spec fn present(texts: Seq<Option<String>>) -> Seq<Seq<char>>
    decreases texts.len(),
{
    if texts.len() == 0 {
        Seq::empty()
    } else {
        match texts.last() {
            Some(text) => present(texts.drop_last()).push(text@),
            None => present(texts.drop_last()),
        }
    }
}

/// The events of a run in which nothing fails: the model loads, the state
/// is created, the recording is read, the inference ends, and the engine
/// answers for each segment in turn.
pub open spec fn unfailing_run(
    bytes: Vec<u8>,
    elapsed: String,
    segments: i32,
    texts: Seq<Option<String>>,
) -> Seq<Event> {
    seq![
        Event::ModelLoaded,
        Event::StateCreated,
        Event::AudioRead { bytes },
        Event::Transcribed { elapsed, segments },
    ] + Seq::new(texts.len(), |i: int| Event::Segment { text: texts[i] })
}

/// A failure at any stage that can fail aborts the run and prints nothing.
pub proof fn lemma_failure_aborts(stage: Stage, message: String)
    ensures
        stage.after(Event::Failed { message }) == Stage::Aborted,
        stage.line(Event::Failed { message }) is None,
{
}

/// A run that was aborted has printed nothing: no time line and no segment.
pub proof fn lemma_aborted_run_is_silent(events: Seq<Event>)
    requires
        in_turn(Stage::LoadingModel, events),
        stage_after(Stage::LoadingModel, events) is Aborted,
    ensures
        lines_of(Stage::LoadingModel, events).len() == 0,
{
    lemma_silent_before_the_inference_ends(events);
}

/// Until the inference has ended, and after an abort, nothing is printed.
proof fn lemma_silent_before_the_inference_ends(events: Seq<Event>)
    requires
        in_turn(Stage::LoadingModel, events),
    ensures
        stage_after(Stage::LoadingModel, events).wf(),
        !(stage_after(Stage::LoadingModel, events) is ReadingSegments) && !(stage_after(
            Stage::LoadingModel,
            events,
        ) is Finished) ==> lines_of(Stage::LoadingModel, events).len() == 0,
    decreases events.len(),
{
    if events.len() > 0 {
        lemma_silent_before_the_inference_ends(events.drop_last());
    }
}

/// Where the model cannot be loaded, the run ends with the engine's error
/// and its message, whatever the state of the recording, and prints nothing.
pub proof fn lemma_missing_model_aborts(message: String, error: RunError)
    requires
        Stage::LoadingModel.aborts_with(Event::Failed { message }, error),
    ensures
        stage_after(Stage::LoadingModel, seq![Event::Failed { message }]) is Aborted,
        lines_of(Stage::LoadingModel, seq![Event::Failed { message }]).len() == 0,
        error is Engine,
        error.text() == message@,
{
    let events = seq![Event::Failed { message }];
    let nothing = Seq::<Event>::empty();
    assert(events.drop_last() =~= nothing);
    assert(stage_after(Stage::LoadingModel, nothing) == Stage::LoadingModel);
    assert(lines_of(Stage::LoadingModel, nothing).len() == 0);
}

/// A run in which nothing fails finishes, and prints the time line followed
/// by the text of each segment that has one, in index order.
pub proof fn lemma_unfailing_run_reports(
    bytes: Vec<u8>,
    elapsed: String,
    segments: i32,
    texts: Seq<Option<String>>,
)
    requires
        wav_pcm16(bytes@) is Some,
        texts.len() == (if segments > 0 {
            segments as int
        } else {
            0
        }),
    ensures
        in_turn(Stage::LoadingModel, unfailing_run(bytes, elapsed, segments, texts)),
        stage_after(Stage::LoadingModel, unfailing_run(bytes, elapsed, segments, texts))
            == Stage::Finished,
        lines_of(Stage::LoadingModel, unfailing_run(bytes, elapsed, segments, texts)) == seq![
            time_line(elapsed@),
        ] + present(texts),
{
    lemma_unfailing_prefix(bytes, elapsed, segments, texts, texts.len());
    assert(texts.take(texts.len() as int) =~= texts);
}

/// The state of an unfailing run after the first `k` segments were answered.
proof fn lemma_unfailing_prefix(
    bytes: Vec<u8>,
    elapsed: String,
    segments: i32,
    texts: Seq<Option<String>>,
    k: nat,
)
    requires
        wav_pcm16(bytes@) is Some,
        k <= texts.len(),
        texts.len() == (if segments > 0 {
            segments as int
        } else {
            0
        }),
    ensures
        in_turn(Stage::LoadingModel, unfailing_run(bytes, elapsed, segments, texts.take(k as int))),
        stage_after(
            Stage::LoadingModel,
            unfailing_run(bytes, elapsed, segments, texts.take(k as int)),
        ) == (if k < texts.len() {
            Stage::ReadingSegments { next: k as i32, count: segments }
        } else {
            Stage::Finished
        }),
        lines_of(
            Stage::LoadingModel,
            unfailing_run(bytes, elapsed, segments, texts.take(k as int)),
        ) == seq![time_line(elapsed@)] + present(texts.take(k as int)),
    decreases k,
{
    let start = Stage::LoadingModel;
    let run = unfailing_run(bytes, elapsed, segments, texts.take(k as int));
    if k == 0 {
        let e0 = seq![Event::ModelLoaded];
        let e1 = e0.push(Event::StateCreated);
        let e2 = e1.push(Event::AudioRead { bytes });
        let e3 = e2.push(Event::Transcribed { elapsed, segments });
        let nothing = Seq::<Event>::empty();
        assert(e0.drop_last() =~= nothing);
        assert(stage_after(start, nothing) == start);
        assert(in_turn(start, nothing));
        assert(lines_of(start, nothing) =~= Seq::<Seq<char>>::empty());
        assert(e1.drop_last() =~= e0);
        assert(e2.drop_last() =~= e1);
        assert(e3.drop_last() =~= e2);
        assert(run =~= e3);
        assert(stage_after(start, e0) == Stage::CreatingState);
        assert(stage_after(start, e1) == Stage::ReadingAudio);
        assert(stage_after(start, e2) == Stage::Transcribing);
        assert(in_turn(start, e0));
        assert(in_turn(start, e1));
        assert(in_turn(start, e2));
        assert(in_turn(start, e3));
        assert(lines_of(start, e0) =~= Seq::<Seq<char>>::empty());
        assert(lines_of(start, e1) =~= Seq::<Seq<char>>::empty());
        assert(lines_of(start, e2) =~= Seq::<Seq<char>>::empty());
        assert(lines_of(start, e3) =~= seq![time_line(elapsed@)]);
        assert(present(texts.take(0)) =~= Seq::<Seq<char>>::empty());
    } else {
        let shorter = unfailing_run(bytes, elapsed, segments, texts.take(k - 1));
        lemma_unfailing_prefix(bytes, elapsed, segments, texts, (k - 1) as nat);
        assert(run.drop_last() =~= shorter);
        assert(run.last() == Event::Segment { text: texts[k - 1] });
        assert(texts.take(k as int).drop_last() =~= texts.take(k - 1));
        assert(texts.take(k as int).last() == texts[k - 1]);
    }
}

} // verus!
