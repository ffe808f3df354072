//! A run as a state machine. The caller does the reading and writing: it
//! performs what the streamer is waiting for and hands back what happened.
//!
//! A source that cannot be opened is reported and skipped, and does not by
//! itself make the run fail. A failure while reading ends the run at once,
//! as a failure.

use crate::config::{standard_input_name, Config, ConfigView};
use crate::stream::{emitted, open_failure_report, LineCounter};
use vstd::prelude::*;
use vstd::string::*;

verus! {

/// Where a run stands.
pub enum State {
    /// Source `index` is to be opened.
    Opening { index: nat },
    /// Source `index` is open; `lines` of its lines were read so far,
    /// `nonblank` of them with text.
    Reading { index: nat, lines: nat, nonblank: nat },
    /// The run is over.
    Finished { failed: bool },
}

/// What the caller reports to the streamer.
#[derive(Debug)]
pub enum Event {
    /// The source asked for is open.
    Opened,
    /// The source asked for could not be opened, with the reason.
    OpenFailed(String),
    /// The next line of the open source, without its newline.
    Line(String),
    /// The open source has no more lines.
    EndOfSource,
    /// Reading the open source failed, with the reason.
    ReadFailed(String),
}

/// An [`Event`] as mathematical values.
pub enum EventView {
    Opened,
    OpenFailed(Seq<char>),
    Line(Seq<char>),
    EndOfSource,
    ReadFailed(Seq<char>),
}

impl View for Event {
    type V = EventView;

    open spec fn view(&self) -> EventView {
        match self {
            Event::Opened => EventView::Opened,
            Event::OpenFailed(reason) => EventView::OpenFailed(reason@),
            Event::Line(text) => EventView::Line(text@),
            Event::EndOfSource => EventView::EndOfSource,
            Event::ReadFailed(reason) => EventView::ReadFailed(reason@),
        }
    }
}

/// What the caller is to do next.
#[derive(Clone, Copy, Debug, PartialEq, Eq, Structural)]
pub enum Next {
    /// Open the source with this index among the configured sources, and
    /// report `Opened` or `OpenFailed`.
    Open(usize),
    /// Read one line of the open source, and report `Line`, `EndOfSource`
    /// or `ReadFailed`.
    ReadLine,
    /// Stop; `true` means with a failure status.
    Exit(bool),
}

/// The streamer's answer to an event.
#[derive(Debug)]
pub struct Step {
    /// Text for standard output, if any.
    pub output: Option<String>,
    /// A line for the error stream, without its newline, if any.
    pub diagnostic: Option<String>,
    /// What to do after writing those.
    pub next: Next,
}

/// A [`Step`] as mathematical values.
pub struct StepView {
    pub output: Option<Seq<char>>,
    pub diagnostic: Option<Seq<char>>,
    pub next: Next,
}

/// The text of an optional string.
pub open spec fn optional_text(s: Option<String>) -> Option<Seq<char>> {
    match s {
        Some(text) => Some(text@),
        None => None,
    }
}

impl View for Step {
    type V = StepView;

    open spec fn view(&self) -> StepView {
        StepView {
            output: optional_text(self.output),
            diagnostic: optional_text(self.diagnostic),
            next: self.next,
        }
    }
}

/// Where a run goes when it is done with source `index`: on to the next
/// source, or to a successful end after the last.
pub open spec fn after_source(config: ConfigView, index: nat) -> State {
    if index + 1 < config.sources.len() {
        State::Opening { index: index + 1 }
    } else {
        State::Finished { failed: false }
    }
}

/// The state that follows `state` on `event`. An event that does not answer
/// what the state is waiting for changes nothing.
pub open spec fn after(config: ConfigView, state: State, event: EventView) -> State {
    match (state, event) {
        (State::Opening { index }, EventView::Opened) => State::Reading {
            index,
            lines: 0,
            nonblank: 0,
        },
        (State::Opening { index }, EventView::OpenFailed(_)) => after_source(config, index),
        (State::Reading { index, lines, nonblank }, EventView::Line(text)) => State::Reading {
            index,
            lines: lines + 1,
            nonblank: if text.len() == 0 {
                nonblank
            } else {
                nonblank + 1
            },
        },
        (State::Reading { index, .. }, EventView::EndOfSource) => after_source(config, index),
        (State::Reading { .. }, EventView::ReadFailed(_)) => State::Finished { failed: true },
        _ => state,
    }
}

/// The text for standard output that `event` gives rise to in `state`.
pub open spec fn output_of(config: ConfigView, state: State, event: EventView) -> Option<
    Seq<char>,
> {
    match (state, event) {
        (State::Reading { lines, nonblank, .. }, EventView::Line(text)) => Some(
            emitted(config.numbering(), lines, nonblank, text),
        ),
        _ => None,
    }
}

/// The line for the error stream that `event` gives rise to in `state`.
pub open spec fn diagnostic_of(config: ConfigView, state: State, event: EventView) -> Option<
    Seq<char>,
> {
    match (state, event) {
        (State::Opening { index }, EventView::OpenFailed(reason)) => Some(
            open_failure_report(config.sources[index as int], reason),
        ),
        (State::Reading { .. }, EventView::ReadFailed(reason)) => Some(reason),
        _ => None,
    }
}

/// What the caller is to do in `state`.
pub open spec fn pending(state: State) -> Next {
    match state {
        State::Opening { index } => Next::Open(index as usize),
        State::Reading { .. } => Next::ReadLine,
        State::Finished { failed } => Next::Exit(failed),
    }
}

/// The whole answer to `event` in `state`.
pub open spec fn answer(config: ConfigView, state: State, event: EventView) -> StepView {
    StepView {
        output: output_of(config, state, event),
        diagnostic: diagnostic_of(config, state, event),
        next: pending(after(config, state, event)),
    }
}

/// The two streams are kept apart: no event gives rise to text for
/// standard output and to a line for the error stream at once, and text
/// for standard output comes only of a line that was read.
pub proof fn lemma_streams_apart(config: ConfigView, state: State, event: EventView)
    ensures
        !(output_of(config, state, event) is Some && diagnostic_of(config, state, event) is Some),
        output_of(config, state, event) is Some ==> state is Reading && event is Line,
        diagnostic_of(config, state, event) is Some ==> event is OpenFailed || event is ReadFailed,
{
}

/// Whether `state` can take `event` without a counter leaving its range.
pub open spec fn in_range(state: State, event: EventView) -> bool {
    match (state, event) {
        (State::Reading { lines, .. }, EventView::Line(_)) => lines < u64::MAX,
        _ => true,
    }
}

/// Whether `name` stands for standard input.
pub fn is_standard_input(name: &str) -> (r: bool)
    ensures
        r == (name@ == standard_input_name()),
{
    proof {
        reveal_strlit("-");
        assert("-"@ =~= standard_input_name());
    }
    let dash = String::from_str("-");
    let given = String::from_str(name);
    given == dash
}

/// The line for the error stream when the source `name` cannot be opened
/// for `reason`.
pub fn open_failure_line(name: &str, reason: &str) -> (r: String)
    ensures
        r@ == open_failure_report(name@, reason@),
{
    let mut out = String::from_str(name);
    out.append(": ");
    out.append(reason);
    proof {
        reveal_strlit(": ");
        assert(": "@ =~= seq![':', ' ']);
    }
    out
}

#[derive(Clone, Copy, Debug)]
enum Phase {
    Opening,
    Reading,
    Finished(bool),
}

/// What a [`Streamer`] holds, as mathematical values.
pub struct StreamerView {
    pub config: ConfigView,
    pub state: State,
}

/// A run in progress over the sources of a configuration.
#[derive(Debug)]
pub struct Streamer {
    config: Config,
    phase: Phase,
    index: usize,
    counter: LineCounter,
}

impl View for Streamer {
    type V = StreamerView;

    closed spec fn view(&self) -> StreamerView {
        StreamerView {
            config: self.config@,
            state: match self.phase {
                Phase::Opening => State::Opening { index: self.index as nat },
                Phase::Reading => State::Reading {
                    index: self.index as nat,
                    lines: self.counter.lines(),
                    nonblank: self.counter.nonblank(),
                },
                Phase::Finished(failed) => State::Finished { failed },
            },
        }
    }
}

impl Streamer {
    #[verifier::type_invariant]
    spec fn valid(self) -> bool {
        &&& self.config@.well_formed()
        &&& !(self.phase is Finished) ==> self.index < self.config@.sources.len()
    }

    /// A run at its start: the first source is to be opened.
    pub fn new(config: Config) -> (r: Streamer)
        ensures
            r@.config == config@,
            r@.config.well_formed(),
            r@.state == (State::Opening { index: 0 }),
    {
        proof {
            use_type_invariant(&config);
        }
        Streamer { config, phase: Phase::Opening, index: 0, counter: LineCounter::new() }
    }

    /// The configuration of this run.
    pub fn config(&self) -> (r: &Config)
        ensures
            r@ == self@.config,
            r@.well_formed(),
    {
        proof {
            use_type_invariant(self);
        }
        &self.config
    }

    /// What the caller is to do now.
    pub fn pending(&self) -> (r: Next)
        ensures
            r == pending(self@.state),
            r matches Next::Open(index) ==> index < self@.config.sources.len(),
    {
        proof {
            use_type_invariant(self);
        }
        match self.phase {
            Phase::Opening => Next::Open(self.index),
            Phase::Reading => Next::ReadLine,
            Phase::Finished(failed) => Next::Exit(failed),
        }
    }

    /// Whether the run can take `event` without a counter leaving its range.
    pub fn accepts(&self, event: &Event) -> (r: bool)
        ensures
            r == in_range(self@.state, event@),
    {
        match (self.phase, event) {
            (Phase::Reading, Event::Line(_)) => self.counter.can_count(),
            _ => true,
        }
    }

    /// Takes what happened and answers with what to write and what to do
    /// next.
    pub fn handle(&mut self, event: Event) -> (step: Step)
        requires
            in_range(old(self)@.state, event@),
        ensures
            final(self)@.config == old(self)@.config,
            final(self)@.state == after(old(self)@.config, old(self)@.state, event@),
            step@ == answer(old(self)@.config, old(self)@.state, event@),
    {
        proof {
            use_type_invariant(&*self);
        }
        let mut output: Option<String> = None;
        let mut diagnostic: Option<String> = None;
        match self.phase {
            Phase::Opening => match event {
                Event::Opened => {
                    self.counter = LineCounter::new();
                    self.phase = Phase::Reading;
                },
                Event::OpenFailed(reason) => {
                    let sources = self.config.sources();
                    let count = sources.len();
                    let name = &sources[self.index];
                    diagnostic = Some(open_failure_line(name.as_str(), reason.as_str()));
                    if self.index + 1 < count {
                        self.index = self.index + 1;
                    } else {
                        self.phase = Phase::Finished(false);
                    }
                },
                _ => {},
            },
            Phase::Reading => match event {
                Event::Line(text) => {
                    let mode = self.config.numbering();
                    let mut counter = self.counter;
                    output = Some(counter.emit(mode, text.as_str()));
                    self.counter = counter;
                },
                Event::EndOfSource => {
                    let count = self.config.sources().len();
                    if self.index + 1 < count {
                        self.index = self.index + 1;
                        self.phase = Phase::Opening;
                    } else {
                        self.phase = Phase::Finished(false);
                    }
                },
                Event::ReadFailed(reason) => {
                    diagnostic = Some(reason);
                    self.phase = Phase::Finished(true);
                },
                _ => {},
            },
            Phase::Finished(_) => {},
        }
        let next = self.pending();
        Step { output, diagnostic, next }
    }
}

} // verus!
