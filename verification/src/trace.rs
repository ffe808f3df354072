//! Whole runs: what a streamer writes when it is fed the events of its
//! sources one after the other.

use crate::config::ConfigView;
use crate::stream::{lemma_rendered_push, nonblank_count, open_failure_report, rendered};
use crate::streamer::{after, after_source, diagnostic_of, output_of, EventView, State};
use vstd::prelude::*;

verus! {

/// The state reached from `state` when `events` are handled in order.
pub open spec fn after_all(config: ConfigView, state: State, events: Seq<EventView>) -> State
    decreases events.len(),
{
    if events.len() == 0 {
        state
    } else {
        after(config, after_all(config, state, events.drop_last()), events.last())
    }
}

/// What goes to standard output, piece by piece, when `events` are handled
/// in order from `state`.
pub open spec fn outputs(config: ConfigView, state: State, events: Seq<EventView>) -> Seq<
    Seq<char>,
>
    decreases events.len(),
{
    if events.len() == 0 {
        Seq::empty()
    } else {
        let earlier = outputs(config, state, events.drop_last());
        match output_of(config, after_all(config, state, events.drop_last()), events.last()) {
            Some(text) => earlier.push(text),
            None => earlier,
        }
    }
}

/// What goes to the error stream, line by line, when `events` are handled
/// in order from `state`.
pub open spec fn diagnostics(config: ConfigView, state: State, events: Seq<EventView>) -> Seq<
    Seq<char>,
>
    decreases events.len(),
{
    if events.len() == 0 {
        Seq::empty()
    } else {
        let earlier = diagnostics(config, state, events.drop_last());
        match diagnostic_of(config, after_all(config, state, events.drop_last()), events.last()) {
            Some(text) => earlier.push(text),
            None => earlier,
        }
    }
}

/// One `Line` event for each of `lines`.
pub open spec fn line_events(lines: Seq<Seq<char>>) -> Seq<EventView> {
    Seq::new(lines.len(), |i: int| EventView::Line(lines[i]))
}

/// What a source turns out to be when the run comes to it.
pub enum Content {
    /// It cannot be opened, for this reason.
    Unopened(Seq<char>),
    /// It opens and yields these lines.
    Lines(Seq<Seq<char>>),
}

/// The events that one source gives rise to.
pub open spec fn source_events(content: Content) -> Seq<EventView> {
    match content {
        Content::Unopened(reason) => seq![EventView::OpenFailed(reason)],
        Content::Lines(lines) => seq![EventView::Opened] + line_events(lines).push(
            EventView::EndOfSource,
        ),
    }
}

/// The events of a run over sources with these contents, none of which
/// fails while it is read.
pub open spec fn run_events(contents: Seq<Content>) -> Seq<EventView>
    decreases contents.len(),
{
    if contents.len() == 0 {
        Seq::empty()
    } else {
        run_events(contents.drop_last()) + source_events(contents.last())
    }
}

/// Each source that opens, laid out by itself, one after the other.
pub open spec fn expected_outputs(config: ConfigView, contents: Seq<Content>) -> Seq<Seq<char>>
    decreases contents.len(),
{
    if contents.len() == 0 {
        Seq::empty()
    } else {
        expected_outputs(config, contents.drop_last()) + (match contents.last() {
            Content::Unopened(_) => Seq::empty(),
            Content::Lines(lines) => rendered(config.numbering(), lines),
        })
    }
}

/// One report for each source that does not open, in order.
pub open spec fn expected_diagnostics(config: ConfigView, contents: Seq<Content>) -> Seq<
    Seq<char>,
>
    decreases contents.len(),
{
    if contents.len() == 0 {
        Seq::empty()
    } else {
        expected_diagnostics(config, contents.drop_last()) + (match contents.last() {
            Content::Unopened(reason) => seq![
                open_failure_report(config.sources[contents.len() - 1], reason),
            ],
            Content::Lines(_) => Seq::empty(),
        })
    }
}

/// Where a run stands when it is done with the first `count` sources.
pub open spec fn state_behind(config: ConfigView, count: nat) -> State {
    if count == 0 {
        State::Opening { index: 0 }
    } else {
        after_source(config, (count - 1) as nat)
    }
}

/// Handling one event.
pub proof fn lemma_single_event(config: ConfigView, state: State, event: EventView)
    ensures
        after_all(config, state, seq![event]) == after(config, state, event),
        outputs(config, state, seq![event]) == (match output_of(config, state, event) {
            Some(text) => seq![text],
            None => Seq::empty(),
        }),
        diagnostics(config, state, seq![event]) == (match diagnostic_of(config, state, event) {
            Some(text) => seq![text],
            None => Seq::empty(),
        }),
{
    let events = seq![event];
    let none = events.drop_last();
    assert(none.len() == 0);
    assert(events.last() == event);
    assert(after_all(config, state, none) == state);
    assert(outputs(config, state, none) =~= Seq::<Seq<char>>::empty());
    assert(diagnostics(config, state, none) =~= Seq::<Seq<char>>::empty());
    match output_of(config, state, event) {
        Some(text) => {
            assert(outputs(config, state, events) =~= seq![text]);
        },
        None => {},
    }
    match diagnostic_of(config, state, event) {
        Some(text) => {
            assert(diagnostics(config, state, events) =~= seq![text]);
        },
        None => {},
    }
}

/// Handling one sequence of events and then another is handling the two
/// joined: the second part goes on from where the first ended.
pub proof fn lemma_joined_events(
    config: ConfigView,
    state: State,
    first: Seq<EventView>,
    second: Seq<EventView>,
)
    ensures
        after_all(config, state, first + second) == after_all(
            config,
            after_all(config, state, first),
            second,
        ),
        outputs(config, state, first + second) == outputs(config, state, first) + outputs(
            config,
            after_all(config, state, first),
            second,
        ),
        diagnostics(config, state, first + second) == diagnostics(config, state, first)
            + diagnostics(config, after_all(config, state, first), second),
    decreases second.len(),
{
    let middle = after_all(config, state, first);
    if second.len() == 0 {
        assert(first + second =~= first);
        assert(outputs(config, state, first) + outputs(config, middle, second) =~= outputs(
            config,
            state,
            first,
        ));
        assert(diagnostics(config, state, first) + diagnostics(config, middle, second)
            =~= diagnostics(config, state, first));
    } else {
        let shorter = second.drop_last();
        lemma_joined_events(config, state, first, shorter);
        assert((first + second).drop_last() =~= first + shorter);
        assert((first + second).last() == second.last());
        let before = after_all(config, middle, shorter);
        assert(after_all(config, state, first + shorter) == before);
        match output_of(config, before, second.last()) {
            Some(text) => {
                assert(outputs(config, state, first + second) =~= outputs(config, state, first)
                    + outputs(config, middle, second));
            },
            None => {},
        }
        match diagnostic_of(config, before, second.last()) {
            Some(text) => {
                assert(diagnostics(config, state, first + second) =~= diagnostics(
                    config,
                    state,
                    first,
                ) + diagnostics(config, middle, second));
            },
            None => {},
        }
    }
}

/// The numbering of a source starts afresh, whatever came before it: once
/// source `index` is open, its lines are written as `rendered` lays them
/// out, nothing goes to the error stream, and the counters stand at the
/// number of its lines and of its lines with text.
pub proof fn lemma_lines_of_a_source(config: ConfigView, index: nat, lines: Seq<Seq<char>>)
    ensures
        after(config, State::Opening { index }, EventView::Opened) == (State::Reading {
            index,
            lines: 0,
            nonblank: 0,
        }),
        after_all(
            config,
            after(config, State::Opening { index }, EventView::Opened),
            line_events(lines),
        ) == (State::Reading { index, lines: lines.len(), nonblank: nonblank_count(lines) }),
        outputs(
            config,
            after(config, State::Opening { index }, EventView::Opened),
            line_events(lines),
        ) == rendered(config.numbering(), lines),
        diagnostics(
            config,
            after(config, State::Opening { index }, EventView::Opened),
            line_events(lines),
        ) == Seq::<Seq<char>>::empty(),
    decreases lines.len(),
{
    let start = State::Reading { index, lines: 0, nonblank: 0 };
    let events = line_events(lines);
    if lines.len() == 0 {
        assert(rendered(config.numbering(), lines) =~= Seq::<Seq<char>>::empty());
        assert(outputs(config, start, events) =~= Seq::<Seq<char>>::empty());
    } else {
        let shorter = lines.drop_last();
        lemma_lines_of_a_source(config, index, shorter);
        assert(events.drop_last() =~= line_events(shorter));
        assert(events.last() == EventView::Line(lines.last()));
        lemma_rendered_push(config.numbering(), lines);
    }
}

/// A run over all its sources, none of which fails while it is read,
/// writes each source that opens as if it were the only one, in the order
/// in which the sources are named; it reports each source that does not
/// open with its name and the reason, and goes on; and it ends without a
/// failure. The same holds of the first sources of a run, which leave it
/// waiting to open the next.
pub proof fn lemma_run(config: ConfigView, contents: Seq<Content>)
    requires
        config.well_formed(),
        contents.len() <= config.sources.len(),
    ensures
        after_all(config, State::Opening { index: 0 }, run_events(contents)) == state_behind(
            config,
            contents.len(),
        ),
        contents.len() == config.sources.len() ==> state_behind(config, contents.len()) == (
        State::Finished { failed: false }),
        contents.len() < config.sources.len() ==> state_behind(config, contents.len()) == (
        State::Opening { index: contents.len() }),
        outputs(config, State::Opening { index: 0 }, run_events(contents)) == expected_outputs(
            config,
            contents,
        ),
        diagnostics(config, State::Opening { index: 0 }, run_events(contents))
            == expected_diagnostics(config, contents),
    decreases contents.len(),
{
    let start = State::Opening { index: 0 };
    if contents.len() == 0 {
        assert(outputs(config, start, run_events(contents)) =~= Seq::<Seq<char>>::empty());
        assert(diagnostics(config, start, run_events(contents)) =~= Seq::<Seq<char>>::empty());
    } else {
        let earlier = contents.drop_last();
        let index = earlier.len();
        lemma_run(config, earlier);
        let here = State::Opening { index };
        assert(after_all(config, start, run_events(earlier)) == here);
        let tail = source_events(contents.last());
        lemma_joined_events(config, start, run_events(earlier), tail);
        match contents.last() {
            Content::Unopened(reason) => {
                lemma_single_event(config, here, EventView::OpenFailed(reason));
            },
            Content::Lines(lines) => {
                let reading = after(config, here, EventView::Opened);
                let rest = line_events(lines).push(EventView::EndOfSource);
                lemma_joined_events(config, here, seq![EventView::Opened], rest);
                lemma_single_event(config, here, EventView::Opened);
                assert(rest =~= line_events(lines) + seq![EventView::EndOfSource]);
                lemma_joined_events(
                    config,
                    reading,
                    line_events(lines),
                    seq![EventView::EndOfSource],
                );
                lemma_lines_of_a_source(config, index, lines);
                let read = after_all(config, reading, line_events(lines));
                lemma_single_event(config, read, EventView::EndOfSource);
                assert(outputs(config, here, tail) =~= rendered(config.numbering(), lines));
                assert(diagnostics(config, here, tail) =~= Seq::<Seq<char>>::empty());
            },
        }
    }
}

/// A failure while a source is read ends the run as a failure, whatever
/// came before; its reason goes to the error stream and nothing more is
/// written.
pub proof fn lemma_read_failure_is_final(
    config: ConfigView,
    index: nat,
    lines: nat,
    nonblank: nat,
    reason: Seq<char>,
    later: Seq<EventView>,
)
    ensures
        after_all(
            config,
            State::Reading { index, lines, nonblank },
            seq![EventView::ReadFailed(reason)] + later,
        ) == (State::Finished { failed: true }),
        outputs(
            config,
            State::Reading { index, lines, nonblank },
            seq![EventView::ReadFailed(reason)] + later,
        ) == Seq::<Seq<char>>::empty(),
        diagnostics(
            config,
            State::Reading { index, lines, nonblank },
            seq![EventView::ReadFailed(reason)] + later,
        ) == seq![reason],
    decreases later.len(),
{
    let state = State::Reading { index, lines, nonblank };
    let first = seq![EventView::ReadFailed(reason)];
    lemma_single_event(config, state, EventView::ReadFailed(reason));
    if later.len() == 0 {
        assert(first + later =~= first);
    } else {
        lemma_read_failure_is_final(config, index, lines, nonblank, reason, later.drop_last());
        assert((first + later).drop_last() =~= first + later.drop_last());
        assert((first + later).last() == later.last());
    }
}

} // verus!
