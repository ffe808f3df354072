//! The line streamer: how the lines of a source are numbered, and how a run
//! moves through its sources.
//!
//! The caller opens, reads and writes. A [`Streamer`] says what to do next,
//! takes what happened as an [`Event`], and answers with the text to write
//! and the next thing to do.

use crate::config::{texts, Numbering};
use crate::layout::{numbered, numbered_line, plain, plain_line};
use vstd::prelude::*;
use vstd::string::*;

verus! {

/// What is written for one line, given how many lines and how many lines
/// with text its source held before it.
pub open spec fn emitted(
    mode: Numbering,
    lines_before: nat,
    nonblank_before: nat,
    line: Seq<char>,
) -> Seq<char> {
    match mode {
        Numbering::AllLines => numbered(lines_before + 1, line),
        Numbering::NonblankLines => if line.len() == 0 {
            seq!['\n']
        } else {
            numbered(nonblank_before + 1, line)
        },
        Numbering::Off => plain(line),
    }
}

/// How many of `lines` hold text.
pub open spec fn nonblank_count(lines: Seq<Seq<char>>) -> nat
    decreases lines.len(),
{
    if lines.len() == 0 {
        0
    } else if lines.last().len() == 0 {
        nonblank_count(lines.drop_last())
    } else {
        nonblank_count(lines.drop_last()) + 1
    }
}

/// What is written for a whole source, one entry for each of its lines.
pub open spec fn rendered(mode: Numbering, lines: Seq<Seq<char>>) -> Seq<Seq<char>> {
    Seq::new(
        lines.len(),
        |i: int| emitted(mode, i as nat, nonblank_count(lines.take(i)), lines[i]),
    )
}

/// The line on the error stream for a source that could not be opened.
pub open spec fn open_failure_report(name: Seq<char>, reason: Seq<char>) -> Seq<char> {
    name + seq![':', ' '] + reason
}

/// Taking one more line into the count of those with text.
pub proof fn lemma_nonblank_count_step(lines: Seq<Seq<char>>, i: int)
    requires
        0 <= i < lines.len(),
    ensures
        nonblank_count(lines.take(i + 1)) == nonblank_count(lines.take(i)) + (if lines[i].len()
            == 0 {
            0nat
        } else {
            1nat
        }),
        nonblank_count(lines.take(i)) <= i,
    decreases i,
{
    assert(lines.take(i + 1).drop_last() =~= lines.take(i));
    assert(lines.take(i + 1).last() == lines[i]);
    if i > 0 {
        lemma_nonblank_count_step(lines, i - 1);
    }
}

/// Without numbering, a source is written as it is read: every line
/// unchanged, each closed by a newline.
pub proof fn lemma_unnumbered_lines(lines: Seq<Seq<char>>)
    ensures
        rendered(Numbering::Off, lines).len() == lines.len(),
        forall|i: int|
            0 <= i < lines.len() ==> #[trigger] rendered(Numbering::Off, lines)[i] == lines[i]
                + seq!['\n'],
{
}

/// With numbering of all lines, every line comes behind its position in
/// its source, counted from one.
pub proof fn lemma_all_lines_numbered(lines: Seq<Seq<char>>)
    ensures
        rendered(Numbering::AllLines, lines).len() == lines.len(),
        forall|i: int|
            0 <= i < lines.len() ==> #[trigger] rendered(Numbering::AllLines, lines)[i]
                == numbered((i + 1) as nat, lines[i]),
{
}

/// With numbering of the lines with text, an empty line gives a bare
/// newline, and a line with text comes behind the number of lines with text
/// up to and including itself.
pub proof fn lemma_nonblank_lines_numbered(lines: Seq<Seq<char>>)
    ensures
        rendered(Numbering::NonblankLines, lines).len() == lines.len(),
        forall|i: int|
            0 <= i < lines.len() && lines[i].len() == 0 ==> #[trigger] rendered(
                Numbering::NonblankLines,
                lines,
            )[i] == seq!['\n'],
        forall|i: int|
            0 <= i < lines.len() && lines[i].len() > 0 ==> #[trigger] rendered(
                Numbering::NonblankLines,
                lines,
            )[i] == numbered(nonblank_count(lines.take(i + 1)), lines[i]),
        forall|i: int|
            0 <= i < lines.len() && lines[i].len() > 0 ==> 1 <= #[trigger] nonblank_count(
                lines.take(i + 1),
            ) <= i + 1,
{
    assert forall|i: int| 0 <= i < lines.len() && lines[i].len() > 0 implies #[trigger] rendered(
        Numbering::NonblankLines,
        lines,
    )[i] == numbered(nonblank_count(lines.take(i + 1)), lines[i]) by {
        lemma_nonblank_count_step(lines, i);
    }
    assert forall|i: int| 0 <= i < lines.len() && lines[i].len() > 0 implies 1
        <= #[trigger] nonblank_count(lines.take(i + 1)) <= i + 1 by {
        lemma_nonblank_count_step(lines, i);
    }
}

/// What is written for a source goes on from what was written for its
/// lines but the last.
pub proof fn lemma_rendered_push(mode: Numbering, lines: Seq<Seq<char>>)
    requires
        lines.len() > 0,
    ensures
        rendered(mode, lines) == rendered(mode, lines.drop_last()).push(
            emitted(
                mode,
                (lines.len() - 1) as nat,
                nonblank_count(lines.drop_last()),
                lines.last(),
            ),
        ),
{
    let shorter = lines.drop_last();
    let longer = rendered(mode, shorter).push(
        emitted(mode, (lines.len() - 1) as nat, nonblank_count(shorter), lines.last()),
    );
    assert(lines.take(lines.len() - 1) =~= shorter);
    assert forall|i: int| 0 <= i < lines.len() implies rendered(mode, lines)[i] == longer[i] by {
        if i < lines.len() - 1 {
            assert(shorter.take(i) =~= lines.take(i));
        }
    }
    assert(rendered(mode, lines) =~= longer);
}

/// The counters of one source: its lines so far, and those with text.
#[derive(Clone, Copy, Debug)]
pub struct LineCounter {
    lines: u64,
    nonblank: u64,
}

impl LineCounter {
    #[verifier::type_invariant]
    spec fn valid(self) -> bool {
        self.nonblank <= self.lines
    }

    /// The lines counted so far.
    pub closed spec fn lines(self) -> nat {
        self.lines as nat
    }

    /// The lines with text counted so far.
    pub closed spec fn nonblank(self) -> nat {
        self.nonblank as nat
    }

    /// Whether one more line can be counted.
    pub open spec fn has_room(self) -> bool {
        self.lines() < u64::MAX
    }

    /// The counters at the start of a source.
    pub fn new() -> (r: LineCounter)
        ensures
            r.lines() == 0,
            r.nonblank() == 0,
            r.has_room(),
    {
        LineCounter { lines: 0, nonblank: 0 }
    }

    /// Whether one more line can be counted.
    pub fn can_count(&self) -> (r: bool)
        ensures
            r == self.has_room(),
    {
        self.lines < u64::MAX
    }

    /// Counts `line` and gives the text to write for it.
    pub fn emit(&mut self, mode: Numbering, line: &str) -> (out: String)
        requires
            old(self).has_room(),
        ensures
            out@ == emitted(mode, old(self).lines(), old(self).nonblank(), line@),
            final(self).lines() == old(self).lines() + 1,
            final(self).nonblank() == old(self).nonblank() + (if line@.len() == 0 {
                0nat
            } else {
                1nat
            }),
    {
        proof {
            use_type_invariant(&*self);
        }
        self.lines = self.lines + 1;
        let blank = line.is_empty();
        if !blank {
            self.nonblank = self.nonblank + 1;
        }
        match mode {
            Numbering::AllLines => numbered_line(self.lines, line),
            Numbering::NonblankLines => {
                if blank {
                    let out = String::from_str("\n");
                    proof {
                        reveal_strlit("\n");
                        assert(out@ =~= seq!['\n']);
                    }
                    out
                } else {
                    numbered_line(self.nonblank, line)
                }
            },
            Numbering::Off => plain_line(line),
        }
    }
}

/// Lays out the lines of one source that is held in memory: entry `i` of
/// the result is what is written for line `i`.
pub fn render_source(mode: Numbering, lines: &Vec<String>) -> (out: Vec<String>)
    ensures
        texts(out@) == rendered(mode, texts(lines@)),
{
    let mut counter = LineCounter::new();
    let mut out: Vec<String> = Vec::new();
    let mut i: usize = 0;
    while i < lines.len()
        invariant
            i <= lines.len(),
            counter.lines() == i,
            counter.nonblank() == nonblank_count(texts(lines@).take(i as int)),
            out.len() == i,
            forall|j: int| 0 <= j < i ==> #[trigger] out[j]@ == rendered(mode, texts(lines@))[j],
        decreases lines.len() - i,
    {
        proof {
            lemma_nonblank_count_step(texts(lines@), i as int);
        }
        let text = counter.emit(mode, lines[i].as_str());
        out.push(text);
        i = i + 1;
    }
    proof {
        assert(texts(lines@).take(0) =~= Seq::<Seq<char>>::empty());
        assert(texts(out@) =~= rendered(mode, texts(lines@)));
    }
    out
}

} // verus!
