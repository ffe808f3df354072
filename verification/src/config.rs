//! The validated configuration of a run.

use vstd::prelude::*;
use vstd::string::*;

verus! {

/// The name that stands for standard input among the sources.
pub open spec fn standard_input_name() -> Seq<char> {
    seq!['-']
}

/// The texts of a sequence of strings.
pub open spec fn texts(strings: Seq<String>) -> Seq<Seq<char>> {
    Seq::new(strings.len(), |i: int| strings[i]@)
}

/// Which lines get a number.
#[derive(Clone, Copy, Debug, PartialEq, Eq, Structural)]
pub enum Numbering {
    /// No line is numbered.
    Off,
    /// Every line is numbered by its position in its source.
    AllLines,
    /// Only lines with text are numbered; empty lines are skipped.
    NonblankLines,
}

/// What a [`Config`] holds, as mathematical values.
pub struct ConfigView {
    pub sources: Seq<Seq<char>>,
    pub number_all_lines: bool,
    pub number_nonblank_lines: bool,
}

impl ConfigView {
    /// At least one source is named, and at most one numbering flag is set.
    pub open spec fn well_formed(self) -> bool {
        &&& self.sources.len() >= 1
        &&& !(self.number_all_lines && self.number_nonblank_lines)
    }

    /// The numbering mode that the two flags select.
    pub open spec fn numbering(self) -> Numbering {
        if self.number_all_lines {
            Numbering::AllLines
        } else if self.number_nonblank_lines {
            Numbering::NonblankLines
        } else {
            Numbering::Off
        }
    }
}

/// The sources that a request names: those given, or standard input alone
/// where none is given.
pub open spec fn sources_or_default(given: Seq<Seq<char>>) -> Seq<Seq<char>> {
    if given.len() == 0 {
        seq![standard_input_name()]
    } else {
        given
    }
}

/// The sources to read, in order, and the numbering flags. A value of this
/// type always names at least one source and never has both flags set.
#[derive(Debug)]
pub struct Config {
    sources: Vec<String>,
    number_all_lines: bool,
    number_nonblank_lines: bool,
}

impl View for Config {
    type V = ConfigView;

    closed spec fn view(&self) -> ConfigView {
        ConfigView {
            sources: texts(self.sources@),
            number_all_lines: self.number_all_lines,
            number_nonblank_lines: self.number_nonblank_lines,
        }
    }
}

impl Config {
    #[verifier::type_invariant]
    pub(crate) open spec fn valid(self) -> bool {
        self@.well_formed()
    }

    /// Builds a configuration. Both flags together are refused; an empty
    /// list of sources stands for standard input.
    pub fn new(sources: Vec<String>, number_all_lines: bool, number_nonblank_lines: bool) -> (r:
        Option<Config>)
        ensures
            r is None <==> number_all_lines && number_nonblank_lines,
            r is Some ==> r.unwrap()@ == (ConfigView {
                sources: sources_or_default(texts(sources@)),
                number_all_lines,
                number_nonblank_lines,
            }),
            r is Some ==> r.unwrap()@.well_formed(),
    {
        if number_all_lines && number_nonblank_lines {
            return None;
        }
        let mut sources = sources;
        if sources.len() == 0 {
            sources.push(String::from_str("-"));
            proof {
                reveal_strlit("-");
                assert("-"@ =~= standard_input_name());
                assert(texts(sources@) =~= seq![standard_input_name()]);
            }
        }
        Some(Config { sources, number_all_lines, number_nonblank_lines })
    }

    /// The names of the sources, in the order in which they are read.
    pub fn sources(&self) -> (r: &Vec<String>)
        ensures
            texts(r@) == self@.sources,
            r@.len() == self@.sources.len(),
            r@.len() >= 1,
            self@.well_formed(),
    {
        proof {
            use_type_invariant(self);
        }
        &self.sources
    }

    /// Whether every line is numbered.
    pub fn number_all_lines(&self) -> (r: bool)
        ensures
            r == self@.number_all_lines,
            self@.well_formed(),
    {
        proof {
            use_type_invariant(self);
        }
        self.number_all_lines
    }

    /// Whether the lines with text are numbered.
    pub fn number_nonblank_lines(&self) -> (r: bool)
        ensures
            r == self@.number_nonblank_lines,
            self@.well_formed(),
    {
        proof {
            use_type_invariant(self);
        }
        self.number_nonblank_lines
    }

    /// The numbering mode.
    pub fn numbering(&self) -> (r: Numbering)
        ensures
            r == self@.numbering(),
            self@.well_formed(),
    {
        proof {
            use_type_invariant(self);
        }
        if self.number_all_lines {
            Numbering::AllLines
        } else if self.number_nonblank_lines {
            Numbering::NonblankLines
        } else {
            Numbering::Off
        }
    }
}

} // verus!
