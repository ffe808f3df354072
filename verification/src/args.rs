//! The configuration resolver: from the arguments of the command line to a
//! [`Config`], or to the reason why there is nothing to run.

use crate::config::{sources_or_default, standard_input_name, texts, Config, ConfigView};
use clap::{App, AppSettings, Arg};
use vstd::prelude::*;
use vstd::string::*;

verus! {

/// The error that the argument parser returns.
#[verifier::external_type_specification]
#[verifier::external_body]
pub struct ExParseError(clap::Error);

/// What the argument parser found on a command line.
#[derive(Debug)]
pub struct Matched {
    /// The source names, where the parser gives any.
    pub sources: Option<Vec<String>>,
    /// Whether numbering of all lines was asked for.
    pub number: bool,
    /// Whether numbering of the lines with text was asked for.
    pub number_nonblank: bool,
    /// Whether the version was asked for.
    pub version: bool,
}

/// A [`Matched`] as mathematical values; no source names and an empty list
/// of them are the same.
pub struct MatchedView {
    pub sources: Seq<Seq<char>>,
    pub number: bool,
    pub number_nonblank: bool,
    pub version: bool,
}

impl View for Matched {
    type V = MatchedView;

    open spec fn view(&self) -> MatchedView {
        MatchedView {
            sources: match self.sources {
                Some(names) => texts(names@),
                None => Seq::empty(),
            },
            number: self.number,
            number_nonblank: self.number_nonblank,
            version: self.version,
        }
    }
}

/// Why there is nothing to run.
#[derive(Debug)]
pub enum Exit {
    /// The arguments are malformed or contradict each other. The message
    /// belongs on the error stream, and the process fails.
    Usage(String),
    /// Help was asked for. The text belongs on standard output, and the
    /// process succeeds.
    Help(String),
    /// The version was asked for. It belongs on standard output, and the
    /// process succeeds.
    Version,
}

/// An [`Exit`] as mathematical values.
pub enum ExitView {
    Usage(Seq<char>),
    Help(Seq<char>),
    Version,
}

impl View for Exit {
    type V = ExitView;

    open spec fn view(&self) -> ExitView {
        match self {
            Exit::Usage(message) => ExitView::Usage(message@),
            Exit::Help(text) => ExitView::Help(text@),
            Exit::Version => ExitView::Version,
        }
    }
}

/// The program's version identifier.
pub open spec fn version_line() -> Seq<char> {
    "catr 0.1.0"@
}

/// The message for a command line that asks for both kinds of numbering.
pub open spec fn conflict_message() -> Seq<char> {
    "error: --number and --number-nonblank cannot be used together"@
}

impl ExitView {
    /// Whether the process is to end with a failure status.
    pub open spec fn is_failure(self) -> bool {
        self is Usage
    }

    /// The text to print, without a closing newline of its own.
    pub open spec fn text(self) -> Seq<char> {
        match self {
            ExitView::Usage(message) => message,
            ExitView::Help(text) => text,
            ExitView::Version => version_line(),
        }
    }
}

impl Exit {
    /// Whether the process is to end with a failure status. If so the text
    /// goes to the error stream, else to standard output.
    pub fn is_failure(&self) -> (r: bool)
        ensures
            r == self@.is_failure(),
    {
        match self {
            Exit::Usage(_) => true,
            _ => false,
        }
    }

    /// The text to print.
    pub fn text(&self) -> (r: String)
        ensures
            r@ == self@.text(),
    {
        match self {
            Exit::Usage(message) => message.clone(),
            Exit::Help(text) => text.clone(),
            Exit::Version => String::from_str("catr 0.1.0"),
        }
    }

    /// The exit for a command line that the parser did not accept: a usage
    /// error where its message is meant for the error stream, help where it
    /// is meant for standard output.
    pub fn from_report(for_error_stream: bool, message: String) -> (r: Exit)
        ensures
            r@ == (if for_error_stream {
                ExitView::Usage(message@)
            } else {
                ExitView::Help(message@)
            }),
    {
        if for_error_stream {
            Exit::Usage(message)
        } else {
            Exit::Help(message)
        }
    }
}

/// What a whole resolution comes to, as mathematical values.
pub open spec fn outcome_view(outcome: Result<Config, Exit>) -> Result<ConfigView, ExitView> {
    match outcome {
        Ok(config) => Ok(config@),
        Err(exit) => Err(exit@),
    }
}

/// What follows from what the parser found: a usage error where both
/// kinds of numbering were asked for; else the version where it was asked
/// for; else the configuration, with standard input as the source where
/// none is named.
pub open spec fn resolved(matched: MatchedView) -> Result<ConfigView, ExitView> {
    if matched.number && matched.number_nonblank {
        Err(ExitView::Usage(conflict_message()))
    } else if matched.version {
        Err(ExitView::Version)
    } else {
        Ok(
            ConfigView {
                sources: sources_or_default(matched.sources),
                number_all_lines: matched.number,
                number_nonblank_lines: matched.number_nonblank,
            },
        )
    }
}

/// Asking for both kinds of numbering is a usage error, whatever else the
/// command line holds: no configuration comes of it, and the process
/// fails.
pub proof fn lemma_both_flags_refused(matched: MatchedView)
    requires
        matched.number,
        matched.number_nonblank,
    ensures
        resolved(matched) == Err::<ConfigView, ExitView>(ExitView::Usage(conflict_message())),
        resolved(matched)->Err_0.is_failure(),
{
}

/// Every configuration that is resolved names at least one source, in the
/// order given, and has at most one kind of numbering.
pub proof fn lemma_resolved_is_well_formed(matched: MatchedView)
    ensures
        resolved(matched) matches Ok(config) ==> {
            &&& config.well_formed()
            &&& matched.sources.len() > 0 ==> config.sources == matched.sources
            &&& matched.sources.len() == 0 ==> config.sources == seq![standard_input_name()]
        },
{
}

/// Turns what the parser found into a configuration, or into the reason
/// why there is nothing to run.
pub fn resolve(matched: Matched) -> (r: Result<Config, Exit>)
    ensures
        outcome_view(r) == resolved(matched@),
        r matches Ok(config) ==> config@.well_formed(),
{
    let sources = match matched.sources {
        Some(names) => names,
        None => Vec::new(),
    };
    proof {
        assert(texts(sources@) =~= matched@.sources);
    }
    match Config::new(sources, matched.number, matched.number_nonblank) {
        None => Err(
            Exit::Usage(
                String::from_str("error: --number and --number-nonblank cannot be used together"),
            ),
        ),
        Some(config) => {
            if matched.version {
                Err(Exit::Version)
            } else {
                Ok(config)
            }
        },
    }
}

/// What the parser finds on the command line `args` (the program's name
/// left out), where it accepts it; `None` where it does not.
pub uninterp spec fn command_line_matches(args: Seq<Seq<char>>) -> Option<MatchedView>;

/// Builds the program's `clap::App` and parses `args` with
/// `clap::App::get_matches_from_safe`, the program's name not being among
/// them. The options are any number of source names, `-n`/`--number`,
/// `-b`/`--number-nonblank` (the two exclude each other) and
/// `-V`/`--version`; what was found is read with
/// `clap::ArgMatches::values_of_lossy` and `clap::ArgMatches::is_present`.
/// Claimed, not proved: that what the parser finds depends on `args`
/// alone, and that it returns an error exactly where
/// `command_line_matches` is `None`. Nothing is claimed of which command
/// lines it accepts, nor of what it finds on them.
#[verifier::external_body]
fn match_command_line(args: &Vec<String>) -> (r: Result<Matched, clap::Error>)
    ensures
        match r {
            Ok(matched) => command_line_matches(texts(args@)) == Some(matched@),
            Err(_) => command_line_matches(texts(args@)) is None,
        },
{
    let found = App::new("catr").setting(AppSettings::NoBinaryName).version("0.1.0").author("Flipez <code@brauser.io>").about("Rust cat")
        .arg(Arg::with_name("file").value_name("FILE").help("Input file").multiple(true).default_value("-"))
        .arg(Arg::with_name("number").short("n").long("number").help("Number lines").conflicts_with("number_nonblank"))
        .arg(Arg::with_name("number_nonblank").short("b").long("number-nonblank").help("Number nonblank lines"))
        .arg(Arg::with_name("version").short("V").long("version").help("Prints version information"))
        .get_matches_from_safe(args)?;
    Ok(Matched {
        sources: found.values_of_lossy("file"),
        number: found.is_present("number"),
        number_nonblank: found.is_present("number_nonblank"),
        version: found.is_present("version"),
    })
}

/// Takes a parser error apart: whether `clap::Error::use_stderr` says that
/// its message is meant for the error stream, and the message itself.
/// Nothing is claimed of either.
#[verifier::external_body]
fn report_of(error: clap::Error) -> (r: (bool, String)) {
    (error.use_stderr(), error.message)
}

/// Resolves the arguments of the command line, the program's name left
/// out, into a configuration, or into the reason why there is nothing to
/// run. Where the parser accepts the arguments, the result is what
/// [`resolve`] makes of what it found. Where it does not, the result is
/// the parser's own message: help where it is meant for standard output,
/// a usage error where it is meant for the error stream. No source is
/// touched either way.
pub fn get_args(args: Vec<String>) -> (r: Result<Config, Exit>)
    ensures
        match command_line_matches(texts(args@)) {
            Some(matched) => outcome_view(r) == resolved(matched),
            None => r matches Err(exit) && !(exit is Version),
        },
        r matches Ok(config) ==> config@.well_formed(),
{
    match match_command_line(&args) {
        Ok(matched) => resolve(matched),
        Err(error) => {
            let (for_error_stream, message) = report_of(error);
            Err(Exit::from_report(for_error_stream, message))
        },
    }
}

} // verus!
