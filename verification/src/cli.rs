//! The command line: which options it sets and where its paths begin.

use vstd::prelude::*;
use vstd::string::*;
use crate::usage::Options;

verus! {

/// The option parser of the `getopt` crate, held as it is.
#[verifier::external_type_specification]
#[verifier::external_body]
pub struct ExParser(getopt::Parser);

/// An option as the `getopt` crate hands it out, held as it is.
#[verifier::external_type_specification]
#[verifier::external_body]
pub struct ExOpt(getopt::Opt);

/// The error of the `getopt` crate, held as it is.
#[verifier::external_type_specification]
#[verifier::external_body]
pub struct ExError(getopt::Error);

/// Why a command line was turned down.
#[derive(Debug)]
pub enum CliError {
    /// An option letter that this program does not know.
    UnknownOption(char),
    /// The parser's own complaint about the command line.
    OptionParseError(String),
}

/// A refusal over text.
pub ghost enum CliErrorView {
    UnknownOption(char),
    OptionParseError(Seq<char>),
}

impl View for CliError {
    type V = CliErrorView;

    open spec fn view(&self) -> CliErrorView {
        match self {
            CliError::UnknownOption(letter) => CliErrorView::UnknownOption(*letter),
            CliError::OptionParseError(text) => CliErrorView::OptionParseError(text@),
        }
    }
}

/// What the command line asks for.
#[derive(Debug)]
pub struct Invocation {
    pub opts: Options,
    /// The paths to report on; none means every mounted filesystem.
    pub paths: Vec<String>,
}

/// One thing that the parser hands out: an option letter, or a complaint.
pub type Item = Result<char, Seq<char>>;

/// Arguments as texts.
pub open spec fn args_view(args: Seq<String>) -> Seq<Seq<char>> {
    args.map_values(|arg: String| arg@)
}

/// What the `getopt` crate finds on a command line, in order, before it
/// reports the end of the options. `args[0]` is the program's name;
/// `optstring` lists the letters that are options.
pub uninterp spec fn option_items(args: Seq<Seq<char>>, optstring: Seq<char>) -> Seq<Item>;

/// The position in `args` at which the `getopt` crate comes to rest: that
/// of the first argument that is no option.
pub uninterp spec fn operands_start(args: Seq<Seq<char>>, optstring: Seq<char>) -> nat;

/// What a parser will hand out, in order, before it next reports the end
/// of the options.
pub uninterp spec fn upcoming(parser: getopt::Parser) -> Seq<Item>;

/// The position at which a parser will stand when it next reports the end
/// of the options.
pub uninterp spec fn operands_from(parser: getopt::Parser) -> nat;

/// The position in the arguments at which a parser stands.
pub uninterp spec fn position(parser: getopt::Parser) -> nat;

/// The message that an error of the `getopt` crate shows.
pub uninterp spec fn refusal_text(error: getopt::Error) -> Seq<char>;

/// `getopt::Parser::new`. The contract claims that what the parser will
/// hand out, and where it will come to rest, depend on the arguments and
/// the option letters alone.
#[verifier::external_body]
fn new_parser(args: &Vec<String>, optstring: &str) -> (parser: getopt::Parser)
    ensures
        upcoming(parser) == option_items(args_view(args@), optstring@),
        operands_from(parser) == operands_start(args_view(args@), optstring@),
{
    getopt::Parser::new(args, optstring)
}

/// `Iterator::next` of `getopt::Parser`. The contract claims that the
/// parser hands out what is to come in order, one item per call, and that
/// it reports the end when nothing is left and then stands where it was to
/// come to rest. Of an option it keeps the letter.
#[verifier::external_body]
fn next_option(parser: &mut getopt::Parser) -> (item: Option<Result<char, getopt::Error>>)
    ensures
        upcoming(*old(parser)).len() == 0 ==> item is None && position(*final(parser))
            == operands_from(*old(parser)),
        upcoming(*old(parser)).len() > 0 ==> upcoming(*final(parser)) == upcoming(
            *old(parser),
        ).skip(1) && operands_from(*final(parser)) == operands_from(*old(parser)) && match item {
            Some(Ok(letter)) => upcoming(*old(parser))[0] == Ok::<char, Seq<char>>(letter),
            Some(Err(error)) => upcoming(*old(parser))[0] == Err::<char, Seq<char>>(
                refusal_text(error),
            ),
            None => false,
        },
{
    match parser.next() {
        Some(Ok(opt)) => Some(Ok(opt.0)),
        Some(Err(error)) => Some(Err(error)),
        None => None,
    }
}

/// `getopt::Parser::index`: the position at which the parser stands.
#[verifier::external_body]
fn parser_index(parser: &getopt::Parser) -> (index: usize)
    ensures
        index == position(*parser),
{
    parser.index()
}

/// `Display` of `getopt::Error`: the message of the error as text.
#[verifier::external_body]
fn refusal_message(error: &getopt::Error) -> (text: String)
    ensures
        text@ == refusal_text(*error),
{
    error.to_string()
}

/// What one option letter does to the options: `k` selects units of 1024
/// bytes, `P` changes nothing, any other letter is refused.
pub open spec fn option_effect(kilo_flag: bool, letter: char) -> Result<bool, CliErrorView> {
    if letter == 'k' {
        Ok(true)
    } else if letter == 'P' {
        Ok(kilo_flag)
    } else {
        Err(CliErrorView::UnknownOption(letter))
    }
}

/// Applies one option letter to the options; a refused letter leaves them
/// as they were.
pub fn apply_option(opts: &mut Options, letter: char) -> (done: Result<(), CliError>)
    ensures
        match option_effect(old(opts).kilo_flag, letter) {
            Ok(kilo_flag) => done is Ok && final(opts).kilo_flag == kilo_flag,
            Err(refusal) => done matches Err(error) && error@ == refusal && *final(opts) == *old(opts),
        },
{
    if letter == 'k' {
        opts.kilo_flag = true;
        Ok(())
    } else if letter == 'P' {
        Ok(())
    } else {
        Err(CliError::UnknownOption(letter))
    }
}

/// What a run of items makes of the options, starting from `kilo_flag`:
/// the first complaint or refused letter ends the run with that refusal.
pub open spec fn options_after(items: Seq<Item>, kilo_flag: bool) -> Result<bool, CliErrorView>
    decreases items.len(),
{
    if items.len() == 0 {
        Ok(kilo_flag)
    } else {
        match items[0] {
            Ok(letter) => match option_effect(kilo_flag, letter) {
                Ok(next) => options_after(items.skip(1), next),
                Err(refusal) => Err(refusal),
            },
            Err(text) => Err(CliErrorView::OptionParseError(text)),
        }
    }
}

/// The arguments from position `from` on; none where `from` is past the end.
pub open spec fn operands(args: Seq<Seq<char>>, from: nat) -> Seq<Seq<char>> {
    if from <= args.len() {
        args.skip(from as int)
    } else {
        Seq::<Seq<char>>::empty()
    }
}

/// Copies the arguments from position `from` on.
pub fn operands_of(args: &Vec<String>, from: usize) -> (paths: Vec<String>)
    ensures
        args_view(paths@) == operands(args_view(args@), from as nat),
{
    let mut paths: Vec<String> = Vec::new();
    if from > args.len() {
        assert(args_view(paths@) =~= operands(args_view(args@), from as nat));
        return paths;
    }
    let mut i: usize = from;
    while i < args.len()
        invariant
            from <= i <= args.len(),
            paths.len() == i - from,
            forall|j: int| 0 <= j < paths.len() ==> (#[trigger] paths[j])@ == args[from + j]@,
        decreases args.len() - i,
    {
        paths.push(args[i].clone());
        i += 1;
    }
    assert(args_view(paths@) =~= operands(args_view(args@), from as nat));
    paths
}

/// Reads the command line `args`, whose first element is the program's
/// name. Options are the letters `k` and `P`; the first letter that is
/// neither, or the parser's first complaint, turns the command line down.
/// The paths are the arguments from where the options end.
pub fn parse_args(args: &Vec<String>) -> (parsed: Result<Invocation, CliError>)
    ensures
        match options_after(option_items(args_view(args@), "kP"@), false) {
            Ok(kilo_flag) => parsed matches Ok(invocation) && invocation.opts.kilo_flag == kilo_flag
                && args_view(invocation.paths@) == operands(
                args_view(args@),
                operands_start(args_view(args@), "kP"@),
            ),
            Err(refusal) => parsed matches Err(error) && error@ == refusal,
        },
{
    let mut parser = new_parser(args, "kP");
    let mut opts = Options { kilo_flag: false };
    let ghost items = option_items(args_view(args@), "kP"@);
    let ghost mut seen: int = 0;
    loop
        invariant
            0 <= seen <= items.len(),
            items == option_items(args_view(args@), "kP"@),
            upcoming(parser) == items.skip(seen),
            operands_from(parser) == operands_start(args_view(args@), "kP"@),
            options_after(items, false) == options_after(items.skip(seen), opts.kilo_flag),
        decreases items.len() - seen,
    {
        let ghost rest = items.skip(seen);
        match next_option(&mut parser) {
            Some(Ok(letter)) => {
                assert(rest.skip(1) =~= items.skip(seen + 1));
                match apply_option(&mut opts, letter) {
                    Ok(()) => {},
                    Err(error) => {
                        return Err(error);
                    },
                }
                proof {
                    seen = seen + 1;
                }
            },
            Some(Err(error)) => {
                return Err(CliError::OptionParseError(refusal_message(&error)));
            },
            None => {
                let from: usize = parser_index(&parser);
                let paths: Vec<String> = operands_of(args, from);
                return Ok(Invocation { opts, paths });
            },
        }
    }
}

} // verus!
