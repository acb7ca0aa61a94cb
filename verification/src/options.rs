//! The options of the send command, read with the `getopts` crate.
//!
//! What `getopts` does is not proved here. This file says what the rest of the
//! library takes for granted about the calls it makes into that crate.

use vstd::prelude::*;
use crate::text::strings;
use getopts::{Fail, Matches, Options};

verus! {

/// `getopts::Options`: a table of the options that a command line may hold.
#[verifier::external_type_specification]
#[verifier::external_body]
pub struct ExOptions(Options);

/// `getopts::Matches`: what a parse of a command line against a table found.
#[verifier::external_type_specification]
#[verifier::external_body]
pub struct ExMatches(Matches);

/// `getopts::Fail`: why a command line does not fit a table.
#[verifier::external_type_specification]
#[verifier::external_body]
pub struct ExFail(Fail);

/// What a table of options holds: for each option, in the order in which they
/// were added, its short name, its long name, its description and the hint for
/// its value.
pub uninterp spec fn option_table(options: Options) -> Seq<
    (Seq<char>, Seq<char>, Seq<char>, Seq<char>),
>;

/// Whether a table parses in the default style and holds nothing but options
/// that may be left out, may be given once, and take a value.
pub uninterp spec fn takes_optional_values(options: Options) -> bool;

/// What the matches of a parse hold: for each name that an option of the table
/// goes by, the value that was given for that option, if any.
pub uninterp spec fn found_values(matches: Matches) -> Map<Seq<char>, Option<Seq<char>>>;

/// What parsing arguments finds, for a table of optional options that take a
/// value and go by the given short and long names: nothing where the arguments
/// do not fit the table, else the value given for each name.
pub uninterp spec fn parsed_values(names: Seq<(Seq<char>, Seq<char>)>, args: Seq<Seq<char>>) -> Option<
    Map<Seq<char>, Option<Seq<char>>>,
>;

/// The usage text that is rendered under a brief for a table of optional options
/// that take a value, with the given names, descriptions and hints.
pub uninterp spec fn usage_rendering(
    table: Seq<(Seq<char>, Seq<char>, Seq<char>, Seq<char>)>,
    brief: Seq<char>,
) -> Seq<char>;

/// The short and long names of a table.
pub open spec fn names_of(table: Seq<(Seq<char>, Seq<char>, Seq<char>, Seq<char>)>) -> Seq<
    (Seq<char>, Seq<char>),
> {
    Seq::new(table.len(), |i: int| (table[i].0, table[i].1))
}

/// Names that `getopts` takes: a short name is one ASCII character or empty, a
/// long name is empty or longer than one character, and one of the two is there.
pub open spec fn valid_names(short: Seq<char>, long: Seq<char>) -> bool {
    &&& short.len() <= 1
    &&& short.len() == 1 ==> (short[0] as u32) < 128
    &&& long.len() != 1
    &&& short.len() + long.len() > 0
}

/// `Options::new`: a table without options, in the default parsing style.
#[verifier::external_body]
pub(crate) fn new_options() -> (options: Options)
    ensures
        option_table(options).len() == 0,
        takes_optional_values(options),
{
    Options::new()
}

/// `Options::optopt`: adds one option that may be left out and takes a value.
/// The call panics on names that `valid_names` refuses in its first three lines;
/// the fourth keeps out the option without any name, on which a later parse
/// would panic.
#[verifier::external_body]
pub(crate) fn add_optopt(options: &mut Options, short: &str, long: &str, description: &str, hint: &str)
    requires
        valid_names(short@, long@),
    ensures
        option_table(*final(options)) == option_table(*old(options)).push(
            (short@, long@, description@, hint@),
        ),
        takes_optional_values(*final(options)) == takes_optional_values(*old(options)),
{
    options.optopt(short, long, description, hint);
}

/// `Options::parse`: the matches, or the failure where the arguments do not fit
/// the table. The matches answer to every short and long name of the table.
#[verifier::external_body]
pub(crate) fn parse_arguments(options: &Options, args: &[String]) -> (r: Result<Matches, Fail>)
    requires
        takes_optional_values(*options),
        forall|i: int|
            0 <= i < option_table(*options).len() ==> valid_names(
                (#[trigger] option_table(*options)[i]).0,
                option_table(*options)[i].1,
            ),
    ensures
        match r {
            Ok(matches) => {
                &&& parsed_values(names_of(option_table(*options)), strings(args@)) == Some(
                    found_values(matches),
                )
                &&& forall|i: int|
                    0 <= i < option_table(*options).len() ==> {
                        let entry = #[trigger] option_table(*options)[i];
                        &&& entry.0.len() > 0 ==> found_values(matches).dom().contains(entry.0)
                        &&& entry.1.len() > 0 ==> found_values(matches).dom().contains(entry.1)
                    }
            },
            Err(_) => parsed_values(names_of(option_table(*options)), strings(args@)) is None,
        },
{
    options.parse(args)
}

/// `Matches::opt_str`: the value given for the option that goes by `name`. The
/// call panics on a name that no option of the table goes by.
#[verifier::external_body]
pub(crate) fn value_of(matches: &Matches, name: &str) -> (r: Option<String>)
    requires
        found_values(*matches).dom().contains(name@),
    ensures
        match r {
            Some(value) => found_values(*matches)[name@] == Some(value@),
            None => found_values(*matches)[name@] is None,
        },
{
    matches.opt_str(name)
}

/// `Options::usage`: the brief, and under it one entry for each option. The
/// call panics on a short name that is wider than one column, which no name
/// that `valid_names` accepts is.
#[verifier::external_body]
pub(crate) fn render_usage(options: &Options, brief: &str) -> (r: String)
    requires
        takes_optional_values(*options),
        forall|i: int|
            0 <= i < option_table(*options).len() ==> valid_names(
                (#[trigger] option_table(*options)[i]).0,
                option_table(*options)[i].1,
            ),
    ensures
        r@ == usage_rendering(option_table(*options), brief@),
{
    options.usage(brief)
}

} // verus!
