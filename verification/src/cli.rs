//! The command line: which command an invocation asks for.

use vstd::prelude::*;
use crate::address::AddressValue;
use crate::error::Error;
use crate::group::{group_of_text, port_of_text, resolve_group, resolve_port, MulticastGroup};
use crate::options::{
    add_optopt, names_of, new_options, option_table, parse_arguments, parsed_values, render_usage,
    takes_optional_values, usage_rendering, valid_names, value_of,
};
use crate::params::{parameters_of_text, ParametersValue, SendParameters};
use crate::text::{as_text, push_str, same_text, string_of, strings, text_of};
use getopts::Options;
use vstd::slice::slice_subrange;

verus! {

/// The two things the probe can do.
#[derive(Clone, Copy, Debug, PartialEq, Eq, Structural)]
pub enum Action {
    Send,
    Recv,
}

/// What an invocation asks for.
#[derive(Clone, Copy, Debug, PartialEq, Eq)]
pub enum Command {
    /// The invocation is malformed: print the usage text and end without success.
    Usage,
    Receive { group: MulticastGroup, port: u16 },
    Send { group: MulticastGroup, port: u16, parameters: SendParameters },
}

/// The mathematical value of a command.
pub enum CommandValue {
    Usage,
    Receive { group: AddressValue, port: u16 },
    Send { group: AddressValue, port: u16, parameters: ParametersValue },
}

impl View for Command {
    type V = CommandValue;

    open spec fn view(&self) -> CommandValue {
        match *self {
            Command::Usage => CommandValue::Usage,
            Command::Receive { group, port } => CommandValue::Receive { group: group@, port },
            Command::Send { group, port, parameters } => CommandValue::Send {
                group: group@,
                port,
                parameters: parameters@,
            },
        }
    }
}

/// The values given for the three options of the send command: amount, interval
/// and size.
pub struct OptionValues {
    pub amount: Option<String>,
    pub interval: Option<String>,
    pub size: Option<String>,
}

/// The mathematical value of the three option values.
pub struct OptionTexts {
    pub amount: Option<Seq<char>>,
    pub interval: Option<Seq<char>>,
    pub size: Option<Seq<char>>,
}

impl View for OptionValues {
    type V = OptionTexts;

    open spec fn view(&self) -> OptionTexts {
        OptionTexts {
            amount: text_of(self.amount),
            interval: text_of(self.interval),
            size: text_of(self.size),
        }
    }
}

/// The action that a word names.
pub open spec fn action_of_text(word: Seq<char>) -> Option<Action> {
    if word == "recv"@ || word == "r"@ {
        Some(Action::Recv)
    } else if word == "send"@ || word == "s"@ {
        Some(Action::Send)
    } else {
        None
    }
}

/// What an invocation asks for. `args` are all the words of the command line, the
/// program's name first; `options` is what was found among the words after the
/// port, or nothing where those words are no options of the send command.
///
/// With fewer than three words after the program's name, or with a first word
/// that names no action, the answer is the usage text. Then the group is
/// resolved, then the port; the first of them that fails decides. Receiving needs
/// nothing more. Sending reads its three numbers from the options.
pub open spec fn command_of(args: Seq<Seq<char>>, options: Option<OptionTexts>) -> Result<
    CommandValue,
    Error,
> {
    if args.len() < 4 {
        Ok(CommandValue::Usage)
    } else {
        match action_of_text(args[1]) {
            None => Ok(CommandValue::Usage),
            Some(action) => match group_of_text(args[2]) {
                Err(e) => Err(e),
                Ok(group) => match port_of_text(args[3]) {
                    Err(e) => Err(e),
                    Ok(port) => match action {
                        Action::Recv => Ok(CommandValue::Receive { group, port }),
                        Action::Send => match options {
                            None => Ok(CommandValue::Usage),
                            Some(texts) => match parameters_of_text(
                                texts.amount,
                                texts.interval,
                                texts.size,
                            ) {
                                Err(e) => Err(e),
                                Ok(parameters) => Ok(
                                    CommandValue::Send { group, port, parameters },
                                ),
                            },
                        },
                    },
                },
            },
        }
    }
}

/// Whether a command is what `command_of` gives: the same command, or the same
/// failure.
pub open spec fn command_as(r: Result<Command, Error>, expected: Result<CommandValue, Error>) -> bool {
    match expected {
        Ok(v) => r is Ok && r->Ok_0@ == v,
        Err(e) => r == Err::<Command, Error>(e),
    }
}

/// Reads the action that a word names.
pub fn action_of(word: &str) -> (r: Option<Action>)
    ensures
        r == action_of_text(word@),
{
    if same_text(word, "recv") || same_text(word, "r") {
        Some(Action::Recv)
    } else if same_text(word, "send") || same_text(word, "s") {
        Some(Action::Send)
    } else {
        None
    }
}

/// Decides what an invocation asks for, given what was found among the words
/// after the port.
pub fn command_from(args: &Vec<String>, options: Option<OptionValues>) -> (r: Result<Command, Error>)
    ensures
        command_as(
            r,
            command_of(
                strings(args@),
                match options {
                    Some(values) => Some(values@),
                    None => None,
                },
            ),
        ),
{
    if args.len() < 4 {
        return Ok(Command::Usage);
    }
    let action = match action_of(args[1].as_str()) {
        Some(action) => action,
        None => {
            return Ok(Command::Usage);
        },
    };
    let group = match resolve_group(args[2].as_str()) {
        Ok(group) => group,
        Err(e) => {
            return Err(e);
        },
    };
    let port = match resolve_port(args[3].as_str()) {
        Ok(port) => port,
        Err(e) => {
            return Err(e);
        },
    };
    match action {
        Action::Recv => Ok(Command::Receive { group, port }),
        Action::Send => match options {
            None => Ok(Command::Usage),
            Some(values) => {
                let parameters = SendParameters::from_text(
                    as_text(&values.amount),
                    as_text(&values.interval),
                    as_text(&values.size),
                );
                match parameters {
                    Ok(parameters) => Ok(Command::Send { group, port, parameters }),
                    Err(e) => Err(e),
                }
            },
        },
    }
}

// ---------------------------------------------------------------------------
// The options of the send command
// ---------------------------------------------------------------------------

/// The options of the send command: short name, long name, description, and an
/// empty hint for the value.
pub open spec fn send_option_table() -> Seq<(Seq<char>, Seq<char>, Seq<char>, Seq<char>)> {
    seq![
        ("a"@, "amount"@, "amount of packets to send (default: 5)"@, ""@),
        ("i"@, "interval"@, "delay between sent packets in ms (default: 1000 ms)"@, ""@),
        ("s"@, "size"@, "payload size per packet in bytes (default: 1 byte)"@, ""@),
    ]
}

/// The values of the three options among what a parse found.
pub open spec fn option_texts(found: Option<Map<Seq<char>, Option<Seq<char>>>>) -> Option<OptionTexts> {
    match found {
        None => None,
        Some(values) => Some(
            OptionTexts { amount: values["a"@], interval: values["i"@], size: values["s"@] },
        ),
    }
}

/// Builds the table of the options of the send command.
fn send_options() -> (options: Options)
    ensures
        option_table(options) == send_option_table(),
        takes_optional_values(options),
        forall|i: int|
            0 <= i < option_table(options).len() ==> valid_names(
                (#[trigger] option_table(options)[i]).0,
                option_table(options)[i].1,
            ),
{
    proof {
        reveal_strlit("a");
        reveal_strlit("i");
        reveal_strlit("s");
        reveal_strlit("amount");
        reveal_strlit("interval");
        reveal_strlit("size");
    }
    let mut options = new_options();
    add_optopt(&mut options, "a", "amount", "amount of packets to send (default: 5)", "");
    add_optopt(
        &mut options,
        "i",
        "interval",
        "delay between sent packets in ms (default: 1000 ms)",
        "",
    );
    add_optopt(&mut options, "s", "size", "payload size per packet in bytes (default: 1 byte)", "");
    assert(option_table(options) =~= send_option_table());
    options
}

/// Reads the options of the send command among the words after the port: the
/// value given for each of the three, or nothing where the words are no options
/// of the send command.
pub fn read_options(words: &[String]) -> (r: Option<OptionValues>)
    ensures
        match r {
            Some(values) => Some(values@) == option_texts(
                parsed_values(names_of(send_option_table()), strings(words@)),
            ),
            None => parsed_values(names_of(send_option_table()), strings(words@)) is None,
        },
{
    let options = send_options();
    match parse_arguments(&options, words) {
        Err(_) => None,
        Ok(matches) => {
            proof {
                reveal_strlit("a");
                reveal_strlit("i");
                reveal_strlit("s");
                assert(option_table(options)[0].0 == "a"@);
                assert(option_table(options)[1].0 == "i"@);
                assert(option_table(options)[2].0 == "s"@);
            }
            let amount = value_of(&matches, "a");
            let interval = value_of(&matches, "i");
            let size = value_of(&matches, "s");
            Some(OptionValues { amount, interval, size })
        },
    }
}

/// Decides what an invocation asks for. `args` are all the words of the command
/// line, the program's name first.
pub fn parse_command(args: &Vec<String>) -> (r: Result<Command, Error>)
    ensures
        command_as(
            r,
            command_of(
                strings(args@),
                option_texts(
                    parsed_values(names_of(send_option_table()), strings(args@).skip(4)),
                ),
            ),
        ),
{
    if args.len() < 4 {
        return command_from(args, None);
    }
    let words = slice_subrange(args.as_slice(), 4, args.len());
    assert(strings(words@) =~= strings(args@).skip(4));
    let found = read_options(words);
    command_from(args, found)
}

// ---------------------------------------------------------------------------
// The usage text
// ---------------------------------------------------------------------------

/// The brief that heads the usage text: the two shapes of an invocation.
pub open spec fn brief_text(program: Seq<char>) -> Seq<char> {
    "usage:  "@ + program + " send <MCAST IP> <PORT> [options]\n        "@ + program
        + " recv <MCAST IP> <PORT>"@
}

/// The brief that heads the usage text.
pub fn brief(program: &str) -> (s: String)
    ensures
        s@ == brief_text(program@),
{
    let mut out: Vec<char> = Vec::new();
    push_str(&mut out, "usage:  ");
    push_str(&mut out, program);
    push_str(&mut out, " send <MCAST IP> <PORT> [options]\n        ");
    push_str(&mut out, program);
    push_str(&mut out, " recv <MCAST IP> <PORT>");
    assert(out@ =~= brief_text(program@));
    string_of(out.as_slice())
}

/// The usage text for a program of the given name: the brief, and under it the
/// options of the send command as `getopts` renders them.
pub fn usage_text(program: &str) -> (s: String)
    ensures
        s@ == usage_rendering(send_option_table(), brief_text(program@)),
{
    let options = send_options();
    let brief = brief(program);
    render_usage(&options, brief.as_str())
}

// ---------------------------------------------------------------------------
// The end of a run
// ---------------------------------------------------------------------------

/// How a run ended.
#[derive(Clone, Copy, Debug, PartialEq, Eq, Structural)]
pub enum Ending {
    /// All datagrams are out, or the receiver has left its group or was told by
    /// an empty datagram to stop.
    Completed,
    /// The invocation was malformed, and the usage text was printed.
    Usage,
    /// The run failed.
    Failed(Error),
}

/// The exit status of a run that went well.
pub const EXIT_SUCCESS: i32 = 0;

/// The exit status of a run that failed or was invoked wrongly.
pub const EXIT_FAILURE: i32 = 1;

/// The exit status of the process: success for a run that went well, and one and
/// the same failure status for a malformed invocation and for every failure.
pub fn exit_status(ending: Ending) -> (status: i32)
    ensures
        status == if ending is Completed {
            EXIT_SUCCESS
        } else {
            EXIT_FAILURE
        },
{
    match ending {
        Ending::Completed => EXIT_SUCCESS,
        Ending::Usage => EXIT_FAILURE,
        Ending::Failed(_) => EXIT_FAILURE,
    }
}

} // verus!
