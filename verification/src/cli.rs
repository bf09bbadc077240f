//! What an invocation does: which query its arguments make, and what is
//! printed in answer.

use crate::extract::{all_uuids, get_all_uuids, get_uuid_of, uuid_of, uuids_per_line};
use crate::lines::lines_of;
use crate::listing::{data_to_vec, device_lines};
use regex::Regex;
use vstd::prelude::*;

verus! {

/// The first and the last line of the usage banner.
pub const BANNER_RULE: &'static str =
    "############################################################################";

/// The second line of the usage banner.
pub const BANNER_TITLE: &'static str =
    "#    uuidof usage:                                                         #";

/// The third line of the usage banner.
pub const BANNER_LOOKUP: &'static str =
    "#    [uuidof sda1] returns the UUID assocaited with the passed drive name. #";

/// The fourth line of the usage banner.
pub const BANNER_LIST: &'static str =
    "#    [uuidof] returns all UUIDs                                            #";

/// The fifth line of the usage banner.
pub const BANNER_HELP: &'static str =
    "#    [uuidof help or uuidof h] prints this help message.                   #";

/// What an invocation asks of the device listing.
#[derive(Clone, Debug)]
pub enum Query {
    /// The UUIDs of all devices.
    All,
    /// The UUID of the device with this name.
    Device(String),
}

/// What an invocation does.
#[derive(Clone, Debug)]
pub enum Action {
    /// Fetch the device listing and print the answer to the query.
    Fetch(Query),
    /// Print these lines; the device listing is not fetched.
    Print(Vec<String>),
}

/// The lines of the usage banner.
pub open spec fn banner() -> Seq<Seq<char>> {
    seq![
        BANNER_RULE@,
        BANNER_TITLE@,
        BANNER_LOOKUP@,
        BANNER_LIST@,
        BANNER_HELP@,
        BANNER_RULE@,
    ]
}

/// The argument asks for the usage banner.
pub open spec fn is_help(arg: Seq<char>) -> bool {
    arg == "help"@ || arg == "h"@
}

/// A found UUID as the line that a lookup prints: the UUID, or the empty
/// line where none was found.
pub open spec fn lookup_line(uuid: Option<Seq<char>>) -> Seq<char> {
    match uuid {
        Some(text) => text,
        None => Seq::empty(),
    }
}

/// The lines printed in answer to a query on a listing.
pub open spec fn output(query: Query, listing: Seq<char>, lr: Regex, sr: Regex) -> Seq<Seq<char>> {
    match query {
        Query::All => all_uuids(device_lines(listing), lr, sr),
        Query::Device(name) => seq![lookup_line(uuid_of(name@, device_lines(listing), lr, sr))],
    }
}

/// The line that a lookup prints for what it found.
pub fn printed_line(uuid: Option<String>) -> (line: String)
    ensures
        line@ == lookup_line(uuid.deep_view()),
{
    match uuid {
        Some(text) => text,
        None => String::new(),
    }
}

/// The usage banner, line by line.
pub fn help_banner() -> (lines: Vec<String>)
    ensures
        lines.deep_view() == banner(),
{
    let mut lines: Vec<String> = Vec::new();
    lines.push(BANNER_RULE.to_owned());
    lines.push(BANNER_TITLE.to_owned());
    lines.push(BANNER_LOOKUP.to_owned());
    lines.push(BANNER_LIST.to_owned());
    lines.push(BANNER_HELP.to_owned());
    lines.push(BANNER_RULE.to_owned());
    assert(lines.deep_view() =~= banner());
    lines
}

/// Whether the argument asks for the usage banner.
fn asks_help(arg: &String) -> (r: bool)
    ensures
        r == is_help(arg@),
{
    let help = "help".to_owned();
    let h = "h".to_owned();
    *arg == help || *arg == h
}

/// Decides what an invocation does from its arguments, the first of which is
/// the program's name. With no argument after it, all UUIDs are asked for.
/// With one, the usage banner is printed where it is `help` or `h`, and the
/// UUID of the device of that name is asked for otherwise. With any other
/// number of arguments nothing is printed.
pub fn plan(args: &Vec<String>) -> (action: Action)
    ensures
        match action {
            Action::Fetch(Query::All) => args.len() == 1,
            Action::Fetch(Query::Device(name)) => args.len() == 2 && !is_help(args[1]@) && name@
                == args[1]@,
            Action::Print(lines) => if args.len() == 2 {
                is_help(args[1]@) && lines.deep_view() == banner()
            } else {
                args.len() != 1 && lines.len() == 0
            },
        },
{
    if args.len() == 1 {
        Action::Fetch(Query::All)
    } else if args.len() == 2 {
        if asks_help(&args[1]) {
            Action::Print(help_banner())
        } else {
            Action::Fetch(Query::Device(args[1].clone()))
        }
    } else {
        Action::Print(Vec::new())
    }
}

/// The lines to print in answer to a query, from the text of the device
/// listing. For all devices these are the UUIDs found in the device lines,
/// one per line. For one device it is a single line: the UUID found for it,
/// or an empty line where none was found.
pub fn answer(query: &Query, listing: String, lr: Regex, sr: Regex) -> (out: Vec<String>)
    ensures
        out.deep_view() == output(*query, listing@, lr, sr),
{
    let device_vec = data_to_vec(listing);
    match query {
        Query::All => get_all_uuids(&device_vec, lr, sr),
        Query::Device(name) => {
            let line = printed_line(get_uuid_of(name.as_str(), &device_vec, lr, sr));
            let mut out: Vec<String> = Vec::new();
            out.push(line);
            assert(out.deep_view() =~= output(*query, listing@, lr, sr));
            out
        },
    }
}

/// A listing without device lines, that is an empty one or one of a single
/// line, has no UUIDs to list.
pub proof fn lemma_no_devices(listing: Seq<char>, lr: Regex, sr: Regex)
    requires
        lines_of(listing).len() <= 1,
    ensures
        output(Query::All, listing, lr, sr) == Seq::<Seq<char>>::empty(),
{
    assert(device_lines(listing) =~= Seq::<Seq<char>>::empty());
    assert(device_lines(listing).map_values(uuids_per_line(lr, sr)) =~= Seq::<
        Seq<Seq<char>>,
    >::empty());
}

/// Answering one query on one listing with the same patterns again gives the
/// same lines in the same order: two outputs that each meet the contract of
/// `answer` are equal.
pub proof fn lemma_answer_repeats(
    query: Query,
    listing: Seq<char>,
    lr: Regex,
    sr: Regex,
    first: Seq<Seq<char>>,
    second: Seq<Seq<char>>,
)
    requires
        first == output(query, listing, lr, sr),
        second == output(query, listing, lr, sr),
    ensures
        first == second,
{
}

} // verus!
