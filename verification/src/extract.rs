//! Finding UUIDs in the device lines of a listing.

use crate::pattern::{find_first, first_match};
use crate::text::{chars_of, contains_chars, occurs_in};
use regex::Regex;
use vstd::prelude::*;

verus! {

/// A match as a sequence of entries: one where there is a match, none where
/// there is none.
pub open spec fn entry(m: Option<Seq<char>>) -> Seq<Seq<char>> {
    match m {
        Some(text) => seq![text],
        None => Seq::empty(),
    }
}

/// What the two searches of one line add to the list of all UUIDs: the match
/// of the long pattern, then the match of the short pattern, each where there
/// is one.
pub open spec fn entries(long: Option<Seq<char>>, short: Option<Seq<char>>) -> Seq<Seq<char>> {
    entry(long) + entry(short)
}

/// What one line adds to the list of all UUIDs.
pub open spec fn line_uuids(line: Seq<char>, lr: Regex, sr: Regex) -> Seq<Seq<char>> {
    entries(first_match(lr, line), first_match(sr, line))
}

/// `line_uuids` as a function of the line alone.
pub open spec fn uuids_per_line(lr: Regex, sr: Regex) -> spec_fn(Seq<char>) -> Seq<Seq<char>> {
    |line: Seq<char>| line_uuids(line, lr, sr)
}

/// The UUIDs of all lines, in the order of the lines.
pub open spec fn all_uuids(lines: Seq<Seq<char>>, lr: Regex, sr: Regex) -> Seq<Seq<char>> {
    lines.flat_map(uuids_per_line(lr, sr))
}

/// Whether `re` matches somewhere in the line, as a function of the line.
pub open spec fn has_match(re: Regex) -> spec_fn(Seq<char>) -> bool {
    |line: Seq<char>| first_match(re, line) is Some
}

/// The number of lines in which `re` matches.
pub open spec fn matching_lines(lines: Seq<Seq<char>>, re: Regex) -> nat {
    lines.filter(has_match(re)).len()
}

/// The list of all UUIDs has one entry for each line that the long pattern
/// matches and one for each line that the short pattern matches.
pub proof fn lemma_all_uuids_len(lines: Seq<Seq<char>>, lr: Regex, sr: Regex)
    ensures
        all_uuids(lines, lr, sr).len() == matching_lines(lines, lr) + matching_lines(lines, sr),
    decreases lines.len(),
{
    if lines.len() == 0 {
        reveal(Seq::filter);
        assert(lines.map_values(uuids_per_line(lr, sr)) =~= Seq::<Seq<Seq<char>>>::empty());
    } else {
        let front = lines.drop_last();
        let line = lines.last();
        assert(lines == front.push(line));
        lemma_all_uuids_len(front, lr, sr);
        front.lemma_flat_map_push(uuids_per_line(lr, sr), line);
        front.lemma_filter_len_push(has_match(lr), line);
        front.lemma_filter_len_push(has_match(sr), line);
    }
}

/// Appends to `uuids` what the two searches of one line found: the match of
/// the long pattern, then the match of the short pattern.
pub fn push_line_uuids(uuids: &mut Vec<String>, long: Option<String>, short: Option<String>)
    ensures
        final(uuids).deep_view() == old(uuids).deep_view() + entries(
            long.deep_view(),
            short.deep_view(),
        ),
{
    let ghost before = uuids.deep_view();
    match long {
        Some(uuid) => {
            uuids.push(uuid);
        },
        None => {},
    }
    assert(uuids.deep_view() == before + entry(long.deep_view()));
    let ghost between = uuids.deep_view();
    match short {
        Some(uuid) => {
            uuids.push(uuid);
        },
        None => {},
    }
    assert(uuids.deep_view() == between + entry(short.deep_view()));
}

/// Collects the UUIDs of all lines. Each line is searched for the long
/// pattern and, whatever came of that, for the short pattern; the matches are
/// listed in the order of the lines, the long one before the short one.
pub fn get_all_uuids(device_vec: &Vec<String>, lr: Regex, sr: Regex) -> (uuids: Vec<String>)
    ensures
        uuids.deep_view() == all_uuids(device_vec.deep_view(), lr, sr),
        uuids.len() == matching_lines(device_vec.deep_view(), lr) + matching_lines(
            device_vec.deep_view(),
            sr,
        ),
{
    let ghost lines = device_vec.deep_view();
    let mut uuids: Vec<String> = Vec::new();
    let n = device_vec.len();
    let mut i: usize = 0;
    assert(lines.take(0).map_values(uuids_per_line(lr, sr)) =~= Seq::<Seq<Seq<char>>>::empty());
    while i < n
        invariant
            n == device_vec.len(),
            lines == device_vec.deep_view(),
            0 <= i <= n,
            uuids.deep_view() == all_uuids(lines.take(i as int), lr, sr),
        decreases n - i,
    {
        let device = device_vec[i].as_str();
        let long = find_first(&lr, device);
        let short = find_first(&sr, device);
        push_line_uuids(&mut uuids, long, short);
        proof {
            lines.lemma_flat_map_take_append(uuids_per_line(lr, sr), i as int);
        }
        i += 1;
    }
    proof {
        assert(lines.take(n as int) == lines);
        lemma_all_uuids_len(lines, lr, sr);
    }
    uuids
}

/// What the two searches of one line offer to a lookup: the match of the
/// long pattern, or, where the long pattern does not match, that of the short
/// pattern.
pub open spec fn offered(long: Option<Seq<char>>, short: Option<Seq<char>>) -> Option<Seq<char>> {
    match long {
        Some(m) => Some(m),
        None => short,
    }
}

/// The match that a line offers to a lookup.
pub open spec fn line_uuid(line: Seq<char>, lr: Regex, sr: Regex) -> Option<Seq<char>> {
    offered(first_match(lr, line), first_match(sr, line))
}

/// The result of a lookup after a line that names the device: what the line
/// offers, or, where it offers nothing, the result so far.
pub open spec fn updated(
    current: Option<Seq<char>>,
    long: Option<Seq<char>>,
    short: Option<Seq<char>>,
) -> Option<Seq<char>> {
    match offered(long, short) {
        Some(m) => Some(m),
        None => current,
    }
}

/// The line names the device and offers a match.
pub open spec fn answers(name: Seq<char>, line: Seq<char>, lr: Regex, sr: Regex) -> bool {
    occurs_in(name, line) && line_uuid(line, lr, sr) is Some
}

/// The UUID of the device `name`: the match offered by the last line that
/// names the device and offers one, or `None` where no line does.
pub open spec fn uuid_of(name: Seq<char>, lines: Seq<Seq<char>>, lr: Regex, sr: Regex) -> Option<
    Seq<char>,
>
    decreases lines.len(),
{
    if lines.len() == 0 {
        None
    } else if answers(name, lines.last(), lr, sr) {
        line_uuid(lines.last(), lr, sr)
    } else {
        uuid_of(name, lines.drop_last(), lr, sr)
    }
}

/// A lookup finds a UUID exactly where some line names the device and offers
/// a match.
pub proof fn lemma_uuid_of_found(name: Seq<char>, lines: Seq<Seq<char>>, lr: Regex, sr: Regex)
    ensures
        uuid_of(name, lines, lr, sr) is Some <==> exists|i: int|
            0 <= i < lines.len() && answers(name, #[trigger] lines[i], lr, sr),
    decreases lines.len(),
{
    if lines.len() > 0 {
        let front = lines.drop_last();
        lemma_uuid_of_found(name, front, lr, sr);
        if answers(name, lines.last(), lr, sr) {
            assert(answers(name, lines[lines.len() - 1], lr, sr));
        } else if uuid_of(name, front, lr, sr) is Some {
            let i = choose|i: int| 0 <= i < front.len() && answers(name, #[trigger] front[i], lr, sr);
            assert(answers(name, lines[i], lr, sr));
        } else {
            assert forall|i: int| 0 <= i < lines.len() implies !answers(
                name,
                #[trigger] lines[i],
                lr,
                sr,
            ) by {
                if i < front.len() {
                    assert(front[i] == lines[i]);
                }
            }
        }
    }
}

/// The last line that holds `name` as a substring, or `None` where no line
/// holds it.
pub open spec fn last_line_with(name: Seq<char>, lines: Seq<Seq<char>>) -> Option<Seq<char>>
    decreases lines.len(),
{
    if lines.len() == 0 {
        None
    } else if occurs_in(name, lines.last()) {
        Some(lines.last())
    } else {
        last_line_with(name, lines.drop_last())
    }
}

/// A lookup gives what the last line that names the device offers: its match
/// of the long pattern, else its match of the short pattern, and nothing
/// where no line names the device. This holds where that last line offers a
/// match, or where no line that names the device offers one. Where the last
/// such line offers none and an earlier one does, the lookup keeps the
/// earlier match.
pub proof fn lemma_uuid_of_last_line(name: Seq<char>, lines: Seq<Seq<char>>, lr: Regex, sr: Regex)
    requires
        last_line_with(name, lines) matches Some(line) ==> line_uuid(line, lr, sr) is Some
            || forall|i: int| 0 <= i < lines.len() ==> !answers(name, #[trigger] lines[i], lr, sr),
    ensures
        uuid_of(name, lines, lr, sr) == match last_line_with(name, lines) {
            Some(line) => line_uuid(line, lr, sr),
            None => None,
        },
    decreases lines.len(),
{
    if lines.len() > 0 {
        let front = lines.drop_last();
        let last = lines.last();
        if occurs_in(name, last) {
            if line_uuid(last, lr, sr) is None {
                lemma_uuid_of_found(name, lines, lr, sr);
            }
        } else {
            assert(forall|i: int| 0 <= i < front.len() ==> front[i] == lines[i]);
            lemma_uuid_of_last_line(name, front, lr, sr);
        }
    }
}

/// The result of a lookup after a line that names the device, from the
/// result so far and what the two searches of the line found.
pub fn update_uuid(current: Option<String>, long: Option<String>, short: Option<String>) -> (uuid:
    Option<String>)
    ensures
        uuid.deep_view() == updated(current.deep_view(), long.deep_view(), short.deep_view()),
{
    match long {
        Some(u) => Some(u),
        None => match short {
            Some(u) => Some(u),
            None => current,
        },
    }
}

/// Looks up the UUID of the device `device_name`. Every line that holds the
/// name as a substring is searched; the match of the long pattern counts, and
/// that of the short pattern only where the long pattern does not match. A
/// later match replaces an earlier one, so the last such line with a match
/// decides. `None` says that no line that holds the name matched; `Some` of
/// an empty text says that a pattern matched the empty text.
pub fn get_uuid_of(device_name: &str, device_vec: &Vec<String>, lr: Regex, sr: Regex) -> (uuid:
    Option<String>)
    ensures
        uuid.deep_view() == uuid_of(device_name@, device_vec.deep_view(), lr, sr),
        uuid is Some <==> exists|i: int|
            0 <= i < device_vec.len() && answers(
                device_name@,
                #[trigger] device_vec.deep_view()[i],
                lr,
                sr,
            ),
{
    let ghost lines = device_vec.deep_view();
    let name = chars_of(device_name);
    let mut uuid: Option<String> = None;
    let n = device_vec.len();
    let mut i: usize = 0;
    while i < n
        invariant
            n == device_vec.len(),
            lines == device_vec.deep_view(),
            name@ == device_name@,
            0 <= i <= n,
            uuid.deep_view() == uuid_of(device_name@, lines.take(i as int), lr, sr),
        decreases n - i,
    {
        let device = device_vec[i].as_str();
        proof {
            assert(lines.take(i + 1).last() == lines[i as int]);
            assert(lines.take(i + 1).drop_last() == lines.take(i as int));
        }
        let text = chars_of(device);
        if contains_chars(&text, &name) {
            let long = find_first(&lr, device);
            let short = find_first(&sr, device);
            uuid = update_uuid(uuid, long, short);
        }
        i += 1;
    }
    proof {
        assert(lines.take(n as int) == lines);
        lemma_uuid_of_found(device_name@, lines, lr, sr);
    }
    uuid
}

} // verus!
