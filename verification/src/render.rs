//! The text that is printed for a search: a banner, a header for each file of
//! a directory, and one line for each match.

use vstd::prelude::*;
use vstd::string::*;
use crate::matcher::{views, LineMatch, SearchResult};
use crate::text::push_char;

verus! {

/// The character of one decimal digit.
pub open spec fn digit(d: nat) -> char {
    if d == 0 {
        '0'
    } else if d == 1 {
        '1'
    } else if d == 2 {
        '2'
    } else if d == 3 {
        '3'
    } else if d == 4 {
        '4'
    } else if d == 5 {
        '5'
    } else if d == 6 {
        '6'
    } else if d == 7 {
        '7'
    } else if d == 8 {
        '8'
    } else {
        '9'
    }
}

/// The decimal numeral of `n`, without sign or leading zeros.
pub open spec fn decimal(n: nat) -> Seq<char>
    decreases n,
{
    if n < 10 {
        seq![digit(n)]
    } else {
        decimal(n / 10).push(digit(n % 10))
    }
}

/// The line printed for one match: its number, one space, its text, and a
/// line feed.
pub open spec fn match_line(m: LineMatch) -> Seq<char> {
    decimal(m.number) + seq![' '] + m.text + seq!['\n']
}

/// The lines printed for a sequence of matches, one after the other.
pub open spec fn match_lines(matches: Seq<LineMatch>) -> Seq<char>
    decreases matches.len(),
{
    if matches.len() == 0 {
        Seq::empty()
    } else {
        match_lines(matches.drop_last()) + match_line(matches.last())
    }
}

/// What is printed before the matches of one file of a directory: an empty
/// line, then `Filename: ` and the file's path as the caller has quoted it.
pub open spec fn header_of(quoted_path: Seq<char>) -> Seq<char> {
    seq!['\n'] + "Filename: "@ + quoted_path + seq!['\n']
}

/// What is printed first: the query and the path that is searched.
pub open spec fn banner_of(query: Seq<char>, path: Seq<char>) -> Seq<char> {
    "Searching for "@ + query + " in "@ + path + seq!['\n']
}

fn digit_char(d: usize) -> (c: char)
    requires
        d < 10,
    ensures
        c == digit(d as nat),
{
    if d == 0 {
        '0'
    } else if d == 1 {
        '1'
    } else if d == 2 {
        '2'
    } else if d == 3 {
        '3'
    } else if d == 4 {
        '4'
    } else if d == 5 {
        '5'
    } else if d == 6 {
        '6'
    } else if d == 7 {
        '7'
    } else if d == 8 {
        '8'
    } else {
        '9'
    }
}

/// Appends the decimal numeral of `n` to `out`.
pub fn push_decimal(out: &mut String, n: usize)
    ensures
        final(out)@ == old(out)@ + decimal(n as nat),
    decreases n,
{
    if n >= 10 {
        push_decimal(out, n / 10);
    }
    push_char(out, digit_char(n % 10));
    assert(final(out)@ =~= old(out)@ + decimal(n as nat));
}

/// Appends the line printed for `result` to `out`.
pub fn push_match_line(out: &mut String, result: &SearchResult)
    ensures
        final(out)@ == old(out)@ + match_line(result@),
{
    push_decimal(out, result.line_number);
    push_char(out, ' ');
    out.append(result.line_contents.as_str());
    push_char(out, '\n');
    assert(final(out)@ =~= old(out)@ + match_line(result@));
}

/// The text printed for the matches of one file: for each result, in order,
/// its line number, a space, the line, and a line feed.
pub fn render_results(results: &Vec<SearchResult>) -> (out: String)
    ensures
        out@ == match_lines(views(results@)),
{
    let mut out = String::new();
    let mut i: usize = 0;
    while i < results.len()
        invariant
            i <= results.len(),
            out@ == match_lines(views(results@).take(i as int)),
        decreases results.len() - i,
    {
        push_match_line(&mut out, &results[i]);
        i += 1;
        proof {
            let upto = views(results@).take(i as int);
            assert(upto.drop_last() =~= views(results@).take(i - 1));
            assert(upto.last() == results@[i - 1]@);
        }
    }
    assert(views(results@).take(i as int) =~= views(results@));
    out
}

/// The header printed before the matches of one file of a directory.
/// `quoted_path` is the file's path as it is to be shown, quotation marks
/// included.
pub fn file_header(quoted_path: &str) -> (out: String)
    ensures
        out@ == header_of(quoted_path@),
{
    let mut out = String::new();
    push_char(&mut out, '\n');
    out.append("Filename: ");
    out.append(quoted_path);
    push_char(&mut out, '\n');
    assert(out@ =~= header_of(quoted_path@));
    out
}

/// The first line printed: `Searching for <query> in <path>`.
pub fn search_banner(query: &str, path: &str) -> (out: String)
    ensures
        out@ == banner_of(query@, path@),
{
    let mut out = String::new();
    out.append("Searching for ");
    out.append(query);
    out.append(" in ");
    out.append(path);
    push_char(&mut out, '\n');
    assert(out@ =~= banner_of(query@, path@));
    out
}

} // verus!
