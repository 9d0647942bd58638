//! The lines of a text that hold a query.

use vstd::prelude::*;
use crate::lines::{after_first_line, first_line, line_feed_from, lines_of};
use crate::text::{chars_of, string_between};

verus! {

/// One matching line: its number, counted from 1, and its full text.
#[derive(Debug)]
pub struct SearchResult {
    pub line_number: usize,
    pub line_contents: String,
}

impl SearchResult {
    /// Lines are counted from 1, so no result bears the number 0.
    pub open spec fn well_formed(&self) -> bool {
        self.line_number >= 1
    }
}

/// What a `SearchResult` stands for.
pub struct LineMatch {
    pub number: nat,
    pub text: Seq<char>,
}

impl View for SearchResult {
    type V = LineMatch;

    open spec fn view(&self) -> LineMatch {
        LineMatch { number: self.line_number as nat, text: self.line_contents@ }
    }
}

/// The results of a search, each as what it stands for.
pub open spec fn views(results: Seq<SearchResult>) -> Seq<LineMatch> {
    results.map_values(|r: SearchResult| r@)
}

/// `query` stands in `line` at position `at`, character for character.
pub open spec fn occurs_at(query: Seq<char>, line: Seq<char>, at: int) -> bool {
    &&& 0 <= at
    &&& at + query.len() <= line.len()
    &&& line.subrange(at, at + query.len()) == query
}

/// `query` stands somewhere in `line` as a contiguous run of characters.
pub open spec fn occurs_in(query: Seq<char>, line: Seq<char>) -> bool {
    exists|at: int| occurs_at(query, line, at)
}

/// The matches among `lines`: for each line that holds `query`, in order, its
/// position counted from 1 and the line itself.
pub open spec fn matches_in(lines: Seq<Seq<char>>, query: Seq<char>) -> Seq<LineMatch>
    decreases lines.len(),
{
    if lines.len() == 0 {
        Seq::empty()
    } else {
        let before = matches_in(lines.drop_last(), query);
        if occurs_in(query, lines.last()) {
            before.push(LineMatch { number: lines.len(), text: lines.last() })
        } else {
            before
        }
    }
}

/// The matches of `query` in `text`, line by line.
pub open spec fn matches_of(text: Seq<char>, query: Seq<char>) -> Seq<LineMatch> {
    matches_in(lines_of(text), query)
}

/// The test "this line holds `query`", as a predicate on lines.
pub open spec fn holds(query: Seq<char>) -> spec_fn(Seq<char>) -> bool {
    |line: Seq<char>| occurs_in(query, line)
}

/// Every match bears the number of a line that exists, carries that line
/// unchanged, and that line holds the query.
pub proof fn lemma_matches_are_lines(lines: Seq<Seq<char>>, query: Seq<char>)
    ensures
        forall|i: int|
            0 <= i < matches_in(lines, query).len() ==> {
                let m = #[trigger] matches_in(lines, query)[i];
                &&& 1 <= m.number <= lines.len()
                &&& m.text == lines[m.number - 1]
                &&& occurs_in(query, m.text)
            },
    decreases lines.len(),
{
    if lines.len() > 0 {
        let before = matches_in(lines.drop_last(), query);
        let all = matches_in(lines, query);
        lemma_matches_are_lines(lines.drop_last(), query);
        assert forall|i: int| 0 <= i < all.len() implies {
            let m = #[trigger] all[i];
            &&& 1 <= m.number <= lines.len()
            &&& m.text == lines[m.number - 1]
            &&& occurs_in(query, m.text)
        } by {
            if i < before.len() {
                assert(all[i] == before[i]);
                assert(lines.drop_last()[before[i].number - 1] == lines[before[i].number - 1]);
            }
        }
    }
}

/// There are as many matches as there are lines that hold the query.
pub proof fn lemma_match_count(lines: Seq<Seq<char>>, query: Seq<char>)
    ensures
        matches_in(lines, query).len() == lines.filter(holds(query)).len(),
    decreases lines.len(),
{
    reveal(Seq::filter);
    if lines.len() > 0 {
        lemma_match_count(lines.drop_last(), query);
    }
}

/// The matches come in the order of their lines: later matches bear larger
/// line numbers, so no line is reported twice.
pub proof fn lemma_matches_ascend(lines: Seq<Seq<char>>, query: Seq<char>)
    ensures
        forall|i: int, j: int|
            0 <= i < j < matches_in(lines, query).len() ==> (#[trigger] matches_in(
                lines,
                query,
            )[i]).number < (#[trigger] matches_in(lines, query)[j]).number,
    decreases lines.len(),
{
    if lines.len() > 0 {
        let before = matches_in(lines.drop_last(), query);
        let all = matches_in(lines, query);
        lemma_matches_ascend(lines.drop_last(), query);
        lemma_matches_are_lines(lines.drop_last(), query);
        assert forall|i: int, j: int| 0 <= i < j < all.len() implies (#[trigger] all[i]).number
            < (#[trigger] all[j]).number by {
            assert(all[i] == before[i]);
            if j < before.len() {
                assert(all[j] == before[j]);
            }
        }
    }
}

/// No line that holds the query is passed over: line `k`, counted from 0, is
/// among the matches under the number `k + 1`.
pub proof fn lemma_match_found(lines: Seq<Seq<char>>, query: Seq<char>, k: int)
    requires
        0 <= k < lines.len(),
        occurs_in(query, lines[k]),
    ensures
        exists|i: int|
            0 <= i < matches_in(lines, query).len() && (#[trigger] matches_in(
                lines,
                query,
            )[i]).number == k + 1,
    decreases lines.len(),
{
    let all = matches_in(lines, query);
    if k == lines.len() - 1 {
        assert(all[all.len() - 1].number == k + 1);
    } else {
        lemma_match_found(lines.drop_last(), query, k);
        let i = choose|i: int|
            0 <= i < matches_in(lines.drop_last(), query).len() && (#[trigger] matches_in(
                lines.drop_last(),
                query,
            )[i]).number == k + 1;
        assert(all[i].number == k + 1);
    }
}

/// The empty query stands in every line, so every line is a match.
pub proof fn lemma_empty_query(lines: Seq<Seq<char>>)
    ensures
        forall|line: Seq<char>| occurs_in(Seq::<char>::empty(), line),
        matches_in(lines, Seq::<char>::empty()).len() == lines.len(),
    decreases lines.len(),
{
    assert forall|line: Seq<char>| occurs_in(Seq::<char>::empty(), line) by {
        assert(line.subrange(0, 0) =~= Seq::<char>::empty());
        assert(occurs_at(Seq::<char>::empty(), line, 0));
    }
    if lines.len() > 0 {
        lemma_empty_query(lines.drop_last());
    }
}

/// Whether `query` stands in `text[from..to]` at offset `at - from`.
fn occurs_here(
    text: &Vec<char>,
    from: usize,
    to: usize,
    at: usize,
    query: &Vec<char>,
) -> (found: bool)
    requires
        from <= at,
        at + query.len() <= to <= text.len(),
    ensures
        found == occurs_at(query@, text@.subrange(from as int, to as int), at - from),
{
    let ghost line = text@.subrange(from as int, to as int);
    let mut k: usize = 0;
    while k < query.len()
        invariant
            from <= at,
            at + query.len() <= to <= text.len(),
            k <= query.len(),
            line == text@.subrange(from as int, to as int),
            forall|j: int| 0 <= j < k ==> text@[at + j] == query@[j],
        decreases query.len() - k,
    {
        if text[at + k] != query[k] {
            proof {
                let run = line.subrange(at - from, at - from + query.len());
                assert(run[k as int] == text@[at + k]);
            }
            return false;
        }
        k += 1;
    }
    assert(line.subrange(at - from, at - from + query.len()) =~= query@);
    true
}

/// Whether `query` stands somewhere in `text[from..to]`.
pub fn occurs_between(
    text: &Vec<char>,
    from: usize,
    to: usize,
    query: &Vec<char>,
) -> (found: bool)
    requires
        from <= to <= text.len(),
    ensures
        found == occurs_in(query@, text@.subrange(from as int, to as int)),
{
    let ghost line = text@.subrange(from as int, to as int);
    if query.len() > to - from {
        return false;
    }
    let last: usize = to - query.len();
    let mut at: usize = from;
    loop
        invariant
            from <= at <= last,
            last + query.len() == to,
            to <= text.len(),
            line == text@.subrange(from as int, to as int),
            forall|p: int| 0 <= p < at - from ==> !occurs_at(query@, line, p),
        decreases last - at,
    {
        if occurs_here(text, from, to, at, query) {
            return true;
        }
        if at == last {
            return false;
        }
        at += 1;
    }
}

/// Finds the lines of `contents` that hold `query`. Each result carries the
/// number of its line, counted from 1, and the line as it stands in
/// `contents`; the results come in the order of the lines. The comparison is
/// exact, character for character, so the empty query is held by every line.
pub fn find_in_contents(contents: &str, query: &str) -> (results: Vec<SearchResult>)
    ensures
        views(results@) == matches_of(contents@, query@),
        forall|i: int|
            0 <= i < results.len() ==> {
                let found = #[trigger] results[i];
                &&& found.well_formed()
                &&& found.line_number <= lines_of(contents@).len()
                &&& found.line_contents@ == lines_of(contents@)[found.line_number - 1]
            },
        results.len() == lines_of(contents@).filter(holds(query@)).len(),
{
    let text = chars_of(contents);
    let needle = chars_of(query);
    let n = text.len();
    let mut results: Vec<SearchResult> = Vec::new();
    let mut pos: usize = 0;
    let mut count: usize = 0;
    let ghost mut done: Seq<Seq<char>> = Seq::empty();
    assert(text@.skip(0) =~= text@);
    assert(views(results@) =~= matches_in(done, needle@));
    while pos < n
        invariant
            n == text.len(),
            pos <= n,
            count <= pos,
            count == done.len(),
            lines_of(text@) =~= done + lines_of(text@.skip(pos as int)),
            views(results@) == matches_in(done, needle@),
        decreases n - pos,
    {
        let ghost rest = text@.skip(pos as int);
        let end = line_feed_from(&text, pos);
        let next = if end < n {
            end + 1
        } else {
            n
        };
        let ghost line = text@.subrange(pos as int, end as int);
        count += 1;
        proof {
            assert(first_line(rest) =~= line);
            assert(after_first_line(rest) =~= text@.skip(next as int));
            assert(done + (seq![line] + lines_of(text@.skip(next as int))) =~= done.push(line)
                + lines_of(text@.skip(next as int)));
            assert(done.push(line).drop_last() =~= done);
        }
        if occurs_between(&text, pos, end, &needle) {
            let ghost before = results@;
            let found = SearchResult {
                line_number: count,
                line_contents: string_between(&text, pos, end),
            };
            results.push(found);
            assert(views(results@) =~= views(before).push(found@));
        }
        proof {
            done = done.push(line);
        }
        pos = next;
    }
    proof {
        assert(lines_of(text@) =~= done);
        lemma_matches_are_lines(done, needle@);
        lemma_match_count(done, needle@);
        assert forall|i: int| 0 <= i < results.len() implies {
            let found = #[trigger] results[i];
            &&& 1 <= found.line_number <= done.len()
            &&& found.line_contents@ == done[found.line_number - 1]
        } by {
            assert(views(results@)[i] == results[i]@);
        }
    }
    results
}

} // verus!
