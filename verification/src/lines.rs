//! The lines of a text.
//!
//! A line ends at a line feed, or at the end of the text when the last line
//! has no line feed. The line feed is the only delimiter and is not part of
//! the line; every other character, a carriage return too, stays in its line
//! as it stands. A text that ends in a line feed has no empty line after it,
//! and the empty text has no lines.

use vstd::prelude::*;

verus! {

/// How many characters stand before the first line feed of `s`; the length of
/// `s` when it holds none.
pub open spec fn line_end(s: Seq<char>) -> nat
    decreases s.len(),
{
    if s.len() == 0 || s[0] == '\n' {
        0
    } else {
        1 + line_end(s.drop_first())
    }
}

/// The first line of a non-empty text: all that stands before its first line
/// feed.
pub open spec fn first_line(text: Seq<char>) -> Seq<char> {
    text.take(line_end(text) as int)
}

/// What follows the first line and its line feed.
pub open spec fn after_first_line(text: Seq<char>) -> Seq<char> {
    let end = line_end(text) as int;
    if end < text.len() {
        text.skip(end + 1)
    } else {
        Seq::empty()
    }
}

/// The lines of `text`, in order.
pub open spec fn lines_of(text: Seq<char>) -> Seq<Seq<char>>
    decreases text.len(),
{
    if text.len() == 0 {
        Seq::empty()
    } else {
        seq![first_line(text)] + lines_of(after_first_line(text))
    }
}

/// `line_end` is the one position up to which no line feed stands and at
/// which the text ends or a line feed stands.
pub proof fn lemma_line_end_is(s: Seq<char>, end: int)
    requires
        0 <= end <= s.len(),
        forall|j: int| 0 <= j < end ==> s[j] != '\n',
        end < s.len() ==> s[end] == '\n',
    ensures
        line_end(s) == end,
    decreases s.len(),
{
    if end > 0 {
        let rest = s.drop_first();
        assert forall|j: int| 0 <= j < end - 1 implies rest[j] != '\n' by {
            assert(rest[j] == s[j + 1]);
        }
        lemma_line_end_is(rest, end - 1);
    }
}

/// `line_end` stops within the text, at the first line feed if there is one:
/// no line feed stands before it.
pub proof fn lemma_line_end_stops(s: Seq<char>)
    ensures
        line_end(s) <= s.len(),
        forall|j: int| 0 <= j < line_end(s) ==> s[j] != '\n',
        line_end(s) < s.len() ==> s[line_end(s) as int] == '\n',
    decreases s.len(),
{
    if s.len() > 0 && s[0] != '\n' {
        let rest = s.drop_first();
        lemma_line_end_stops(rest);
        assert forall|j: int| 0 <= j < line_end(s) implies s[j] != '\n' by {
            if j > 0 {
                assert(s[j] == rest[j - 1]);
            }
        }
    }
}

/// No line holds a line feed.
pub proof fn lemma_lines_hold_no_line_feed(text: Seq<char>)
    ensures
        forall|i: int, j: int|
            0 <= i < lines_of(text).len() && 0 <= j < lines_of(text)[i].len() ==> #[trigger] lines_of(
                text,
            )[i][j] != '\n',
    decreases text.len(),
{
    if text.len() > 0 {
        let rest = after_first_line(text);
        lemma_line_end_stops(text);
        lemma_lines_hold_no_line_feed(rest);
        assert forall|i: int, j: int|
            0 <= i < lines_of(text).len() && 0 <= j < lines_of(text)[i].len() implies #[trigger] lines_of(
            text,
        )[i][j] != '\n' by {
            if i > 0 {
                assert(lines_of(text)[i] == lines_of(rest)[i - 1]);
            }
        }
    }
}

/// Every line but the last takes up at least its line feed, so a text has no
/// more lines than characters; only the empty text has no line at all.
pub proof fn lemma_line_count(text: Seq<char>)
    ensures
        lines_of(text).len() <= text.len(),
        lines_of(text).len() == 0 <==> text.len() == 0,
    decreases text.len(),
{
    if text.len() > 0 {
        lemma_line_end_stops(text);
        lemma_line_count(after_first_line(text));
    }
}

/// A text without a line feed is one line, and that line is the whole text,
/// whatever other characters it holds.
pub proof fn lemma_single_line(text: Seq<char>)
    requires
        text.len() > 0,
        forall|j: int| 0 <= j < text.len() ==> text[j] != '\n',
    ensures
        lines_of(text) == seq![text],
{
    lemma_line_end_is(text, text.len() as int);
    assert(first_line(text) =~= text);
    assert(lines_of(after_first_line(text)) =~= Seq::<Seq<char>>::empty());
    assert(lines_of(text) =~= seq![text]);
}

/// A line feed at the end of a text ends its last line and begins no new one:
/// a text whose last line stands without a line feed has the same lines with
/// the line feed added.
pub proof fn lemma_final_line_feed(text: Seq<char>)
    requires
        text.len() > 0,
        text.last() != '\n',
    ensures
        lines_of(text.push('\n')) == lines_of(text),
    decreases text.len(),
{
    let more = text.push('\n');
    let end = line_end(text) as int;
    lemma_line_end_stops(text);
    assert forall|j: int| 0 <= j < end implies more[j] != '\n' by {
        assert(more[j] == text[j]);
    }
    lemma_line_end_is(more, end);
    if end == text.len() {
        assert(first_line(more) =~= first_line(text));
        assert(after_first_line(more) =~= Seq::<char>::empty());
        assert(after_first_line(text) =~= Seq::<char>::empty());
    } else {
        let rest = text.skip(end + 1);
        assert(first_line(more) =~= first_line(text));
        assert(after_first_line(more) =~= rest.push('\n'));
        assert(rest.last() == text.last());
        lemma_final_line_feed(rest);
    }
}

/// The first line feed of `text` at or after `from`, or the length of `text`
/// when none follows.
pub fn line_feed_from(text: &Vec<char>, from: usize) -> (end: usize)
    requires
        from <= text.len(),
    ensures
        from <= end <= text.len(),
        end - from == line_end(text@.skip(from as int)),
{
    let mut end: usize = from;
    while end < text.len() && text[end] != '\n'
        invariant
            from <= end <= text.len(),
            forall|j: int| from <= j < end ==> text@[j] != '\n',
        decreases text.len() - end,
    {
        end += 1;
    }
    proof {
        lemma_line_end_is(text@.skip(from as int), end - from);
    }
    end
}

} // verus!
