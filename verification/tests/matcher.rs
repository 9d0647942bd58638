use rust_grep::lines::line_feed_from;
use rust_grep::matcher::occurs_between;
use rust_grep::text::{chars_of, string_between};
use rust_grep::{find_in_contents, SearchResult};

fn pairs(results: &Vec<SearchResult>) -> Vec<(usize, String)> {
    let mut out = Vec::new();
    for result in results {
        out.push((result.line_number, result.line_contents.clone()));
    }
    out
}

/// The lines of `contents`: the pieces between line feeds, without an empty
/// piece after a last line feed.
fn lines(contents: &str) -> Vec<&str> {
    let mut pieces: Vec<&str> = contents.split('\n').collect();
    if pieces.last() == Some(&"") {
        pieces.pop();
    }
    pieces
}

fn expected(contents: &str, query: &str) -> Vec<(usize, String)> {
    let mut out = Vec::new();
    for (index, line) in lines(contents).into_iter().enumerate() {
        if line.contains(query) {
            out.push((index + 1, String::from(line)));
        }
    }
    out
}

#[test]
fn test_find_in_contents_empty() {
    let contents = "";
    let matches = find_in_contents(contents, "Wojtek");

    assert_eq!(0, matches.len());
}

#[test]
fn test_find_in_contents_matches() {
    let contents = "Wojtek\nMateusz Matuszewski\nWojtek";
    let matches = find_in_contents(contents, "Mateusz");
    assert_eq!(1, matches.len());

    let found_match = matches.get(0).unwrap();
    assert_eq!(2, found_match.line_number);
    assert_eq!(
        String::from("Mateusz Matuszewski"),
        found_match.line_contents
    )
}

#[test]
fn empty_contents_hold_nothing() {
    assert_eq!(0, find_in_contents("", "anything").len());
    assert_eq!(0, find_in_contents("", "").len());
}

#[test]
fn one_match_in_three_lines() {
    let matches = find_in_contents("Alice\nBob Carter\nAlice", "Bob");
    assert_eq!(vec![(2, String::from("Bob Carter"))], pairs(&matches));
}

#[test]
fn all_matches_come_in_line_order() {
    let matches = find_in_contents("Alice\nBob Carter\nAlice", "Alice");
    assert_eq!(
        vec![(1, String::from("Alice")), (3, String::from("Alice"))],
        pairs(&matches)
    );
}

#[test]
fn a_line_with_two_occurrences_is_reported_once() {
    let matches = find_in_contents("abab\nba", "ab");
    assert_eq!(vec![(1, String::from("abab"))], pairs(&matches));
}

#[test]
fn match_at_the_start_middle_and_end_of_a_line() {
    let matches = find_in_contents("needle in\nin needle in\nin needle\nneedl", "needle");
    assert_eq!(
        vec![
            (1, String::from("needle in")),
            (2, String::from("in needle in")),
            (3, String::from("in needle")),
        ],
        pairs(&matches)
    );
}

#[test]
fn comparison_is_case_sensitive() {
    assert_eq!(0, find_in_contents("alice\nALICE", "Alice").len());
}

#[test]
fn a_query_never_spans_two_lines() {
    assert_eq!(0, find_in_contents("ab\ncd", "bc").len());
    assert_eq!(0, find_in_contents("ab\ncd", "b\nc").len());
}

#[test]
fn a_query_longer_than_the_line_is_not_found() {
    assert_eq!(0, find_in_contents("abc", "abcd").len());
}

#[test]
fn empty_query_matches_every_line() {
    let matches = find_in_contents("one\n\nthree\n", "");
    assert_eq!(
        vec![
            (1, String::from("one")),
            (2, String::from("")),
            (3, String::from("three")),
        ],
        pairs(&matches)
    );
}

#[test]
fn trailing_line_feed_adds_no_line() {
    let matches = find_in_contents("a\nb\n", "");
    assert_eq!(2, matches.len());
    assert_eq!(pairs(&find_in_contents("a\nb", "")), pairs(&matches));
}

#[test]
fn a_lone_line_feed_is_one_empty_line() {
    assert_eq!(vec![(1, String::new())], pairs(&find_in_contents("\n", "")));
    assert_eq!(
        vec![(1, String::new()), (2, String::new())],
        pairs(&find_in_contents("\n\n", ""))
    );
}

#[test]
fn carriage_return_before_line_feed_stays_in_the_line() {
    let matches = find_in_contents("one\r\ntwo\r\n", "");
    assert_eq!(
        vec![(1, String::from("one\r")), (2, String::from("two\r"))],
        pairs(&matches)
    );
    assert_eq!(
        vec![(1, String::from("a\r"))],
        pairs(&find_in_contents("a\r\nb", "a"))
    );
}

#[test]
fn carriage_return_can_be_searched_for() {
    assert_eq!(
        vec![(1, String::from("x\r"))],
        pairs(&find_in_contents("x\r\ny", "\r"))
    );
    assert_eq!(
        vec![(1, String::from("one\r"))],
        pairs(&find_in_contents("one\r\ntwo", "e\r"))
    );
    assert_eq!(0, find_in_contents("one\r\ntwo", "\r\n").len());
}

#[test]
fn carriage_returns_elsewhere_stay_in_the_line() {
    let matches = find_in_contents("a\rb\nlast\r", "");
    assert_eq!(
        vec![(1, String::from("a\rb")), (2, String::from("last\r"))],
        pairs(&matches)
    );
    assert_eq!(
        vec![(1, String::from("x\r\r"))],
        pairs(&find_in_contents("x\r\r\n", "x"))
    );
    assert_eq!(
        vec![(1, String::from("\r")), (2, String::from("\r"))],
        pairs(&find_in_contents("\r\n\r\n", ""))
    );
}

#[test]
fn characters_outside_ascii_are_compared_whole() {
    let matches = find_in_contents("zażółć\ngęślą jaźń\nżółw", "żół");
    assert_eq!(
        vec![(1, String::from("zażółć")), (3, String::from("żółw"))],
        pairs(&matches)
    );
}

#[test]
fn line_numbers_grow_past_one_digit() {
    let mut contents = String::new();
    for i in 0..120 {
        contents.push_str(if i % 10 == 9 { "hit\n" } else { "miss\n" });
    }
    let matches = find_in_contents(&contents, "hit");
    let numbers: Vec<usize> = matches.iter().map(|m| m.line_number).collect();
    assert_eq!(vec![10, 20, 30, 40, 50, 60, 70, 80, 90, 100, 110, 120], numbers);
}

#[test]
fn every_result_is_the_line_of_its_number() {
    let contents = "alpha\nbeta alpha\n\ngamma\r\nalpha beta\r\nlast alpha";
    let lines = lines(contents);
    assert_eq!(6, lines.len());
    let matches = find_in_contents(contents, "alpha");
    assert_eq!(4, matches.len());
    for found in &matches {
        assert!(1 <= found.line_number && found.line_number <= lines.len());
        assert_eq!(lines[found.line_number - 1], found.line_contents);
    }
    assert_eq!("alpha beta\r", matches[2].line_contents);
}

#[test]
fn result_count_is_the_count_of_lines_with_the_query() {
    let texts = [
        "",
        "\n",
        "a",
        "a\n",
        "ab\nba\nab",
        "ab\r\nba\r\nab\r\n",
        "\n\nab\n\n",
        "xaby\nab\nb a\naab\n",
        "tail\r",
        "\r\n\r\n",
    ];
    let queries = ["", "a", "ab", "b", "ba", "\r", "aba", "y"];
    for text in texts {
        for query in queries {
            let matches = find_in_contents(text, query);
            let count = lines(text).into_iter().filter(|line| line.contains(query)).count();
            assert_eq!(count, matches.len());
            assert_eq!(expected(text, query), pairs(&matches));
        }
    }
}

#[test]
fn searching_twice_gives_the_same_results() {
    let contents = "one\ntwo\nthree two\n";
    assert_eq!(
        pairs(&find_in_contents(contents, "two")),
        pairs(&find_in_contents(contents, "two"))
    );
}

#[test]
fn chars_of_lists_the_characters() {
    assert_eq!(vec!['a', 'ż', '\n', 'b'], chars_of("aż\nb"));
    assert_eq!(Vec::<char>::new(), chars_of(""));
}

#[test]
fn string_between_copies_the_range() {
    let text = vec!['a', 'b', 'c', 'd'];
    assert_eq!("bc", string_between(&text, 1, 3));
    assert_eq!("", string_between(&text, 2, 2));
    assert_eq!("abcd", string_between(&text, 0, 4));
}

#[test]
fn line_feed_from_finds_the_next_line_feed() {
    let text = chars_of("ab\ncd\n\nef");
    assert_eq!(2, line_feed_from(&text, 0));
    assert_eq!(2, line_feed_from(&text, 2));
    assert_eq!(5, line_feed_from(&text, 3));
    assert_eq!(6, line_feed_from(&text, 6));
    assert_eq!(9, line_feed_from(&text, 7));
    assert_eq!(9, line_feed_from(&text, 9));
}

#[test]
fn occurs_between_looks_at_the_range_only() {
    let text = chars_of("abcabd");
    let abd = chars_of("abd");
    assert!(occurs_between(&text, 0, 6, &abd));
    assert!(occurs_between(&text, 3, 6, &abd));
    assert!(!occurs_between(&text, 0, 5, &abd));
    assert!(!occurs_between(&text, 4, 6, &abd));
    assert!(occurs_between(&text, 2, 2, &Vec::new()));
    assert!(occurs_between(&text, 6, 6, &Vec::new()));
    assert!(!occurs_between(&text, 2, 2, &chars_of("c")));
    assert!(occurs_between(&text, 2, 3, &chars_of("c")));
}
