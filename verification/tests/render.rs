use rust_grep::render::{
    file_header, push_decimal, push_match_line, render_results, search_banner,
};
use rust_grep::search::report_matches;
use rust_grep::SearchResult;

fn result(line_number: usize, line_contents: &str) -> SearchResult {
    SearchResult { line_number, line_contents: String::from(line_contents) }
}

fn decimal(n: usize) -> String {
    let mut out = String::new();
    push_decimal(&mut out, n);
    out
}

#[test]
fn decimal_of_small_and_large_numbers() {
    assert_eq!("0", decimal(0));
    assert_eq!("7", decimal(7));
    assert_eq!("10", decimal(10));
    assert_eq!("109", decimal(109));
    assert_eq!("1234567890", decimal(1234567890));
    assert_eq!(format!("{}", usize::MAX), decimal(usize::MAX));
}

#[test]
fn decimal_is_appended_to_what_is_there() {
    let mut out = String::from("line ");
    push_decimal(&mut out, 42);
    assert_eq!("line 42", out);
}

#[test]
fn no_results_render_as_nothing() {
    assert_eq!("", render_results(&Vec::new()));
}

#[test]
fn results_render_as_number_space_line() {
    let results = vec![result(1, "Wojciech"), result(3, "Wojciech"), result(12, " x ")];
    assert_eq!("1 Wojciech\n3 Wojciech\n12  x \n", render_results(&results));
}

#[test]
fn an_empty_line_renders_as_number_and_space() {
    assert_eq!("2 \n", render_results(&vec![result(2, "")]));
}

#[test]
fn header_is_blank_line_then_filename() {
    assert_eq!(
        "\nFilename: \"tests/files/first.txt\"\n",
        file_header("\"tests/files/first.txt\"")
    );
}

#[test]
fn banner_names_query_and_path() {
    assert_eq!(
        "Searching for Wojciech in ./tests/files\n",
        search_banner("Wojciech", "./tests/files")
    );
}

#[test]
fn report_of_contents_lists_the_matching_lines() {
    assert_eq!(
        "1 Wojciech\n3 Wojciech\n",
        report_matches("Wojciech\nMateusz\nWojciech\n", "Wojciech")
    );
    assert_eq!("", report_matches("Mateusz\n", "Wojciech"));
    assert_eq!("", report_matches("", "Wojciech"));
}

#[test]
fn match_line_is_appended_to_what_is_there() {
    let mut out = String::from("1 a\n");
    push_match_line(&mut out, &result(20, "b c"));
    assert_eq!("1 a\n20 b c\n", out);
}
