//! From a directory to the pattern that selects the text files below it.

use vstd::prelude::*;
use vstd::string::*;
use crate::text::chars_of;

verus! {

/// The pattern that selects every `.txt` file at any depth below the current directory.
pub open spec fn recursive_txt() -> Seq<char> {
    "**/*.txt"@
}

/// The pattern for the directory `path`: the bare recursive pattern for `.`,
/// and otherwise `path`, one separator unless `path` already ends in one, and
/// the recursive pattern.
pub open spec fn pattern_of(path: Seq<char>) -> Seq<char> {
    if path == seq!['.'] {
        recursive_txt()
    } else if path.len() > 0 && path.last() == '/' {
        path + recursive_txt()
    } else {
        path + seq!['/'] + recursive_txt()
    }
}

/// Turns a directory path into the pattern of the text files below it. The
/// path is not looked up: this is a transformation of its characters only.
pub fn dir_to_glob_pattern(path: &str) -> (pattern: String)
    ensures
        pattern@ == pattern_of(path@),
{
    let chars = chars_of(path);
    let n = chars.len();
    if n == 1 && chars[0] == '.' {
        assert(path@ =~= seq!['.']);
        String::from_str("**/*.txt")
    } else if n > 0 && chars[n - 1] == '/' {
        String::from_str(path).concat("**/*.txt")
    } else {
        proof {
            reveal_strlit("/");
            assert("/"@ =~= seq!['/']);
        }
        String::from_str(path).concat("/").concat("**/*.txt")
    }
}

} // verus!
