//! Regular-expression matching, through the `regex` crate.

use vstd::prelude::*;

verus! {

/// Whether `text` matches the regular expression `pattern`, or `None` where
/// `pattern` is not a valid expression.
pub uninterp spec fn regex_match(pattern: Seq<char>, text: Seq<char>) -> Option<bool>;

/// The characters that carry a meaning in a regular expression.
pub open spec fn is_meta(c: char) -> bool {
    c == '\\' || c == '.' || c == '+' || c == '*' || c == '?' || c == '(' || c == ')' || c == '|'
        || c == '[' || c == ']' || c == '{' || c == '}' || c == '^' || c == '$' || c == '#' || c
        == '&' || c == '-' || c == '~'
}

/// `s` with a backslash before each meta character: an expression that
/// matches `s` literally.
pub open spec fn escaped(s: Seq<char>) -> Seq<char>
    decreases s.len(),
{
    if s.len() == 0 {
        Seq::empty()
    } else {
        escaped(s.drop_last()) + if is_meta(s.last()) {
            seq!['\\', s.last()]
        } else {
            seq![s.last()]
        }
    }
}

pub fn is_meta_character(c: char) -> (r: bool)
    ensures
        r == is_meta(c),
{
    c == '\\' || c == '.' || c == '+' || c == '*' || c == '?' || c == '(' || c == ')' || c == '|'
        || c == '[' || c == ']' || c == '{' || c == '}' || c == '^' || c == '$' || c == '#' || c
        == '&' || c == '-' || c == '~'
}

/// `s` with a backslash before each meta character.
pub fn escape(s: &str) -> (r: String)
    ensures
        r@ == escaped(s@),
{
    let n = s.unicode_len();
    let mut r = String::new();
    let mut i: usize = 0;
    proof {
        reveal_strlit("\\");
    }
    while i < n
        invariant
            i <= n,
            n == s@.len(),
            r@ == escaped(s@.subrange(0, i as int)),
            "\\"@ == seq!['\\'],
        decreases n - i,
    {
        let ghost before = r@;
        let c = s.get_char(i);
        let one = s.substring_char(i, i + 1);
        assert(one@ =~= seq![c]);
        if is_meta_character(c) {
            r.append("\\");
        }
        r.append(one);
        let ghost sub = s@.subrange(0, i + 1);
        assert(sub.drop_last() =~= s@.subrange(0, i as int));
        assert(sub.last() == c);
        proof {
            if is_meta(c) {
                assert(r@ =~= before + seq!['\\', c]);
            } else {
                assert(r@ =~= before + seq![c]);
            }
        }
        i = i + 1;
    }
    assert(s@.subrange(0, n as int) =~= s@);
    r
}

/// Relies on `regex::Regex::new`, which fails on an invalid expression, and on
/// `Regex::is_match`, whose answer depends on the expression and the text alone.
#[verifier::external_body]
pub(crate) fn regex_is_match(pattern: &str, text: &str) -> (r: Option<bool>)
    ensures
        r == regex_match(pattern@, text@),
{
    match regex::Regex::new(pattern) {
        Ok(re) => Some(re.is_match(text)),
        Err(_) => None,
    }
}

/// A case-insensitive expression that finds `word` as a whole word.
pub open spec fn word_pattern(word: Seq<char>) -> Seq<char> {
    "(?i)\\b"@ + escaped(word) + "\\b"@
}

/// Whether `word` occurs in `text` as a whole word, ignoring case.
pub open spec fn has_word(word: Seq<char>, text: Seq<char>) -> bool {
    regex_match(word_pattern(word), text) == Some(true)
}

/// A case-insensitive expression that finds `name` as the last component of a path.
pub open spec fn file_name_pattern(name: Seq<char>) -> Seq<char> {
    "(?i)(?:^|/)"@ + escaped(name) + "$"@
}

/// Whether the last component of `path` is `name`, ignoring case.
pub open spec fn names_file(name: Seq<char>, path: Seq<char>) -> bool {
    regex_match(file_name_pattern(name), path) == Some(true)
}

pub fn contains_word(word: &str, text: &str) -> (r: bool)
    ensures
        r == has_word(word@, text@),
{
    let e = escape(word);
    let pattern = String::from_str("(?i)\\b").concat(e.as_str()).concat("\\b");
    match regex_is_match(pattern.as_str(), text) {
        Some(b) => b,
        None => false,
    }
}

pub fn is_file_named(name: &str, path: &str) -> (r: bool)
    ensures
        r == names_file(name@, path@),
{
    let e = escape(name);
    let pattern = String::from_str("(?i)(?:^|/)").concat(e.as_str()).concat("$");
    match regex_is_match(pattern.as_str(), path) {
        Some(b) => b,
        None => false,
    }
}

} // verus!
