//! Service names: what a service (and the user that runs it) is called, taken
//! from a name given by hand or from the repository's URL.
use vstd::prelude::*;

use crate::env::split_on;
use crate::text::{chars_of, push_char, string_from_range};

verus! {

/// Names what `regex::Regex::new(pattern)` and then `replace_all(haystack,
/// replacement)` on the compiled expression give: `None` where the pattern
/// does not compile.
pub uninterp spec fn regex_replace_all_result(
    pattern: Seq<char>,
    haystack: Seq<char>,
    replacement: Seq<char>,
) -> Option<Seq<char>>;

/// The pattern `[^a-zA-Z0-9]`: any character but an ASCII letter or digit.
pub open spec fn non_alnum_pattern() -> Seq<char> {
    seq!['[', '^', 'a', '-', 'z', 'A', '-', 'Z', '0', '-', '9', ']']
}

/// An ASCII letter or digit.
pub open spec fn is_ascii_alnum(c: char) -> bool {
    ('a' <= c && c <= 'z') || ('A' <= c && c <= 'Z') || ('0' <= c && c <= '9')
}

/// `s` with every character that is not an ASCII letter or digit replaced by `rep`.
pub open spec fn replace_non_alnum(s: Seq<char>, rep: char) -> Seq<char> {
    s.map_values(|c: char| if is_ascii_alnum(c) { c } else { rep })
}

/// Compiles `pattern` with `regex::Regex::new` and replaces every match of it in
/// `haystack` with `replacement` (`Regex::replace_all`); `None` where the
/// pattern does not compile.
///
/// Trusted: the result is the name `regex_replace_all_result` of the three
/// arguments; and, as the `regex` documentation gives it, the class
/// `[^a-zA-Z0-9]` compiles and matches each single character (Unicode scalar
/// value) outside `a-z`, `A-Z` and `0-9`, so that replacing its matches with a
/// literal `_` (which holds no `$` to expand) replaces each such character by
/// `_`. Nothing is stated of other patterns beyond the name.
#[verifier::external_body]
fn regex_replace_all(pattern: &str, haystack: &str, replacement: &str) -> (res: Option<String>)
    ensures
        match res {
            Some(r) => regex_replace_all_result(pattern@, haystack@, replacement@) == Some(r@),
            None => regex_replace_all_result(pattern@, haystack@, replacement@) is None,
        },
        pattern@ == non_alnum_pattern() && replacement@ == seq!['_'] ==> res is Some
            && res->0@ == replace_non_alnum(haystack@, '_'),
{
    match regex::Regex::new(pattern) {
        Ok(re) => Some(re.replace_all(haystack, replacement).into_owned()),
        Err(_) => None,
    }
}

/// The lowercase of an ASCII character (others unchanged).
pub open spec fn ascii_lower(c: char) -> char {
    if 'A' <= c && c <= 'Z' {
        ((c as u32) + 32) as char
    } else {
        c
    }
}

/// A character allowed in a service name: a lowercase ASCII letter, a digit or `_`.
pub open spec fn is_name_char(c: char) -> bool {
    ('a' <= c && c <= 'z') || ('0' <= c && c <= '9') || c == '_'
}

/// What a raw name becomes as a service name: every character that is not an
/// ASCII letter or digit becomes `_`, and letters become lowercase.
pub open spec fn cleaned(s: Seq<char>) -> Seq<char> {
    replace_non_alnum(s, '_').map_values(|c: char| ascii_lower(c))
}

/// The lowercase of an ASCII character (others unchanged).
fn lower_char(c: char) -> (res: char)
    ensures
        res == ascii_lower(c),
{
    if 'A' <= c && c <= 'Z' {
        let b = c as u32 + 32;
        assert(b <= 0x7f);
        let r = (b as u8) as char;
        assert(r == ((c as u32) + 32) as char);
        r
    } else {
        c
    }
}

/// `str::to_lowercase` on a string whose characters are all ASCII letters,
/// digits or `_`: each letter becomes lowercase.
fn lowercase_ascii(s: &str) -> (res: String)
    ensures
        res@ == s@.map_values(|c: char| ascii_lower(c)),
{
    let chars = chars_of(s);
    let mut res = String::new();
    let mut k: usize = 0;
    while k < chars.len()
        invariant
            k <= chars.len(),
            chars@ == s@,
            res@ == s@.take(k as int).map_values(|c: char| ascii_lower(c)),
        decreases chars.len() - k,
    {
        let c = lower_char(chars[k]);
        push_char(&mut res, c);
        k += 1;
        assert(res@ =~= s@.take(k as int).map_values(|c: char| ascii_lower(c)));
    }
    assert(s@.take(chars.len() as int) =~= s@);
    res
}

/// A raw name made fit to name a service and its user: every character that is
/// not an ASCII letter or digit becomes `_` (by the regular expression
/// `[^a-zA-Z0-9]`), then the name is lowercased.
pub fn clean_name(raw_name: &str) -> (res: String)
    ensures
        res@ == cleaned(raw_name@),
{
    let pattern = "[^a-zA-Z0-9]";
    let replacement = "_";
    proof {
        reveal_strlit("[^a-zA-Z0-9]");
        reveal_strlit("_");
        assert(pattern@ =~= non_alnum_pattern());
        assert(replacement@ =~= seq!['_']);
    }
    match regex_replace_all(pattern, raw_name, replacement) {
        Some(replaced) => lowercase_ascii(replaced.as_str()),
        None => {
            assert(false);
            String::new()
        },
    }
}

/// Every character of a cleaned name is a lowercase ASCII letter, a digit or
/// `_`, and cleaning keeps the number of characters.
pub proof fn lemma_cleaned_charset(s: Seq<char>)
    ensures
        cleaned(s).len() == s.len(),
        forall|i: int| 0 <= i < s.len() ==> is_name_char(#[trigger] cleaned(s)[i]),
{
    assert forall|i: int| 0 <= i < s.len() implies is_name_char(#[trigger] cleaned(s)[i]) by {
        let c = s[i];
        if 'A' <= c && c <= 'Z' {
            assert((c as u32) + 32 <= 'z' as u32);
            assert('a' as u32 <= (c as u32) + 32);
        }
    }
}

/// Cleaning a service name again changes nothing: names that are already clean
/// stay as they are.
pub proof fn lemma_cleaned_idempotent(s: Seq<char>)
    ensures
        cleaned(cleaned(s)) == cleaned(s),
{
    lemma_cleaned_charset(s);
    let t = cleaned(s);
    assert forall|i: int| 0 <= i < t.len() implies #[trigger] cleaned(t)[i] == t[i] by {
        assert(is_name_char(t[i]));
    }
    assert(cleaned(t) =~= t);
}

/// `s` without every trailing `.git` (as `trim_end_matches(".git")` gives it).
pub open spec fn strip_git_suffixes(s: Seq<char>) -> Seq<char>
    decreases s.len(),
{
    if s.len() >= 4 && s.subrange(s.len() - 4, s.len() as int) == seq!['.', 'g', 'i', 't'] {
        strip_git_suffixes(s.take(s.len() - 4))
    } else {
        s
    }
}

/// The last `/`-separated segment of a URL.
pub open spec fn last_segment(url: Seq<char>) -> Seq<char> {
    split_on(url, '/').last()
}

/// The raw name that a repository's URL gives: its last `/`-separated segment
/// without trailing `.git`s.
pub open spec fn url_raw_name(url: Seq<char>) -> Seq<char> {
    strip_git_suffixes(last_segment(url))
}

/// The start of the last `/`-separated segment of `chars`.
fn last_segment_start(chars: &Vec<char>) -> (res: usize)
    ensures
        res <= chars.len(),
        chars@.subrange(res as int, chars@.len() as int) == last_segment(chars@),
{
    let mut start: usize = 0;
    let mut k: usize = 0;
    let ghost mut done: Seq<Seq<char>> = Seq::empty();
    assert(chars@.take(0) =~= Seq::<char>::empty());
    assert(done.push(chars@.subrange(0, 0)) =~= seq![Seq::<char>::empty()]);
    while k < chars.len()
        invariant
            start <= k <= chars.len(),
            split_on(chars@.take(k as int), '/') == done.push(
                chars@.subrange(start as int, k as int),
            ),
        decreases chars.len() - k,
    {
        assert(chars@.take(k + 1).drop_last() =~= chars@.take(k as int));
        assert(chars@.take(k + 1).last() == chars@[k as int]);
        if chars[k] == '/' {
            proof {
                done = done.push(chars@.subrange(start as int, k as int));
            }
            start = k + 1;
            assert(chars@.subrange(start as int, k + 1) =~= Seq::<char>::empty());
        } else {
            assert(chars@.subrange(start as int, k as int).push(chars@[k as int])
                =~= chars@.subrange(start as int, k + 1));
        }
        k += 1;
    }
    assert(chars@.take(chars.len() as int) =~= chars@);
    start
}

/// Whether `chars[from..to]` ends with `.git`.
fn ends_with_git(chars: &Vec<char>, from: usize, to: usize) -> (res: bool)
    requires
        from <= to <= chars.len(),
    ensures
        res == (chars@.subrange(from as int, to as int).len() >= 4 && chars@.subrange(
            from as int,
            to as int,
        ).subrange(to - from - 4, to - from) == seq!['.', 'g', 'i', 't']),
{
    if to - from < 4 {
        return false;
    }
    let ghost s = chars@.subrange(from as int, to as int);
    let ghost tail = s.subrange(to - from - 4, to - from);
    assert(tail[0] == chars@[to - 4] && tail[1] == chars@[to - 3] && tail[2] == chars@[to - 2]
        && tail[3] == chars@[to - 1]);
    let res = chars[to - 4] == '.' && chars[to - 3] == 'g' && chars[to - 2] == 'i' && chars[to
        - 1] == 't';
    if res {
        assert(tail =~= seq!['.', 'g', 'i', 't']);
    } else {
        assert(tail != seq!['.', 'g', 'i', 't']) by {
            if tail == seq!['.', 'g', 'i', 't'] {
                assert(tail[0] == '.' && tail[1] == 'g' && tail[2] == 'i' && tail[3] == 't');
            }
        }
    }
    res
}

/// The raw service name that a repository URL gives: its last `/`-separated
/// segment without trailing `.git`s.
pub fn raw_name_from_url(repo_url: &str) -> (res: String)
    ensures
        res@ == url_raw_name(repo_url@),
{
    let chars = chars_of(repo_url);
    let start = last_segment_start(&chars);
    let mut end = chars.len();
    while ends_with_git(&chars, start, end)
        invariant
            start <= end <= chars.len(),
            strip_git_suffixes(last_segment(chars@)) == strip_git_suffixes(
                chars@.subrange(start as int, end as int),
            ),
        decreases end - start,
    {
        assert(chars@.subrange(start as int, end as int).take(end - start - 4) =~= chars@.subrange(
            start as int,
            end - 4,
        ));
        end = end - 4;
    }
    string_from_range(&chars, start, end)
}

/// The service name that `add` gives: the name given by hand, or else the one
/// the repository's URL gives, cleaned either way.
pub open spec fn derived_service_name(repo_url: Seq<char>, name: Option<Seq<char>>) -> Seq<char> {
    match name {
        Some(n) => cleaned(n),
        None => cleaned(url_raw_name(repo_url)),
    }
}

/// The name of the service that `add` creates from `repo_url`: `name` where one
/// is given, else the repository's name from its URL; cleaned either way.
pub fn service_name_for(repo_url: &str, name: &Option<String>) -> (res: String)
    ensures
        res@ == derived_service_name(
            repo_url@,
            match name {
                Some(n) => Some(n@),
                None => None,
            },
        ),
{
    match name {
        Some(custom_name) => clean_name(custom_name.as_str()),
        None => {
            let raw = raw_name_from_url(repo_url);
            clean_name(raw.as_str())
        },
    }
}

} // verus!
