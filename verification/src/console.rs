//! What the user is asked and shown: the yes/no question and the list of
//! services.
use vstd::prelude::*;

use crate::env::views;
use crate::text::{concat2, trim, trim_str};

verus! {

/// The text printed to ask `prompt` as a yes/no question.
pub open spec fn question_text(prompt: Seq<char>) -> Seq<char> {
    prompt + " [Y/n]: "@
}

/// The text printed to ask `prompt` as a yes/no question: the prompt and
/// ` [Y/n]: `.
pub fn question(prompt: &str) -> (res: String)
    ensures
        res@ == question_text(prompt@),
{
    concat2(prompt, " [Y/n]: ")
}

/// Whether a trimmed answer means yes: an empty answer (the default) or `y` in
/// either case (the strings whose lowercase is `y`).
pub open spec fn affirmative(trimmed: Seq<char>) -> bool {
    trimmed.len() == 0 || trimmed == seq!['y'] || trimmed == seq!['Y']
}

/// Whether the line typed in answer to a yes/no question means yes: once
/// trimmed, it is empty or `y`/`Y`.
pub fn is_yes(input: &str) -> (res: bool)
    ensures
        res == affirmative(trim(input@)),
{
    let t = trim_str(input);
    let chars = crate::text::chars_of(t.as_str());
    if chars.len() == 0 {
        return true;
    }
    if chars.len() == 1 && (chars[0] == 'y' || chars[0] == 'Y') {
        assert(t@ =~= seq![chars[0]]);
        return true;
    }
    assert(!affirmative(t@)) by {
        if t@ == seq!['y'] || t@ == seq!['Y'] {
            assert(t@.len() == 1);
            assert(t@[0] == chars@[0]);
        }
    }
    false
}

/// An entry of `/home`: its name where it is valid UTF-8, and whether it holds
/// the file that marks a service.
#[derive(Debug, Clone, PartialEq, Eq)]
pub struct HomeEntry {
    pub name: Option<String>,
    pub has_config: bool,
}

/// The names that the list of services shows, in order: those of the entries
/// that hold the marking file and whose name is valid UTF-8.
pub open spec fn listed(entries: Seq<(Option<Seq<char>>, bool)>) -> Seq<Seq<char>>
    decreases entries.len(),
{
    if entries.len() == 0 {
        Seq::empty()
    } else {
        let prev = listed(entries.drop_last());
        let e = entries.last();
        match e.0 {
            Some(n) => if e.1 {
                prev.push(n)
            } else {
                prev
            },
            None => prev,
        }
    }
}

/// The views of home entries.
pub open spec fn home_views(entries: Seq<HomeEntry>) -> Seq<(Option<Seq<char>>, bool)> {
    entries.map_values(
        |e: HomeEntry|
            (
                match e.name {
                    Some(n) => Some(n@),
                    None => None,
                },
                e.has_config,
            ),
    )
}

/// The names of the services among the entries of `/home` (see `listed`).
pub fn service_names(entries: &Vec<HomeEntry>) -> (res: Vec<String>)
    ensures
        views(res@) == listed(home_views(entries@)),
{
    let ghost ev = home_views(entries@);
    let mut res: Vec<String> = Vec::new();
    let mut k: usize = 0;
    while k < entries.len()
        invariant
            k <= entries.len(),
            ev == home_views(entries@),
            views(res@) == listed(ev.take(k as int)),
        decreases entries.len() - k,
    {
        assert(ev.take(k + 1).drop_last() =~= ev.take(k as int));
        assert(ev.take(k + 1).last() == ev[k as int]);
        let ghost old_views = views(res@);
        if entries[k].has_config {
            match &entries[k].name {
                Some(n) => {
                    res.push(n.clone());
                    assert(views(res@) =~= old_views.push(n@));
                },
                None => {},
            }
        }
        k += 1;
    }
    assert(ev.take(entries@.len() as int) =~= ev);
    res
}

/// The line printed above the list of services.
pub fn listing_header() -> (res: String)
    ensures
        res@ == "List of services:"@,
{
    String::from_str("List of services:")
}

/// The line printed when `/home` cannot be read; `error` is the error as it
/// displays.
pub fn listing_failed(error: &str) -> (res: String)
    ensures
        res@ == "Failed to read /home directory: "@ + error@,
{
    concat2("Failed to read /home directory: ", error)
}

/// A line typed to a yes/no question means yes exactly when, once trimmed, it
/// is empty or its lowercase is `y`: one character means yes only if it is `y`
/// or `Y`, and two or more never do.
pub proof fn lemma_affirmative_exactly(t: Seq<char>, c: char)
    ensures
        affirmative(Seq::<char>::empty()),
        affirmative(seq![c]) <==> (c == 'y' || c == 'Y'),
        t.len() >= 2 ==> !affirmative(t),
{
    if affirmative(seq![c]) {
        if seq![c] == seq!['y'] {
            assert(seq![c][0] == seq!['y'][0]);
        } else if seq![c] == seq!['Y'] {
            assert(seq![c][0] == seq!['Y'][0]);
        }
    }
    if c == 'y' {
        assert(seq![c] =~= seq!['y']);
    }
    if c == 'Y' {
        assert(seq![c] =~= seq!['Y']);
    }
}

} // verus!
