//! The `.metal-deploy.env` template, the variables a service is started with,
//! and the `.env` file written from them.
use vstd::prelude::*;

use crate::text::{chars_of, is_blank, is_blank_str, is_white, string_from_range, trim, trim_str};

verus! {

/// The pieces of `s` between occurrences of `sep` (as `str::split` yields them).
pub open spec fn split_on(s: Seq<char>, sep: char) -> Seq<Seq<char>>
    decreases s.len(),
{
    if s.len() == 0 {
        seq![Seq::empty()]
    } else {
        let p = split_on(s.drop_last(), sep);
        if s.last() == sep {
            p.push(Seq::empty())
        } else {
            p.update(p.len() - 1, p.last().push(s.last()))
        }
    }
}

/// A line without the `'\r'` that ends it, if any.
pub open spec fn strip_cr(line: Seq<char>) -> Seq<char> {
    if line.len() > 0 && line.last() == '\r' {
        line.drop_last()
    } else {
        line
    }
}

/// The lines of `s` as `BufRead::lines` yields them: split at `'\n'`; a line
/// ended by `'\n'` loses a `'\r'` just before it, while a last line without
/// `'\n'` is kept as it is; no empty line follows a final `'\n'`.
pub open spec fn lines(s: Seq<char>) -> Seq<Seq<char>> {
    let p = split_on(s, '\n');
    let ended = p.drop_last().map_values(|l: Seq<char>| strip_cr(l));
    if p.last().len() == 0 {
        ended
    } else {
        ended.push(p.last())
    }
}

/// The views of a vector of strings.
pub open spec fn views(v: Seq<String>) -> Seq<Seq<char>> {
    v.map_values(|s: String| s@)
}

/// The line `chars[start..end]` without a final `'\r'`.
fn line_at(chars: &Vec<char>, start: usize, end: usize) -> (res: String)
    requires
        start <= end <= chars.len(),
    ensures
        res@ == strip_cr(chars@.subrange(start as int, end as int)),
{
    if end > start && chars[end - 1] == '\r' {
        let res = string_from_range(chars, start, end - 1);
        assert(chars@.subrange(start as int, end as int).drop_last() =~= chars@.subrange(
            start as int,
            end - 1,
        ));
        res
    } else {
        string_from_range(chars, start, end)
    }
}

/// The lines of `s`, as reading it with `BufRead::lines` gives them.
pub fn lines_of(s: &str) -> (res: Vec<String>)
    ensures
        views(res@) == lines(s@),
{
    let chars = chars_of(s);
    let n = chars.len();
    let mut res: Vec<String> = Vec::new();
    let mut start: usize = 0;
    let ghost mut raw: Seq<Seq<char>> = Seq::empty();
    let mut k: usize = 0;
    assert(chars@.take(0) =~= Seq::<char>::empty());
    assert(raw.push(chars@.subrange(0, 0)) =~= seq![Seq::<char>::empty()]);
    while k < n
        invariant
            n == chars.len(),
            chars@ == s@,
            start <= k <= n,
            split_on(chars@.take(k as int), '\n') == raw.push(
                chars@.subrange(start as int, k as int),
            ),
            views(res@) == raw.map_values(|l: Seq<char>| strip_cr(l)),
        decreases n - k,
    {
        assert(chars@.take(k + 1).drop_last() =~= chars@.take(k as int));
        assert(chars@.take(k + 1).last() == chars@[k as int]);
        if chars[k] == '\n' {
            let line = line_at(&chars, start, k);
            let ghost old_views = views(res@);
            proof {
                raw = raw.push(chars@.subrange(start as int, k as int));
            }
            res.push(line);
            assert(views(res@) =~= old_views.push(line@));
            start = k + 1;
            assert(chars@.subrange(start as int, k + 1) =~= Seq::<char>::empty());
        } else {
            assert(chars@.subrange(start as int, k as int).push(chars@[k as int])
                =~= chars@.subrange(start as int, k + 1));
        }
        k += 1;
        assert(views(res@) =~= raw.map_values(|l: Seq<char>| strip_cr(l)));
    }
    assert(chars@.take(n as int) =~= s@);
    let ghost last = chars@.subrange(start as int, n as int);
    assert(split_on(s@, '\n') == raw.push(last));
    assert(raw.push(last).drop_last() =~= raw);
    if start < n {
        let line = string_from_range(&chars, start, n);
        let ghost old_views = views(res@);
        assert(split_on(s@, '\n').last() == last);
        res.push(line);
        assert(views(res@) =~= old_views.push(line@));
        assert(views(res@) =~= raw.map_values(|l: Seq<char>| strip_cr(l)).push(last));
    } else {
        assert(chars@.subrange(start as int, n as int) =~= Seq::<char>::empty());
        assert(raw.push(chars@.subrange(start as int, n as int)).drop_last() =~= raw);
    }
    assert(views(res@) =~= lines(s@));
    res
}

/// The index of the first `c` in `s`, if `s` holds one.
pub open spec fn first_index(s: Seq<char>, c: char) -> Option<int> {
    if exists|i: int| 0 <= i < s.len() && s[i] == c {
        Some(
            choose|i: int|
                0 <= i < s.len() && s[i] == c && forall|j: int| 0 <= j < i ==> s[j] != c,
        )
    } else {
        None
    }
}

/// What a line of the template declares: blank lines and lines that start with
/// `#` declare nothing, nor do lines without `=`; otherwise the key is what
/// precedes the first `=` and the value what follows it.
pub open spec fn template_line(line: Seq<char>) -> Option<(Seq<char>, Seq<char>)> {
    if is_blank(line) || (line.len() > 0 && line[0] == '#') {
        None
    } else {
        match first_index(line, '=') {
            Some(i) => Some((line.take(i), line.skip(i + 1))),
            None => None,
        }
    }
}

/// The declarations of a sequence of template lines, in order.
pub open spec fn template_entries(ls: Seq<Seq<char>>) -> Seq<(Seq<char>, Seq<char>)>
    decreases ls.len(),
{
    if ls.len() == 0 {
        Seq::empty()
    } else {
        let prev = template_entries(ls.drop_last());
        match template_line(ls.last()) {
            Some(e) => prev.push(e),
            None => prev,
        }
    }
}

/// The declarations of a template file's text, in order.
pub open spec fn parse_template(text: Seq<char>) -> Seq<(Seq<char>, Seq<char>)> {
    template_entries(lines(text))
}

/// One declaration of the template: a key and its value, which is empty where
/// the value is to be asked for.
#[derive(Debug, Clone, PartialEq, Eq)]
pub struct TemplateEntry {
    pub key: String,
    pub value: String,
}

impl View for TemplateEntry {
    type V = (Seq<char>, Seq<char>);

    open spec fn view(&self) -> (Seq<char>, Seq<char>) {
        (self.key@, self.value@)
    }
}

/// The views of a vector of template entries.
pub open spec fn entry_views(v: Seq<TemplateEntry>) -> Seq<(Seq<char>, Seq<char>)> {
    v.map_values(|e: TemplateEntry| e@)
}

/// The index of the first `'='` in `chars`, if any.
fn find_equals(chars: &Vec<char>) -> (res: Option<usize>)
    ensures
        match res {
            Some(i) => first_index(chars@, '=') == Some(i as int) && i < chars.len(),
            None => first_index(chars@, '=') is None,
        },
{
    let mut k: usize = 0;
    while k < chars.len()
        invariant
            k <= chars.len(),
            forall|j: int| 0 <= j < k ==> chars@[j] != '=',
        decreases chars.len() - k,
    {
        if chars[k] == '=' {
            let ghost c = choose|i: int|
                0 <= i < chars@.len() && chars@[i] == '=' && forall|j: int|
                    0 <= j < i ==> chars@[j] != '=';
            assert(0 <= k < chars@.len() && chars@[k as int] == '=');
            assert(c == k) by {
                if c < k {
                    assert(chars@[c] != '=');
                } else if c > k {
                    assert(chars@[k as int] != '=');
                }
            }
            return Some(k);
        }
        k += 1;
    }
    None
}

/// What one line of the template declares (see `template_line`).
pub fn parse_template_line(line: &str) -> (res: Option<TemplateEntry>)
    ensures
        match res {
            Some(e) => template_line(line@) == Some(e@),
            None => template_line(line@) is None,
        },
{
    let chars = chars_of(line);
    if is_blank_str(line) || (chars.len() > 0 && chars[0] == '#') {
        return None;
    }
    match find_equals(&chars) {
        Some(i) => {
            let key = string_from_range(&chars, 0, i);
            let value = string_from_range(&chars, i + 1, chars.len());
            assert(chars@.subrange(0, i as int) =~= line@.take(i as int));
            assert(chars@.subrange(i + 1, chars@.len() as int) =~= line@.skip(i + 1));
            Some(TemplateEntry { key, value })
        },
        None => None,
    }
}

/// The declarations of a template file's text, in order (what reading
/// `.metal-deploy.env` line by line finds in it).
pub fn parse_template_text(text: &str) -> (res: Vec<TemplateEntry>)
    ensures
        entry_views(res@) == parse_template(text@),
{
    let ls = lines_of(text);
    let mut res: Vec<TemplateEntry> = Vec::new();
    let mut k: usize = 0;
    while k < ls.len()
        invariant
            k <= ls.len(),
            views(ls@) == lines(text@),
            entry_views(res@) == template_entries(views(ls@).take(k as int)),
        decreases ls.len() - k,
    {
        let parsed = parse_template_line(ls[k].as_str());
        assert(views(ls@).take(k + 1).drop_last() =~= views(ls@).take(k as int));
        assert(views(ls@).take(k + 1).last() == ls@[k as int]@);
        match parsed {
            Some(e) => {
                res.push(e);
            },
            None => {},
        }
        k += 1;
        assert(entry_views(res@) =~= template_entries(views(ls@).take(k as int)));
    }
    assert(views(ls@).take(ls@.len() as int) =~= views(ls@));
    res
}

/// The position of `key` among the keys of `l`, if it is there.
pub open spec fn key_position(l: Seq<(Seq<char>, Seq<char>)>, key: Seq<char>) -> Option<int> {
    if exists|i: int| 0 <= i < l.len() && l[i].0 == key {
        Some(choose|i: int| 0 <= i < l.len() && l[i].0 == key)
    } else {
        None
    }
}

/// No key occurs twice in `l`.
pub open spec fn distinct_keys(l: Seq<(Seq<char>, Seq<char>)>) -> bool {
    forall|i: int, j: int| 0 <= i < j < l.len() ==> l[i].0 != l[j].0
}

/// `l` after setting `key` to `value`: a key already there keeps its place and
/// takes the new value; a new key goes last.
pub open spec fn assoc_insert(l: Seq<(Seq<char>, Seq<char>)>, key: Seq<char>, value: Seq<char>) -> Seq<
    (Seq<char>, Seq<char>),
> {
    match key_position(l, key) {
        Some(i) => l.update(i, (key, value)),
        None => l.push((key, value)),
    }
}

/// The value that `l` gives `key`, if any.
pub open spec fn assoc_get(l: Seq<(Seq<char>, Seq<char>)>, key: Seq<char>) -> Option<Seq<char>> {
    match key_position(l, key) {
        Some(i) => Some(l[i].1),
        None => None,
    }
}

/// The variables that setting the pairs of `pairs` one after the other gives,
/// starting from none.
pub open spec fn env_from(pairs: Seq<(Seq<char>, Seq<char>)>) -> Seq<(Seq<char>, Seq<char>)>
    decreases pairs.len(),
{
    if pairs.len() == 0 {
        Seq::empty()
    } else {
        assoc_insert(env_from(pairs.drop_last()), pairs.last().0, pairs.last().1)
    }
}

/// The text of a `.env` file: one `key=value` line for each variable, in order.
pub open spec fn render_env(l: Seq<(Seq<char>, Seq<char>)>) -> Seq<char>
    decreases l.len(),
{
    if l.len() == 0 {
        Seq::empty()
    } else {
        render_env(l.drop_last()) + l.last().0 + seq!['='] + l.last().1 + seq!['\n']
    }
}

/// The environment variables of a service: each key once, with its value, in
/// the order in which the keys were first set.
pub struct EnvVars {
    entries: Vec<(String, String)>,
}

impl View for EnvVars {
    type V = Seq<(Seq<char>, Seq<char>)>;

    closed spec fn view(&self) -> Seq<(Seq<char>, Seq<char>)> {
        self.entries@.map_values(|p: (String, String)| (p.0@, p.1@))
    }
}

impl EnvVars {
    #[verifier::type_invariant]
    closed spec fn keys_distinct(self) -> bool {
        distinct_keys(self@)
    }

    /// No variables.
    pub fn new() -> (res: EnvVars)
        ensures
            res@ == Seq::<(Seq<char>, Seq<char>)>::empty(),
    {
        let res = EnvVars { entries: Vec::new() };
        assert(res@ =~= Seq::<(Seq<char>, Seq<char>)>::empty());
        res
    }

    /// The number of variables.
    pub fn len(&self) -> (res: usize)
        ensures
            res == self@.len(),
    {
        self.entries.len()
    }

    /// The position of `key`, if it is set.
    fn find(&self, key: &String) -> (res: Option<usize>)
        ensures
            match res {
                Some(i) => key_position(self@, key@) == Some(i as int) && i < self@.len(),
                None => key_position(self@, key@) is None,
            },
    {
        proof {
            use_type_invariant(self);
        }
        let mut k: usize = 0;
        while k < self.entries.len()
            invariant
                k <= self.entries.len(),
                distinct_keys(self@),
                forall|j: int| 0 <= j < k ==> self@[j].0 != key@,
            decreases self.entries.len() - k,
        {
            if self.entries[k].0 == *key {
                assert(self@[k as int].0 == key@);
                let ghost c = choose|i: int| 0 <= i < self@.len() && self@[i].0 == key@;
                assert(c == k) by {
                    if c != k {
                        if c < k {
                            assert(self@[c].0 != self@[k as int].0);
                        } else {
                            assert(self@[k as int].0 != self@[c].0);
                        }
                    }
                }
                return Some(k);
            }
            k += 1;
        }
        None
    }

    /// The value of `key`, if it is set.
    pub fn get(&self, key: &String) -> (res: Option<String>)
        ensures
            match res {
                Some(v) => assoc_get(self@, key@) == Some(v@),
                None => assoc_get(self@, key@) is None,
            },
    {
        match self.find(key) {
            Some(i) => Some(self.entries[i].1.clone()),
            None => None,
        }
    }

    /// Sets `key` to `value`, as `HashMap::insert` does: a key already set
    /// takes the new value.
    pub fn insert(&mut self, key: String, value: String)
        ensures
            final(self)@ == assoc_insert(old(self)@, key@, value@),
    {
        proof {
            use_type_invariant(&*self);
        }
        let ghost old_view = self@;
        let found = self.find(&key);
        let mut entries: Vec<(String, String)> = Vec::new();
        std::mem::swap(&mut entries, &mut self.entries);
        match found {
            Some(i) => {
                entries.set(i, (key, value));
            },
            None => {
                entries.push((key, value));
            },
        }
        let ghost new_view = entries@.map_values(|p: (String, String)| (p.0@, p.1@));
        assert(new_view =~= assoc_insert(old_view, key@, value@));
        assert(distinct_keys(new_view)) by {
            match found {
                Some(i) => {
                    assert forall|a: int, b: int| 0 <= a < b < new_view.len() implies new_view[a].0
                        != new_view[b].0 by {
                        if a != i && b != i {
                            assert(old_view[a].0 != old_view[b].0);
                        } else if a == i {
                            assert(old_view[a].0 != old_view[b].0);
                        } else {
                            assert(old_view[a].0 != old_view[b].0);
                        }
                    }
                },
                None => {
                    assert forall|a: int, b: int| 0 <= a < b < new_view.len() implies new_view[a].0
                        != new_view[b].0 by {
                        if b == old_view.len() {
                            assert(!(0 <= a < old_view.len() && old_view[a].0 == key@));
                        }
                    }
                },
            }
        }
        self.entries = entries;
    }

    /// The text of the `.env` file for these variables: a `key=value` line for
    /// each, in order.
    pub fn render(&self) -> (res: String)
        ensures
            res@ == render_env(self@),
    {
        let mut res = String::new();
        let mut k: usize = 0;
        while k < self.entries.len()
            invariant
                k <= self@.len(),
                self@.len() == self.entries@.len(),
                res@ == render_env(self@.take(k as int)),
            decreases self.entries.len() - k,
        {
            assert(self@.take(k + 1).drop_last() =~= self@.take(k as int));
            res.append(self.entries[k].0.as_str());
            res.append("=");
            res.append(self.entries[k].1.as_str());
            res.append("\n");
            proof {
                reveal_strlit("=");
                reveal_strlit("\n");
            }
            k += 1;
        }
        assert(self@.take(self@.len() as int) =~= self@);
        res
    }
}

/// How many entries of `entries` have an empty value, that is how many values
/// are to be asked for.
pub open spec fn prompt_count(entries: Seq<(Seq<char>, Seq<char>)>) -> nat
    decreases entries.len(),
{
    if entries.len() == 0 {
        0
    } else {
        prompt_count(entries.drop_last()) + if entries.last().1.len() == 0 {
            1nat
        } else {
            0nat
        }
    }
}

/// The pairs that the template's entries give when the values asked for are
/// `answers`, in order: an empty value takes the next answer, trimmed.
pub open spec fn resolve(entries: Seq<(Seq<char>, Seq<char>)>, answers: Seq<Seq<char>>) -> Seq<
    (Seq<char>, Seq<char>),
>
    decreases entries.len(),
{
    if entries.len() == 0 {
        Seq::empty()
    } else {
        let e = entries.last();
        let rest = entries.drop_last();
        resolve(rest, answers).push(
            if e.1.len() == 0 {
                (e.0, trim(answers[prompt_count(rest) as int]))
            } else {
                e
            },
        )
    }
}

/// The variables a template gives when the values asked for are `answers`.
pub fn populate_env(entries: &Vec<TemplateEntry>, answers: &Vec<String>) -> (res: EnvVars)
    requires
        answers@.len() == prompt_count(entry_views(entries@)),
    ensures
        res@ == env_from(resolve(entry_views(entries@), views(answers@))),
{
    let ghost ev = entry_views(entries@);
    let mut res = EnvVars::new();
    let mut used: usize = 0;
    let mut k: usize = 0;
    while k < entries.len()
        invariant
            k <= entries.len(),
            ev == entry_views(entries@),
            answers@.len() == prompt_count(ev),
            used == prompt_count(ev.take(k as int)),
            res@ == env_from(resolve(ev.take(k as int), views(answers@))),
        decreases entries.len() - k,
    {
        assert(ev.take(k + 1).drop_last() =~= ev.take(k as int));
        assert(ev.take(k + 1).last() == entries@[k as int]@);
        proof {
            lemma_prompt_count_prefix(ev, k + 1);
        }
        let ghost pairs = resolve(ev.take(k + 1), views(answers@));
        assert(pairs.drop_last() =~= resolve(ev.take(k as int), views(answers@)));
        let key = entries[k].key.clone();
        if entries[k].value.as_str().is_empty() {
            assert(entries[k as int].value@.len() == 0);
            assert(prompt_count(ev.take(k + 1)) == used + 1);
            assert(used < answers.len());
            let value = trim_str(answers[used].as_str());
            assert(pairs.last() == (key@, value@));
            res.insert(key, value);
            used += 1;
        } else {
            assert(entries[k as int].value@.len() != 0);
            let value = entries[k].value.clone();
            assert(pairs.last() == (key@, value@));
            res.insert(key, value);
        }
        k += 1;
    }
    assert(ev.take(entries@.len() as int) =~= ev);
    res
}

/// The values `resolve` gives depend only on the answers to the questions that
/// the entries ask: answers beyond them change nothing.
pub proof fn lemma_resolve_ignores_later_answers(
    entries: Seq<(Seq<char>, Seq<char>)>,
    answers: Seq<Seq<char>>,
    extra: Seq<char>,
)
    requires
        prompt_count(entries) <= answers.len(),
    ensures
        resolve(entries, answers.push(extra)) == resolve(entries, answers),
    decreases entries.len(),
{
    if entries.len() > 0 {
        lemma_resolve_ignores_later_answers(entries.drop_last(), answers, extra);
    }
}

/// A template line `key=`, where `key` holds no `=` and does not start with
/// `#`, declares `key` with an empty value, to be asked for.
pub proof fn lemma_template_line_empty_value(key: Seq<char>)
    requires
        forall|i: int| 0 <= i < key.len() ==> key[i] != '=',
        !(key.len() > 0 && key[0] == '#'),
    ensures
        template_line(key + seq!['=']) == Some((key, Seq::<char>::empty())),
{
    let l = key + seq!['='];
    let n = key.len() as int;
    assert(l[n] == '=');
    assert(!is_white('='));
    assert(!is_blank(l));
    assert(!(l.len() > 0 && l[0] == '#')) by {
        if key.len() > 0 {
            assert(l[0] == key[0]);
        }
    }
    assert(exists|i: int| 0 <= i < l.len() && l[i] == '=');
    let c = choose|i: int| 0 <= i < l.len() && l[i] == '=' && forall|j: int| 0 <= j < i ==> l[j] != '=';
    assert(0 <= n < l.len() && l[n] == '=' && forall|j: int| 0 <= j < n ==> l[j] != '=') by {
        assert forall|j: int| 0 <= j < n implies l[j] != '=' by {
            assert(l[j] == key[j]);
        }
    }
    assert(c == n) by {
        if c < n {
            assert(l[c] == key[c]);
        } else if c > n {
            assert(l[n] != '=');
        }
    }
    assert(first_index(l, '=') == Some(n));
    assert(l.take(n) =~= key);
    assert(l.skip(n + 1) =~= Seq::<char>::empty());
}

/// A template line `key=value`, where `key` holds no `=` and does not start
/// with `#`, declares `key` with `value` exactly as it stands.
pub proof fn lemma_template_line_given_value(key: Seq<char>, value: Seq<char>)
    requires
        forall|i: int| 0 <= i < key.len() ==> key[i] != '=',
        !(key.len() > 0 && key[0] == '#'),
    ensures
        template_line(key + seq!['='] + value) == Some((key, value)),
{
    let l = key + seq!['='] + value;
    let n = key.len() as int;
    assert(l[n] == '=');
    assert(!is_white('='));
    assert(!is_blank(l));
    assert(!(l.len() > 0 && l[0] == '#')) by {
        if key.len() > 0 {
            assert(l[0] == key[0]);
        }
    }
    assert(exists|i: int| 0 <= i < l.len() && l[i] == '=');
    let c = choose|i: int| 0 <= i < l.len() && l[i] == '=' && forall|j: int| 0 <= j < i ==> l[j] != '=';
    assert(0 <= n < l.len() && l[n] == '=' && forall|j: int| 0 <= j < n ==> l[j] != '=') by {
        assert forall|j: int| 0 <= j < n implies l[j] != '=' by {
            assert(l[j] == key[j]);
        }
    }
    assert(c == n) by {
        if c < n {
            assert(l[c] == key[c]);
        } else if c > n {
            assert(l[n] != '=');
        }
    }
    assert(first_index(l, '=') == Some(n));
    assert(l.take(n) =~= key);
    assert(l.skip(n + 1) =~= value);
}

/// The count of values to ask for only grows along a prefix.
pub proof fn lemma_prompt_count_prefix(entries: Seq<(Seq<char>, Seq<char>)>, n: int)
    requires
        0 <= n <= entries.len(),
    ensures
        prompt_count(entries.take(n)) <= prompt_count(entries),
    decreases entries.len() - n,
{
    if n < entries.len() {
        lemma_prompt_count_prefix(entries, n + 1);
        assert(entries.take(n + 1).drop_last() =~= entries.take(n));
    } else {
        assert(entries.take(n) =~= entries);
    }
}

/// In a list with distinct keys, `key_position` finds the one index that holds
/// the key.
pub proof fn lemma_key_position(l: Seq<(Seq<char>, Seq<char>)>, key: Seq<char>, i: int)
    requires
        distinct_keys(l),
        0 <= i < l.len(),
        l[i].0 == key,
    ensures
        key_position(l, key) == Some(i),
{
    let c = choose|j: int| 0 <= j < l.len() && l[j].0 == key;
    if c != i {
        if c < i {
            assert(l[c].0 != l[i].0);
        } else {
            assert(l[i].0 != l[c].0);
        }
    }
}

/// After `insert(key, value)`, the key is set to `value`, every other key keeps
/// its value, and keys stay distinct.
pub proof fn lemma_insert_then_get(
    l: Seq<(Seq<char>, Seq<char>)>,
    key: Seq<char>,
    value: Seq<char>,
    other: Seq<char>,
)
    requires
        distinct_keys(l),
    ensures
        distinct_keys(assoc_insert(l, key, value)),
        assoc_get(assoc_insert(l, key, value), key) == Some(value),
        other != key ==> assoc_get(assoc_insert(l, key, value), other) == assoc_get(l, other),
{
    let r = assoc_insert(l, key, value);
    match key_position(l, key) {
        Some(i) => {
            assert(0 <= i < l.len() && l[i].0 == key);
            assert forall|a: int, b: int| 0 <= a < b < r.len() implies r[a].0 != r[b].0 by {
                assert(l[a].0 != l[b].0);
            }
            lemma_key_position(r, key, i);
            if other != key {
                if exists|j: int| 0 <= j < l.len() && l[j].0 == other {
                    let j = choose|j: int| 0 <= j < l.len() && l[j].0 == other;
                    lemma_key_position(l, other, j);
                    lemma_key_position(r, other, j);
                } else {
                    assert(!exists|j: int| 0 <= j < r.len() && r[j].0 == other) by {
                        if exists|j: int| 0 <= j < r.len() && r[j].0 == other {
                            let j = choose|j: int| 0 <= j < r.len() && r[j].0 == other;
                            assert(l[j].0 == other);
                        }
                    }
                }
            }
        },
        None => {
            assert(!exists|j: int| 0 <= j < l.len() && l[j].0 == key);
            assert forall|a: int, b: int| 0 <= a < b < r.len() implies r[a].0 != r[b].0 by {
                if b == l.len() {
                    assert(l[a].0 != key);
                } else {
                    assert(l[a].0 != l[b].0);
                }
            }
            lemma_key_position(r, key, l.len() as int);
            if other != key {
                if exists|j: int| 0 <= j < l.len() && l[j].0 == other {
                    let j = choose|j: int| 0 <= j < l.len() && l[j].0 == other;
                    lemma_key_position(l, other, j);
                    lemma_key_position(r, other, j);
                } else {
                    assert(!exists|j: int| 0 <= j < r.len() && r[j].0 == other) by {
                        if exists|j: int| 0 <= j < r.len() && r[j].0 == other {
                            let j = choose|j: int| 0 <= j < r.len() && r[j].0 == other;
                            assert(l[j].0 == other);
                        }
                    }
                }
            }
        },
    }
}

/// Setting variables one after the other never gives a key twice.
pub proof fn lemma_env_from_distinct(pairs: Seq<(Seq<char>, Seq<char>)>)
    ensures
        distinct_keys(env_from(pairs)),
    decreases pairs.len(),
{
    if pairs.len() > 0 {
        lemma_env_from_distinct(pairs.drop_last());
        lemma_insert_then_get(
            env_from(pairs.drop_last()),
            pairs.last().0,
            pairs.last().1,
            pairs.last().0,
        );
    }
}

/// The line `key=value` of a `.env` file.
pub open spec fn env_line(p: (Seq<char>, Seq<char>)) -> Seq<char> {
    p.0 + seq!['='] + p.1
}

/// A variable that a `.env` line gives back unchanged when read as a template
/// line: the key holds no `=` or line break and does not start with `#`; the
/// value holds no line break and does not end with a carriage return.
pub open spec fn plain_var(p: (Seq<char>, Seq<char>)) -> bool {
    &&& forall|i: int| 0 <= i < p.0.len() ==> p.0[i] != '=' && p.0[i] != '\n'
    &&& !(p.0.len() > 0 && p.0[0] == '#')
    &&& forall|i: int| 0 <= i < p.1.len() ==> p.1[i] != '\n'
    &&& !(p.1.len() > 0 && p.1.last() == '\r')
}

/// Splitting gives at least one piece.
pub proof fn lemma_split_nonempty(s: Seq<char>, sep: char)
    ensures
        split_on(s, sep).len() >= 1,
    decreases s.len(),
{
    if s.len() > 0 {
        lemma_split_nonempty(s.drop_last(), sep);
    }
}

/// Appending text without a separator extends the last piece.
pub proof fn lemma_split_append_plain(s: Seq<char>, t: Seq<char>, sep: char)
    requires
        forall|i: int| 0 <= i < t.len() ==> t[i] != sep,
    ensures
        split_on(s + t, sep) == split_on(s, sep).update(
            split_on(s, sep).len() - 1,
            split_on(s, sep).last() + t,
        ),
    decreases t.len(),
{
    lemma_split_nonempty(s, sep);
    let p = split_on(s, sep);
    if t.len() == 0 {
        assert(s + t =~= s);
        assert(p.update(p.len() - 1, p.last() + t) =~= p);
    } else {
        let t1 = t.drop_last();
        lemma_split_append_plain(s, t1, sep);
        assert((s + t).drop_last() =~= s + t1);
        assert((s + t).last() == t.last());
        assert(t[t.len() - 1] != sep);
        let q = split_on(s + t1, sep);
        assert(q.len() == p.len());
        assert(q.last() == p.last() + t1);
        assert((p.last() + t1).push(t.last()) =~= p.last() + t);
        assert(split_on(s + t, sep) == q.update(q.len() - 1, q.last().push((s + t).last())));
        assert(split_on(s + t, sep) =~= p.update(p.len() - 1, p.last() + t));
    }
}

/// The pieces of a rendered `.env` are its lines, then an empty piece.
pub proof fn lemma_split_render(l: Seq<(Seq<char>, Seq<char>)>)
    requires
        forall|i: int| 0 <= i < l.len() ==> plain_var(#[trigger] l[i]),
    ensures
        split_on(render_env(l), '\n') == l.map_values(|p: (Seq<char>, Seq<char>)| env_line(p)).push(
            Seq::empty(),
        ),
    decreases l.len(),
{
    if l.len() == 0 {
        assert(split_on(render_env(l), '\n') =~= seq![Seq::<char>::empty()]);
    } else {
        let l1 = l.drop_last();
        let p = l.last();
        assert(forall|i: int| 0 <= i < l1.len() ==> l1[i] == l[i]);
        lemma_split_render(l1);
        assert(plain_var(l[l.len() - 1]));
        let line = env_line(p);
        assert forall|i: int| 0 <= i < line.len() implies line[i] != '\n' by {
            if i < p.0.len() {
            } else if i == p.0.len() {
            } else {
                assert(line[i] == p.1[i - p.0.len() - 1]);
            }
        }
        let x = render_env(l1) + line;
        lemma_split_append_plain(render_env(l1), line, '\n');
        assert(render_env(l) =~= x + seq!['\n']);
        assert((x + seq!['\n']).drop_last() =~= x);
        let m1 = l1.map_values(|q: (Seq<char>, Seq<char>)| env_line(q));
        assert(split_on(x, '\n') =~= m1.push(line));
        assert(l.map_values(|q: (Seq<char>, Seq<char>)| env_line(q)) =~= m1.push(line));
    }
}

/// A plain variable's line declares that variable.
pub proof fn lemma_template_line_of_var(p: (Seq<char>, Seq<char>))
    requires
        plain_var(p),
    ensures
        template_line(env_line(p)) == Some(p),
{
    let line = env_line(p);
    let k = p.0.len() as int;
    assert(line[k] == '=');
    assert(!is_blank(line)) by {
        assert(!is_white(line[k]));
    }
    if line.len() > 0 && line[0] == '#' {
        if k > 0 {
            assert(line[0] == p.0[0]);
        }
    }
    let c = choose|i: int|
        0 <= i < line.len() && line[i] == '=' && forall|j: int| 0 <= j < i ==> line[j] != '=';
    assert forall|j: int| 0 <= j < k implies line[j] != '=' by {
        assert(line[j] == p.0[j]);
    }
    assert(c == k) by {
        if c < k {
            assert(line[c] == p.0[c]);
        } else if c > k {
            assert(line[k] != '=');
        }
    }
    assert(line.take(k) =~= p.0);
    assert(line.skip(k + 1) =~= p.1);
}

/// The declarations of plain variables' lines are those variables.
pub proof fn lemma_entries_of_lines(l: Seq<(Seq<char>, Seq<char>)>)
    requires
        forall|i: int| 0 <= i < l.len() ==> plain_var(#[trigger] l[i]),
    ensures
        template_entries(l.map_values(|p: (Seq<char>, Seq<char>)| env_line(p))) == l,
    decreases l.len(),
{
    if l.len() > 0 {
        let l1 = l.drop_last();
        assert(forall|i: int| 0 <= i < l1.len() ==> l1[i] == l[i]);
        lemma_entries_of_lines(l1);
        assert(plain_var(l[l.len() - 1]));
        lemma_template_line_of_var(l.last());
        let m = l.map_values(|p: (Seq<char>, Seq<char>)| env_line(p));
        assert(m.drop_last() =~= l1.map_values(|p: (Seq<char>, Seq<char>)| env_line(p)));
        assert(l1.push(l.last()) =~= l);
    }
}

/// Reading a written `.env` back as a template gives the variables that were
/// written, in order, as long as each is plain (see `plain_var`).
pub proof fn lemma_env_round_trip(l: Seq<(Seq<char>, Seq<char>)>)
    requires
        forall|i: int| 0 <= i < l.len() ==> plain_var(#[trigger] l[i]),
    ensures
        parse_template(render_env(l)) == l,
{
    lemma_split_render(l);
    let m = l.map_values(|p: (Seq<char>, Seq<char>)| env_line(p));
    let sp = split_on(render_env(l), '\n');
    assert(sp.drop_last() =~= m);
    assert forall|i: int| 0 <= i < m.len() implies strip_cr(#[trigger] m[i]) == m[i] by {
        assert(plain_var(l[i]));
        let p = l[i];
        if p.1.len() > 0 {
            assert(m[i].last() == p.1.last());
        } else {
            assert(m[i].last() == '=');
        }
    }
    assert(lines(render_env(l)) =~= m);
    lemma_entries_of_lines(l);
}

} // verus!
