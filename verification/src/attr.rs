//! The body of a `cons` attribute: a comma-separated list of `key = value`
//! entries, read into an ordered list and queried by key.

use vstd::prelude::*;
use vstd::string::*;
use crate::text::{
    find, find_char, lemma_drop_spaces, lemma_find, lemma_skip_spaces, same_text, skip_spaces,
    strip_parens, trim, trimmed, without_parens,
};

verus! {

/// One `key = value` entry of an attribute body, both sides trimmed.
#[derive(Debug, Clone, PartialEq, Eq)]
pub struct Entry {
    pub key: String,
    pub value: String,
}

impl View for Entry {
    type V = (Seq<char>, Seq<char>);

    open spec fn view(&self) -> (Seq<char>, Seq<char>) {
        (self.key@, self.value@)
    }
}

/// The entries of a list, each by its view.
pub open spec fn entries_view(v: Seq<Entry>) -> Seq<(Seq<char>, Seq<char>)> {
    Seq::new(v.len(), |i: int| v[i]@)
}

/// The key and value of one entry: the text is cut at its first `=`, and
/// each side is trimmed. Without an `=` the whole entry is the key and the
/// value is empty.
pub open spec fn parse_entry(e: Seq<char>) -> (Seq<char>, Seq<char>) {
    let k = find(e, '=', 0);
    if k < e.len() {
        (trim(e.subrange(0, k)), trim(e.subrange(k + 1, e.len() as int)))
    } else {
        (trim(e), Seq::empty())
    }
}

/// The entries of `s[from..]`: one for each piece between commas, in order.
pub open spec fn entries_from(s: Seq<char>, from: int) -> Seq<(Seq<char>, Seq<char>)>
    decreases s.len() - from,
{
    let j = find(s, ',', from);
    if 0 <= from <= j < s.len() {
        seq![parse_entry(s.subrange(from, j))] + entries_from(s, j + 1)
    } else {
        seq![parse_entry(s.subrange(from, s.len() as int))]
    }
}

/// The text between the parentheses of an attribute body, trimmed.
pub open spec fn body_text(tokens: Seq<char>) -> Seq<char> {
    trim(strip_parens(tokens))
}

/// The entries of an attribute body.
pub open spec fn entries(tokens: Seq<char>) -> Seq<(Seq<char>, Seq<char>)> {
    entries_from(body_text(tokens), 0)
}

/// The value that `es` gives to `key`: that of the last entry with this key.
pub open spec fn lookup(es: Seq<(Seq<char>, Seq<char>)>, key: Seq<char>) -> Option<Seq<char>>
    decreases es.len(),
{
    if es.len() == 0 {
        None
    } else if es.last().0 == key {
        Some(es.last().1)
    } else {
        lookup(es.drop_last(), key)
    }
}

/// A key has no value where no entry bears it; otherwise its value is that
/// of an entry that bears it and that no entry with the same key follows.
pub proof fn lemma_lookup(es: Seq<(Seq<char>, Seq<char>)>, key: Seq<char>)
    ensures
        lookup(es, key) is None <==> forall|i: int| 0 <= i < es.len() ==> (#[trigger] es[i]).0 != key,
        lookup(es, key) is Some ==> exists|i: int|
            {
                &&& 0 <= i < es.len()
                &&& #[trigger] es[i] == (key, lookup(es, key)->0)
                &&& forall|j: int| i < j < es.len() ==> (#[trigger] es[j]).0 != key
            },
    decreases es.len(),
{
    if es.len() > 0 {
        let rest = es.drop_last();
        lemma_lookup(rest, key);
        if es.last().0 == key {
            assert(es[es.len() - 1] == (key, lookup(es, key)->0));
        } else {
            assert forall|i: int| 0 <= i < rest.len() implies rest[i] == es[i] by {}
            if lookup(rest, key) is Some {
                let i = choose|i: int|
                    {
                        &&& 0 <= i < rest.len()
                        &&& #[trigger] rest[i] == (key, lookup(rest, key)->0)
                        &&& forall|j: int| i < j < rest.len() ==> (#[trigger] rest[j]).0 != key
                    };
                assert(es[i] == (key, lookup(es, key)->0));
                assert forall|j: int| i < j < es.len() implies (#[trigger] es[j]).0 != key by {
                    if j < rest.len() {
                        assert(rest[j] == es[j]);
                    }
                }
            } else {
                assert forall|i: int| 0 <= i < es.len() implies (#[trigger] es[i]).0 != key by {
                    if i < rest.len() {
                        assert(rest[i] == es[i]);
                    }
                }
            }
        }
    }
}

/// The number of commas in `s[from..]`.
pub open spec fn commas(s: Seq<char>, from: int) -> nat
    decreases s.len() - from,
{
    if 0 <= from < s.len() {
        if s[from] == ',' {
            1 + commas(s, from + 1)
        } else {
            commas(s, from + 1)
        }
    } else {
        0
    }
}

proof fn lemma_commas_before(s: Seq<char>, from: int, j: int)
    requires
        0 <= from <= j <= s.len(),
        forall|k: int| from <= k < j ==> #[trigger] s[k] != ',',
    ensures
        commas(s, from) == commas(s, j),
    decreases j - from,
{
    if from < j {
        lemma_commas_before(s, from + 1, j);
    }
}

/// A key holds no `=`: the entry is cut at its first one.
pub proof fn lemma_key_has_no_equals_sign(e: Seq<char>)
    ensures
        forall|i: int| 0 <= i < parse_entry(e).0.len() ==> #[trigger] parse_entry(e).0[i] != '=',
{
    let k = find(e, '=', 0);
    lemma_find(e, '=', 0);
    let head = if k < e.len() {
        e.subrange(0, k)
    } else {
        e
    };
    assert(e.subrange(0, e.len() as int) =~= e);
    let lo = skip_spaces(head, 0);
    lemma_skip_spaces(head, 0);
    lemma_drop_spaces(head, lo, head.len() as int);
    assert(parse_entry(e).0 == trim(head));
}

/// An attribute body has at least one entry, and one more for each comma of
/// its text.
pub proof fn lemma_entries_count(s: Seq<char>, from: int)
    requires
        0 <= from <= s.len(),
    ensures
        entries_from(s, from).len() == 1 + commas(s, from),
    decreases s.len() - from,
{
    let j = find(s, ',', from);
    lemma_find(s, ',', from);
    lemma_commas_before(s, from, j);
    if j < s.len() {
        lemma_entries_count(s, j + 1);
    }
}

/// Reads one entry.
pub fn read_entry(e: &str) -> (r: Entry)
    ensures
        r@ == parse_entry(e@),
{
    let n: usize = e.unicode_len();
    let k: usize = find_char(e, '=', 0);
    if k < n {
        let key = trimmed(e.substring_char(0, k));
        let value = trimmed(e.substring_char(k + 1, n));
        Entry { key: String::from_str(key), value: String::from_str(value) }
    } else {
        Entry { key: String::from_str(trimmed(e)), value: String::new() }
    }
}

/// Reads the body of an attribute into its entries, in the order written.
pub fn read_entries(tokens: &str) -> (r: Vec<Entry>)
    ensures
        entries_view(r@) == entries(tokens@),
{
    let body = trimmed(without_parens(tokens));
    let n: usize = body.unicode_len();
    let mut out: Vec<Entry> = Vec::new();
    let mut from: usize = 0;
    loop
        invariant
            n == body@.len(),
            body@ == body_text(tokens@),
            from <= n,
            entries(tokens@) == entries_view(out@) + entries_from(body@, from as int),
        decreases n - from,
    {
        let j: usize = find_char(body, ',', from);
        let ghost before = entries_view(out@);
        if j < n {
            out.push(read_entry(body.substring_char(from, j)));
            assert(entries_view(out@) =~= before + seq![parse_entry(body@.subrange(from as int, j as int))]);
            assert(entries(tokens@) =~= entries_view(out@) + entries_from(body@, j + 1));
            from = j + 1;
        } else {
            out.push(read_entry(body.substring_char(from, n)));
            assert(entries_view(out@) =~= before + seq![parse_entry(body@.subrange(from as int, n as int))]);
            assert(entries(tokens@) =~= entries_view(out@));
            return out;
        }
    }
}

/// Looks `key` up in `es`: the value of the last entry with this key.
pub fn get(es: &Vec<Entry>, key: &str) -> (r: Option<String>)
    ensures
        lookup(entries_view(es@), key@) == match r {
            Some(s) => Some(s@),
            None => None,
        },
{
    let ghost all = entries_view(es@);
    let mut found: Option<String> = None;
    let mut i: usize = 0;
    while i < es.len()
        invariant
            i <= es.len(),
            all == entries_view(es@),
            found is Some == lookup(all.take(i as int), key@) is Some,
            found is Some ==> lookup(all.take(i as int), key@) == Some(found->0@),
        decreases es.len() - i,
    {
        assert(all.take(i + 1).drop_last() =~= all.take(i as int));
        assert(all.take(i + 1).last() == es@[i as int]@);
        if same_text(es[i].key.as_str(), key) {
            found = Some(es[i].value.clone());
        }
        i += 1;
    }
    assert(all.take(i as int) =~= all);
    found
}

} // verus!
