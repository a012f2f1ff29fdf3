//! Matching a name fragment against identifiers.
//!
//! A service is asked for by a fragment of its name; its canonical identifier
//! is whatever the cluster lists first that holds the fragment as a substring.

use vstd::prelude::*;

verus! {

/// `needle` stands in `hay` at position `at`.
pub open spec fn occurs_at(needle: Seq<char>, hay: Seq<char>, at: int) -> bool {
    &&& 0 <= at
    &&& at + needle.len() <= hay.len()
    &&& hay.subrange(at, at + needle.len()) == needle
}

/// `needle` is a substring of `hay`.
pub open spec fn occurs_in(needle: Seq<char>, hay: Seq<char>) -> bool {
    exists|at: int| occurs_at(needle, hay, at)
}

/// The first of `names`, in order, that holds `needle` as a substring.
pub open spec fn first_match(names: Seq<Seq<char>>, needle: Seq<char>) -> Option<Seq<char>>
    decreases names.len(),
{
    if names.len() == 0 {
        None
    } else if occurs_in(needle, names[0]) {
        Some(names[0])
    } else {
        first_match(names.drop_first(), needle)
    }
}

/// `first_match` by positions: it is the name at the least matching index,
/// and there is none exactly when no name matches.
pub proof fn lemma_first_match(names: Seq<Seq<char>>, needle: Seq<char>)
    ensures
        match first_match(names, needle) {
            Some(name) => exists|i: int|
                0 <= i < names.len() && names[i] == name && occurs_in(needle, names[i]) && forall|j: int|
                    0 <= j < i ==> !occurs_in(needle, #[trigger] names[j]),
            None => forall|j: int| 0 <= j < names.len() ==> !occurs_in(needle, #[trigger] names[j]),
        },
    decreases names.len(),
{
    if names.len() == 0 {
    } else if occurs_in(needle, names[0]) {
        assert(forall|j: int| 0 <= j < 0 ==> !occurs_in(needle, #[trigger] names[j]));
    } else {
        let rest = names.drop_first();
        lemma_first_match(rest, needle);
        assert(forall|j: int| 0 <= j < rest.len() ==> rest[j] == names[j + 1]);
        match first_match(rest, needle) {
            Some(name) => {
                let i = choose|i: int|
                    0 <= i < rest.len() && rest[i] == name && occurs_in(needle, rest[i]) && forall|j: int|
                        0 <= j < i ==> !occurs_in(needle, #[trigger] rest[j]);
                assert forall|j: int| 0 <= j < i + 1 implies !occurs_in(needle, #[trigger] names[j]) by {
                    if j > 0 {
                        assert(names[j] == rest[j - 1]);
                    }
                }
                assert(names[i + 1] == name);
            },
            None => {
                assert forall|j: int| 0 <= j < names.len() implies !occurs_in(
                    needle,
                    #[trigger] names[j],
                ) by {
                    if j > 0 {
                        assert(names[j] == rest[j - 1]);
                    }
                }
            },
        }
    }
}

/// Nothing before position `from` matches: the first match lies in the rest.
proof fn lemma_first_match_skip(names: Seq<Seq<char>>, needle: Seq<char>, from: int)
    requires
        0 <= from < names.len(),
        first_match(names, needle) == first_match(names.skip(from), needle),
        !occurs_in(needle, names[from]),
    ensures
        first_match(names, needle) == first_match(names.skip(from + 1), needle),
{
    assert(names.skip(from).drop_first() =~= names.skip(from + 1));
}

/// The characters of a string slice, in order.
fn chars_of(text: &str) -> (chars: Vec<char>)
    ensures
        chars@ == text@,
{
    let mut chars: Vec<char> = Vec::new();
    for c in it: text.chars()
        invariant
            chars@ == it.seq().take(it.index() as int),
    {
        chars.push(c);
    }
    chars
}

/// Whether `needle` stands in `hay` at position `at`.
fn stands_at(needle: &Vec<char>, hay: &Vec<char>, at: usize) -> (yes: bool)
    ensures
        yes == occurs_at(needle@, hay@, at as int),
{
    if needle.len() > hay.len() || at > hay.len() - needle.len() {
        return false;
    }
    let mut k: usize = 0;
    while k < needle.len()
        invariant
            k <= needle.len(),
            at + needle.len() <= hay.len(),
            forall|j: int| 0 <= j < k ==> hay@[at + j] == needle@[j],
        decreases needle.len() - k,
    {
        if hay[at + k] != needle[k] {
            assert(hay@.subrange(at as int, at + needle.len())[k as int] != needle@[k as int]);
            return false;
        }
        k += 1;
    }
    assert(hay@.subrange(at as int, at + needle.len()) =~= needle@);
    true
}

/// Whether `needle` is a substring of `hay`.
fn occurs(needle: &Vec<char>, hay: &Vec<char>) -> (yes: bool)
    ensures
        yes == occurs_in(needle@, hay@),
{
    if needle.len() > hay.len() {
        return false;
    }
    let last: usize = hay.len() - needle.len();
    let mut at: usize = 0;
    while at <= last
        invariant
            at <= last + 1,
            last == hay.len() - needle.len(),
            needle.len() <= hay.len(),
            forall|s: int| 0 <= s < at ==> !occurs_at(needle@, hay@, s),
        decreases last + 1 - at,
    {
        if stands_at(needle, hay, at) {
            return true;
        }
        if at == last {
            assert(forall|s: int| !occurs_at(needle@, hay@, s));
            return false;
        }
        at += 1;
    }
    false
}

/// Whether `needle` is a substring of `hay`.
pub fn contains(hay: &str, needle: &str) -> (yes: bool)
    ensures
        yes == occurs_in(needle@, hay@),
{
    let needle_chars = chars_of(needle);
    let hay_chars = chars_of(hay);
    occurs(&needle_chars, &hay_chars)
}

/// The first of `names`, in order, that holds `needle` as a substring.
pub fn find_first(names: &Vec<String>, needle: &str) -> (found: Option<String>)
    ensures
        found.deep_view() == first_match(names.deep_view(), needle@),
{
    let mut i: usize = 0;
    assert(names.deep_view().skip(0) =~= names.deep_view());
    while i < names.len()
        invariant
            i <= names.len(),
            first_match(names.deep_view(), needle@) == first_match(
                names.deep_view().skip(i as int),
                needle@,
            ),
        decreases names.len() - i,
    {
        if contains(names[i].as_str(), needle) {
            return Some(names[i].clone());
        }
        proof {
            lemma_first_match_skip(names.deep_view(), needle@, i as int);
        }
        i += 1;
    }
    None
}

} // verus!
