//! Derives the cache lookup key from a service identity of the form
//! `service.namespace.<rest>`.
use vstd::prelude::*;
use vstd::std_specs::iter::IteratorSpec;
use vstd::string::*;

verus! {

/// The character that separates the parts of a service identity.
pub const SEPARATOR: char = '.';

/// The character between namespace and service in a key.
pub const KEY_JOINT: char = '/';

/// The index of the first `sep` in `s`, or the length of `s` when it has none.
pub open spec fn first_index(s: Seq<char>, sep: char) -> int
    decreases s.len(),
{
    if s.len() == 0 || s[0] == sep {
        0
    } else {
        1 + first_index(s.drop_first(), sep)
    }
}

/// The parts of `s` between occurrences of `sep`; a text without `sep` is its
/// own single part.
pub open spec fn split(s: Seq<char>, sep: char) -> Seq<Seq<char>>
    decreases s.len(),
{
    let i = first_index(s, sep);
    if 0 <= i < s.len() {
        seq![s.take(i)] + split(s.skip(i + 1), sep)
    } else {
        seq![s]
    }
}

/// The key `namespace/service` of a host `service.namespace.<rest>`, and the
/// empty key for a host with fewer than two parts.
pub open spec fn resolved_key(host: Seq<char>) -> Seq<char> {
    let tokens = split(host, SEPARATOR);
    if tokens.len() < 2 {
        Seq::empty()
    } else {
        tokens[1] + seq![KEY_JOINT] + tokens[0]
    }
}

/// `first_index` is the place before which no `sep` occurs and at which one
/// does, unless the text ends there.
pub proof fn lemma_first_index(s: Seq<char>, sep: char, i: int)
    requires
        0 <= i <= s.len(),
        forall|k: int| 0 <= k < i ==> s[k] != sep,
        i < s.len() ==> s[i] == sep,
    ensures
        first_index(s, sep) == i,
    decreases i,
{
    if i > 0 {
        let rest = s.drop_first();
        assert forall|k: int| 0 <= k < i - 1 implies rest[k] != sep by {
            assert(rest[k] == s[k + 1]);
        }
        lemma_first_index(rest, sep, i - 1);
    }
}

/// A host without a separator has the empty key.
pub proof fn lemma_single_token_has_no_key(host: Seq<char>)
    requires
        !host.contains(SEPARATOR),
    ensures
        resolved_key(host) == Seq::<char>::empty(),
{
    assert forall|k: int| 0 <= k < host.len() implies host[k] != SEPARATOR by {
        if host[k] == SEPARATOR {
            assert(host.contains(SEPARATOR));
        }
    }
    lemma_first_index(host, SEPARATOR, host.len() as int);
}

/// Derives the lookup key from `host`: the second part, a slash, the first
/// part. A host with fewer than two parts gives the empty key.
pub fn resolve(host: &str) -> (key: String)
    ensures
        key@ == resolved_key(host@),
{
    broadcast use vstd::string::group_string_axioms;

    let total: usize = host.unicode_len();
    let mut it = host.chars();
    let mut seen: usize = 0;
    // Where the first separator is, once one was seen.
    let mut first_at: Option<usize> = None;
    // Where the second part ends: at the second separator or at the end.
    let mut second_end: usize = 0;
    let mut closed: bool = false;
    loop
        invariant
            total == host@.len(),
            seen <= total,
            it.remaining() == host@.skip(seen as int),
            first_at is None ==> !closed && forall|k: int| 0 <= k < seen ==> host@[k] != SEPARATOR,
            first_at matches Some(i) ==> {
                &&& i < seen
                &&& host@[i as int] == SEPARATOR
                &&& forall|k: int| 0 <= k < i ==> host@[k] != SEPARATOR
                &&& !closed ==> forall|k: int| i < k < seen ==> host@[k] != SEPARATOR
                &&& closed ==> {
                    &&& i < second_end < seen
                    &&& host@[second_end as int] == SEPARATOR
                    &&& forall|k: int| i < k < second_end ==> host@[k] != SEPARATOR
                }
            },
        ensures
            seen == total,
            first_at is None ==> !closed && forall|k: int| 0 <= k < seen ==> host@[k] != SEPARATOR,
            first_at matches Some(i) ==> {
                &&& i < seen
                &&& host@[i as int] == SEPARATOR
                &&& forall|k: int| 0 <= k < i ==> host@[k] != SEPARATOR
                &&& !closed ==> forall|k: int| i < k < seen ==> host@[k] != SEPARATOR
                &&& closed ==> {
                    &&& i < second_end < seen
                    &&& host@[second_end as int] == SEPARATOR
                    &&& forall|k: int| i < k < second_end ==> host@[k] != SEPARATOR
                }
            },
        decreases total - seen,
    {
        match it.next() {
            Some(c) => {
                assert(c == host@[seen as int]);
                if c == SEPARATOR && !closed {
                    match first_at {
                        None => {
                            first_at = Some(seen);
                        },
                        Some(_) => {
                            second_end = seen;
                            closed = true;
                        },
                    }
                }
                seen = seen + 1;
            },
            None => {
                break ;
            },
        }
    }
    match first_at {
        None => {
            proof {
                lemma_first_index(host@, SEPARATOR, total as int);
            }
            String::new()
        },
        Some(i) => {
            if !closed {
                second_end = total;
            }
            let service = host.substring_char(0, i);
            let namespace = host.substring_char(i + 1, second_end);
            proof {
                let rest = host@.skip(i + 1);
                let j = second_end - i - 1;
                lemma_first_index(host@, SEPARATOR, i as int);
                assert forall|k: int| 0 <= k < j implies rest[k] != SEPARATOR by {
                    assert(rest[k] == host@[i + 1 + k]);
                }
                lemma_first_index(rest, SEPARATOR, j);
                assert(split(host@, SEPARATOR) == seq![host@.take(i as int)] + split(
                    rest,
                    SEPARATOR,
                ));
                assert(split(rest, SEPARATOR).len() >= 1);
                assert(split(rest, SEPARATOR)[0] == rest.take(j));
                assert(rest.take(j) =~= host@.subrange(i + 1, second_end as int));
                assert(host@.take(i as int) =~= host@.subrange(0, i as int));
                reveal_strlit("/");
                assert("/"@ =~= seq![KEY_JOINT]);
            }
            String::from_str(namespace).concat("/").concat(service)
        },
    }
}

} // verus!
