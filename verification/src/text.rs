//! Text helpers shared by the filter: white space, trimming and prefix tests,
//! stated over sequences of characters.
use vstd::prelude::*;
use vstd::std_specs::iter::IteratorSpec;
use vstd::string::*;
use vstd::utf8::*;

verus! {

/// The characters that carry the Unicode `White_Space` property.
pub open spec fn is_white_space(c: char) -> bool {
    let u = c as u32;
    ||| 0x09 <= u <= 0x0d
    ||| u == 0x20
    ||| u == 0x85
    ||| u == 0xa0
    ||| u == 0x1680
    ||| 0x2000 <= u <= 0x200a
    ||| u == 0x2028
    ||| u == 0x2029
    ||| u == 0x202f
    ||| u == 0x205f
    ||| u == 0x3000
}

/// True when every character of `s` is white space; the empty text is blank.
pub open spec fn is_blank(s: Seq<char>) -> bool {
    forall|i: int| 0 <= i < s.len() ==> is_white_space(#[trigger] s[i])
}

/// `s` without its leading white space.
pub open spec fn trim_start(s: Seq<char>) -> Seq<char>
    decreases s.len(),
{
    if s.len() > 0 && is_white_space(s[0]) {
        trim_start(s.drop_first())
    } else {
        s
    }
}

/// `s` without its trailing white space.
pub open spec fn trim_end(s: Seq<char>) -> Seq<char>
    decreases s.len(),
{
    if s.len() > 0 && is_white_space(s.last()) {
        trim_end(s.drop_last())
    } else {
        s
    }
}

/// `s` without leading and trailing white space.
pub open spec fn trimmed(s: Seq<char>) -> Seq<char> {
    trim_end(trim_start(s))
}

/// Skipping a run of white space at the front is what `trim_start` does.
pub proof fn lemma_trim_start_skips(s: Seq<char>, a: int)
    requires
        0 <= a <= s.len(),
        is_blank(s.take(a)),
        a < s.len() ==> !is_white_space(s[a]),
    ensures
        trim_start(s) == s.skip(a),
    decreases a,
{
    if a == 0 {
        assert(s.skip(0) =~= s);
    } else {
        assert(s.take(a)[0] == s[0]);
        let rest = s.drop_first();
        assert forall|i: int| 0 <= i < rest.take(a - 1).len() implies is_white_space(
            #[trigger] rest.take(a - 1)[i],
        ) by {
            assert(rest.take(a - 1)[i] == s.take(a)[i + 1]);
        }
        lemma_trim_start_skips(rest, a - 1);
        assert(rest.skip(a - 1) =~= s.skip(a));
    }
}

/// Dropping a run of white space at the back is what `trim_end` does.
pub proof fn lemma_trim_end_takes(s: Seq<char>, b: int)
    requires
        0 <= b <= s.len(),
        is_blank(s.skip(b)),
        0 < b ==> !is_white_space(s[b - 1]),
    ensures
        trim_end(s) == s.take(b),
    decreases s.len() - b,
{
    if b == s.len() {
        assert(s.take(b) =~= s);
    } else {
        assert(s.skip(b)[s.len() - b - 1] == s.last());
        let rest = s.drop_last();
        assert forall|i: int| 0 <= i < rest.skip(b).len() implies is_white_space(
            #[trigger] rest.skip(b)[i],
        ) by {
            assert(rest.skip(b)[i] == s.skip(b)[i]);
        }
        lemma_trim_end_takes(rest, b);
        assert(rest.take(b) =~= s.take(b));
    }
}

/// A text trims to nothing exactly when it is blank.
pub proof fn lemma_trimmed_empty_iff_blank(s: Seq<char>)
    ensures
        trimmed(s).len() == 0 <==> is_blank(s),
    decreases s.len(),
{
    if s.len() > 0 && is_white_space(s[0]) {
        let rest = s.drop_first();
        lemma_trimmed_empty_iff_blank(rest);
        if is_blank(rest) {
            assert forall|i: int| 0 <= i < s.len() implies is_white_space(#[trigger] s[i]) by {
                if i > 0 {
                    assert(s[i] == rest[i - 1]);
                }
            }
        }
        if is_blank(s) {
            assert forall|i: int| 0 <= i < rest.len() implies is_white_space(
                #[trigger] rest[i],
            ) by {
                assert(rest[i] == s[i + 1]);
            }
        }
    } else if s.len() > 0 {
        lemma_trim_end_keeps_head(s);
    } else {
    }
}

/// `trim_end` never removes a first character that is not white space.
proof fn lemma_trim_end_keeps_head(s: Seq<char>)
    requires
        s.len() > 0,
        !is_white_space(s[0]),
    ensures
        trim_end(s).len() > 0,
    decreases s.len(),
{
    if is_white_space(s.last()) {
        let rest = s.drop_last();
        assert(s.len() > 1);
        assert(rest[0] == s[0]);
        lemma_trim_end_keeps_head(rest);
    }
}

/// A text that may be absent, as plain values.
pub open spec fn text_of(text: Option<&str>) -> Option<Seq<char>> {
    match text {
        Some(text) => Some(text@),
        None => None,
    }
}

/// Tells whether `c` is white space.
pub fn char_is_white_space(c: char) -> (b: bool)
    ensures
        b == is_white_space(c),
{
    let u: u32 = c as u32;
    (0x09 <= u && u <= 0x0d) || u == 0x20 || u == 0x85 || u == 0xa0 || u == 0x1680 || (0x2000 <= u
        && u <= 0x200a) || u == 0x2028 || u == 0x2029 || u == 0x202f || u == 0x205f || u == 0x3000
}

/// Returns `s` without its leading and trailing white space.
pub fn trim(s: &str) -> (t: &str)
    ensures
        t@ == trimmed(s@),
{
    broadcast use vstd::string::group_string_axioms;

    let total: usize = s.unicode_len();
    let mut it = s.chars();
    let mut seen: usize = 0;
    // `first` is where the kept part begins, `end` one past where it ends.
    let mut first: usize = 0;
    let mut end: usize = 0;
    let mut found: bool = false;
    loop
        invariant
            total == s@.len(),
            seen <= total,
            it.remaining() == s@.skip(seen as int),
            !found ==> first == seen && end == seen && is_blank(s@.take(seen as int)),
            found ==> first < end <= seen,
            found ==> is_blank(s@.take(first as int)),
            found ==> !is_white_space(s@[first as int]),
            found ==> !is_white_space(s@[end - 1]),
            found ==> is_blank(s@.subrange(end as int, seen as int)),
        ensures
            seen == total,
            !found ==> first == seen && end == seen && is_blank(s@.take(seen as int)),
            found ==> first < end <= seen,
            found ==> is_blank(s@.take(first as int)),
            found ==> !is_white_space(s@[first as int]),
            found ==> !is_white_space(s@[end - 1]),
            found ==> is_blank(s@.subrange(end as int, seen as int)),
        decreases total - seen,
    {
        match it.next() {
            Some(c) => {
                assert(c == s@[seen as int]);
                let white = char_is_white_space(c);
                proof {
                    let ghost_seen = seen as int;
                    if !found && white {
                        assert forall|i: int| 0 <= i < s@.take(ghost_seen + 1).len() implies is_white_space(
                            #[trigger] s@.take(ghost_seen + 1)[i],
                        ) by {
                            if i < ghost_seen {
                                assert(s@.take(ghost_seen + 1)[i] == s@.take(ghost_seen)[i]);
                            }
                        }
                    }
                    if found && white {
                        assert forall|i: int|
                            0 <= i < s@.subrange(end as int, ghost_seen + 1).len() implies is_white_space(
                            #[trigger] s@.subrange(end as int, ghost_seen + 1)[i],
                        ) by {
                            if end + i < ghost_seen {
                                assert(s@.subrange(end as int, ghost_seen + 1)[i] == s@.subrange(
                                    end as int,
                                    ghost_seen,
                                )[i]);
                            }
                        }
                    }
                }
                if !white {
                    if !found {
                        found = true;
                        first = seen;
                    }
                    end = seen + 1;
                } else if !found {
                    first = seen + 1;
                    end = seen + 1;
                }
                seen = seen + 1;
            },
            None => {
                break ;
            },
        }
    }
    proof {
        let a = first as int;
        let b = end as int;
        lemma_trim_start_skips(s@, a);
        let rest = s@.skip(a);
        assert forall|i: int| 0 <= i < rest.skip(b - a).len() implies is_white_space(
            #[trigger] rest.skip(b - a)[i],
        ) by {
            if found {
                assert(rest.skip(b - a)[i] == s@.subrange(b, total as int)[i]);
            }
        }
        if a < b {
            assert(rest[b - a - 1] == s@[b - 1]);
        }
        lemma_trim_end_takes(rest, b - a);
        assert(rest.take(b - a) =~= s@.subrange(a, b));
    }
    s.substring_char(first, end)
}

/// Tells whether `s` begins with `prefix`, character by character.
pub fn starts_with(s: &str, prefix: &str) -> (b: bool)
    ensures
        b == prefix@.is_prefix_of(s@),
{
    broadcast use vstd::string::group_string_axioms;

    let wanted: usize = prefix.unicode_len();
    let mut want = prefix.chars();
    let mut have = s.chars();
    let mut seen: usize = 0;
    loop
        invariant
            wanted == prefix@.len(),
            seen <= wanted,
            seen <= s@.len(),
            want.remaining() == prefix@.skip(seen as int),
            have.remaining() == s@.skip(seen as int),
            prefix@.take(seen as int) == s@.take(seen as int),
        ensures
            seen == wanted,
            seen <= s@.len(),
            prefix@.take(seen as int) == s@.take(seen as int),
        decreases wanted - seen,
    {
        match want.next() {
            Some(p) => {
                assert(p == prefix@[seen as int]);
                match have.next() {
                    Some(c) => {
                        assert(c == s@[seen as int]);
                        if c != p {
                            assert(!prefix@.is_prefix_of(s@)) by {
                                if prefix@.is_prefix_of(s@) {
                                    assert(s@.subrange(0, prefix@.len() as int)[seen as int]
                                        == prefix@[seen as int]);
                                }
                            }
                            return false;
                        }
                        assert(prefix@.take(seen + 1) =~= prefix@.take(seen as int).push(p));
                        assert(s@.take(seen + 1) =~= s@.take(seen as int).push(c));
                        seen = seen + 1;
                    },
                    None => {
                        assert(s@.len() == seen);
                        return false;
                    },
                }
            },
            None => {
                break ;
            },
        }
    }
    assert(prefix@.take(seen as int) =~= prefix@);
    assert(s@.take(seen as int) =~= s@.subrange(0, prefix@.len() as int));
    true
}

/// Decodes `bytes` as UTF-8 through `core::str::from_utf8`: the text is
/// returned exactly when the bytes are well-formed UTF-8, and it is then the
/// text that they encode.
#[verifier::external_body]
pub(crate) fn utf8_text(bytes: &[u8]) -> (r: Option<&str>)
    ensures
        r is Some <==> valid_utf8(bytes@),
        r matches Some(s) ==> s@ == decode_utf8(bytes@),
{
    core::str::from_utf8(bytes).ok()
}

} // verus!
