//! What holds of the library across its functions.
use vstd::prelude::*;
use crate::parts::accepted_parts;
use crate::path::{as_text, display_of, is_empty_path, joined, merge_base, path_of, query_of, slash};
use crate::uri::path_and_query_display;
use crate::scheme::{is_http_name, Scheme};
use crate::text::{
    char_eq_ignore_ascii_case, eq_ignore_ascii_case, has_no_ascii_upper,
    law_eq_ignore_ascii_case_lower, first_index_of, is_first_index, is_last_index, last_index_of, lemma_first_index_of, lemma_last_index_of};

verus! {

/// Joining anything onto the empty path, or onto `/`, gives it unchanged.
pub proof fn law_join_onto_empty_path(reference: Seq<char>)
    ensures
        joined(Seq::empty(), reference) == reference,
        joined(slash(), reference) == reference,
{
}

/// Joining the empty path, or `/`, onto a path gives that path's text back.
pub proof fn law_join_empty_reference(base: Seq<char>, reference: Seq<char>)
    requires
        is_empty_path(reference),
    ensures
        as_text(joined(base, reference)) == as_text(base),
{
}

/// Where the base path ends with `/`, the reference is appended after it (its
/// leading `/` standing in for the base's last one).
pub proof fn law_join_onto_directory(base: Seq<char>, reference: Seq<char>)
    requires
        base.len() > 0,
        base.last() == '/',
        base != slash(),
        !is_empty_path(reference),
    ensures
        joined(base, reference) == base.drop_last() + reference,
{
    lemma_last_index_of(base, '/');
    assert(last_index_of(base, '/') == Some(base.len() - 1));
}

/// Where the base path does not end with `/`, its last segment is replaced by
/// the reference.
pub proof fn law_join_replaces_last_segment(base: Seq<char>, reference: Seq<char>, i: int)
    requires
        is_last_index(base, '/', i),
        i < base.len() - 1,
        !is_empty_path(reference),
    ensures
        joined(base, reference) == base.take(i) + reference,
{
    lemma_last_index_of(base, '/');
    match last_index_of(base, '/') {
        Some(k) => {
            assert(k == i);
        },
        None => {
            assert(base.contains('/'));
        },
    }
}

proof fn lemma_first_index_after(prefix: Seq<char>, rest: Seq<char>, c: char)
    requires
        !prefix.contains(c),
    ensures
        match first_index_of(rest, c) {
            Some(j) => first_index_of(prefix + rest, c) == Some(prefix.len() + j),
            None => first_index_of(prefix + rest, c) is None,
        },
{
    let all = prefix + rest;
    lemma_first_index_of(rest, c);
    lemma_first_index_of(all, c);
    match first_index_of(rest, c) {
        Some(j) => {
            let k = prefix.len() + j;
            assert(all[k] == c);
            match first_index_of(all, c) {
                Some(m) => {
                    if m < prefix.len() {
                        assert(prefix[m] == c);
                    } else if m < k {
                        assert(rest[m - prefix.len()] == c);
                    } else if m > k {
                        assert(all[k] == c);
                    }
                },
                None => {
                    assert(all.contains(c));
                },
            }
        },
        None => {
            match first_index_of(all, c) {
                Some(m) => {
                    if m < prefix.len() {
                        assert(prefix[m] == c);
                    } else {
                        assert(rest[m - prefix.len()] == c);
                        assert(rest.contains(c));
                    }
                },
                None => {},
            }
        },
    }
}

/// Joining a path-and-query onto a base path (which has no query) keeps the
/// reference's query: the result has a query exactly where the reference has
/// one, and the same one.
pub proof fn law_join_keeps_query(base: Seq<char>, reference: Seq<char>)
    requires
        query_of(base) is None,
    ensures
        query_of(joined(base, reference)) == query_of(reference),
{
    lemma_first_index_of(base, '?');
    lemma_first_index_of(reference, '?');
    lemma_first_index_of(slash(), '?');
    lemma_first_index_of(Seq::<char>::empty(), '?');
    assert(!slash().contains('?')) by {
        if slash().contains('?') {
            let k = choose|k: int| 0 <= k < slash().len() && slash()[k] == '?';
            assert(slash()[0] == '/');
        }
    }
    if is_empty_path(reference) {
        assert(reference.len() == 0 || reference == slash());
    }
    if !is_empty_path(base) && !is_empty_path(reference) {
        let prefix = merge_base(base);
        lemma_last_index_of(base, '/');
        assert(!prefix.contains('?')) by {
            if prefix.contains('?') {
                let k = choose|k: int| 0 <= k < prefix.len() && prefix[k] == '?';
                assert(base[k] == '?');
            }
        }
        lemma_first_index_after(prefix, reference, '?');
        match first_index_of(reference, '?') {
            Some(j) => {
                assert((prefix + reference).skip(prefix.len() + j + 1) =~= reference.skip(j + 1));
            },
            None => {},
        }
    }
}

/// The parts that a base URI gives back are accepted again, as the same URI:
/// from a `Uri` to the parts of any URI and back is the identity.
pub proof fn law_parts_round_trip(scheme: Seq<char>, authority: Seq<char>, path: Seq<char>)
    requires
        is_http_name(scheme),
        query_of(path) is None,
    ensures
        accepted_parts((Some(scheme), Some(authority), Some(path))) == Some((scheme, authority, path)),
{
}

/// A scheme's name is accepted again as that scheme.
pub proof fn law_scheme_round_trip(scheme: Scheme)
    ensures
        is_http_name(scheme@),
        Scheme::parse_outcome(Some(scheme@), Ok(scheme)),
{
}

/// A scheme is determined by its name.
pub proof fn law_scheme_determined_by_name(a: Scheme, b: Scheme)
    ensures
        a@ == b@ <==> a == b,
{
    assert(crate::scheme::http_name().len() == 4);
    assert(crate::scheme::https_name().len() == 5);
}

/// A scheme matches a name up to ASCII case only where the name has the
/// scheme's length; a name without upper-case letters matches exactly where it
/// is the scheme's name.
pub proof fn law_scheme_matches_name(scheme: Scheme, name: Seq<char>)
    ensures
        eq_ignore_ascii_case(scheme@, name) ==> name.len() == scheme@.len(),
        has_no_ascii_upper(name) ==> (eq_ignore_ascii_case(scheme@, name) <==> name == scheme@),
{
    let s = scheme@;
    assert(has_no_ascii_upper(s)) by {
        assert forall|i: int| 0 <= i < s.len() implies !crate::text::is_ascii_upper(#[trigger] s[i]) by {
            assert(s[i] == 'h' || s[i] == 't' || s[i] == 'p' || s[i] == 's');
        }
    }
    if has_no_ascii_upper(name) {
        law_eq_ignore_ascii_case_lower(s, name);
    }
}

/// The query of a path-and-query is exactly what follows its first `?`,
/// character for character: the text is what comes before that `?`, the `?`,
/// and the query. Without a `?` there is no query.
pub proof fn law_query_follows_first_mark(text: Seq<char>, i: int)
    requires
        is_first_index(text, '?', i),
    ensures
        query_of(text) matches Some(q) && text == text.take(i) + seq!['?'] + q,
{
    lemma_first_index_of(text, '?');
    match first_index_of(text, '?') {
        Some(k) => {
            if k < i {
                assert(text[k] == '?');
            } else if k > i {
                assert(text[i] == '?');
            }
            assert(text =~= text.take(i) + seq!['?'] + text.skip(i + 1));
        },
        None => {
            assert(text.contains('?'));
        },
    }
}

/// A path-and-query without `?` has no query.
pub proof fn law_no_mark_no_query(text: Seq<char>)
    requires
        !text.contains('?'),
    ensures
        query_of(text) is None,
{
    lemma_first_index_of(text, '?');
}

/// A path-and-query is displayed as its text itself where that starts with `/`
/// or `*`, and with one `/` put in front otherwise: the text always ends the
/// display, and at most one character comes before it.
pub proof fn law_display_keeps_text(text: Seq<char>)
    ensures
        display_of(text).len() == text.len() || display_of(text).len() == text.len() + 1,
        display_of(text).skip(display_of(text).len() - text.len()) == text,
        text.len() > 0 && (text[0] == '/' || text[0] == '*') ==> display_of(text) == text,
        display_of(text)[0] == '/' || display_of(text)[0] == '*',
{
    if !(text.len() > 0 && (text[0] == '/' || text[0] == '*')) {
        assert((slash() + text).skip(1) =~= text);
    } else {
        assert(text.skip(0) =~= text);
    }
}

/// A URI's path-and-query that starts with `/` is written as it is, path and
/// query alike.
pub proof fn law_uri_path_and_query_written_as_is(text: Seq<char>)
    requires
        text.len() > 0,
        text[0] == '/',
    ensures
        path_and_query_display(text) == text,
{
    lemma_first_index_of(text, '?');
    match first_index_of(text, '?') {
        Some(i) => {
            assert(i != 0);
            assert(path_of(text) == text.take(i));
            assert(text =~= text.take(i) + seq!['?'] + text.skip(i + 1));
        },
        None => {},
    }
}

/// Joining keeps the reference as it is, at the end of the result; and where
/// the base path and the reference both start with `/`, so does the result,
/// which a URI then writes as it is.
pub proof fn law_join_keeps_reference(base: Seq<char>, reference: Seq<char>)
    requires
        !is_empty_path(reference),
    ensures
        joined(base, reference).len() >= reference.len(),
        joined(base, reference).skip(joined(base, reference).len() - reference.len()) == reference,
        base.len() > 0 && base[0] == '/' && reference[0] == '/' ==> {
            &&& joined(base, reference)[0] == '/'
            &&& path_and_query_display(joined(base, reference)) == joined(base, reference)
        },
{
    let res = joined(base, reference);
    assert(reference.len() > 0);
    if is_empty_path(base) {
        assert(res.skip(0) =~= reference);
    } else {
        let prefix = merge_base(base);
        assert(res.skip(prefix.len() as int) =~= reference);
        lemma_last_index_of(base, '/');
        if base.len() > 0 && base[0] == '/' && reference[0] == '/' {
            if prefix.len() > 0 {
                assert(res[0] == base[0]);
            }
        }
    }
    if base.len() > 0 && base[0] == '/' && reference[0] == '/' {
        law_uri_path_and_query_written_as_is(res);
    }
}

/// A path that is empty (`/`) ends with a slash.
pub proof fn law_empty_path_ends_with_slash(path: Seq<char>)
    requires
        path == slash(),
    ensures
        path.len() > 0 && path.last() == '/',
{
}

} // verus!
