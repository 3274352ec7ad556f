//! Character-sequence helpers shared by the URI components.
use vstd::prelude::*;
use vstd::string::*;

verus! {

/// Index of the first occurrence of `c` in `s`, if any.
pub open spec fn first_index_of(s: Seq<char>, c: char) -> Option<int>
    decreases s.len(),
{
    if s.len() == 0 {
        None
    } else if s[0] == c {
        Some(0)
    } else {
        match first_index_of(s.drop_first(), c) {
            Some(i) => Some(i + 1),
            None => None,
        }
    }
}

/// Index of the last occurrence of `c` in `s`, if any.
pub open spec fn last_index_of(s: Seq<char>, c: char) -> Option<int>
    decreases s.len(),
{
    if s.len() == 0 {
        None
    } else if s.last() == c {
        Some(s.len() - 1)
    } else {
        last_index_of(s.drop_last(), c)
    }
}

/// `i` is the position of the first `c` in `s`.
pub open spec fn is_first_index(s: Seq<char>, c: char, i: int) -> bool {
    &&& 0 <= i < s.len()
    &&& s[i] == c
    &&& forall|j: int| 0 <= j < i ==> s[j] != c
}

/// `i` is the position of the last `c` in `s`.
pub open spec fn is_last_index(s: Seq<char>, c: char, i: int) -> bool {
    &&& 0 <= i < s.len()
    &&& s[i] == c
    &&& forall|j: int| i < j < s.len() ==> s[j] != c
}

pub proof fn lemma_first_index_of(s: Seq<char>, c: char)
    ensures
        match first_index_of(s, c) {
            Some(i) => is_first_index(s, c, i),
            None => !s.contains(c),
        },
    decreases s.len(),
{
    if s.len() > 0 && s[0] != c {
        let t = s.drop_first();
        lemma_first_index_of(t, c);
        match first_index_of(t, c) {
            Some(i) => {
                assert forall|j: int| 0 <= j < i + 1 implies s[j] != c by {
                    if j > 0 {
                        assert(s[j] == t[j - 1]);
                    }
                }
            },
            None => {
                assert forall|j: int| 0 <= j < s.len() implies s[j] != c by {
                    if j > 0 {
                        assert(s[j] == t[j - 1]);
                    }
                }
            },
        }
    }
}

pub proof fn lemma_last_index_of(s: Seq<char>, c: char)
    ensures
        match last_index_of(s, c) {
            Some(i) => is_last_index(s, c, i),
            None => !s.contains(c),
        },
    decreases s.len(),
{
    if s.len() > 0 && s.last() != c {
        let t = s.drop_last();
        lemma_last_index_of(t, c);
        match last_index_of(t, c) {
            Some(i) => {
                assert forall|j: int| i < j < s.len() implies s[j] != c by {
                    if j < s.len() - 1 {
                        assert(s[j] == t[j]);
                    }
                }
            },
            None => {
                assert forall|j: int| 0 <= j < s.len() implies s[j] != c by {
                    if j < s.len() - 1 {
                        assert(s[j] == t[j]);
                    }
                }
            },
        }
    }
}

/// `c` is an ASCII upper-case letter.
pub open spec fn is_ascii_upper(c: char) -> bool {
    'A' <= c <= 'Z'
}

/// `a` and `b` are the same character up to ASCII case.
pub open spec fn char_eq_ignore_ascii_case(a: char, b: char) -> bool {
    ||| a == b
    ||| is_ascii_upper(a) && a as int + 32 == b as int
    ||| is_ascii_upper(b) && b as int + 32 == a as int
}

/// `a` and `b` are an ASCII case-insensitive match.
pub open spec fn eq_ignore_ascii_case(a: Seq<char>, b: Seq<char>) -> bool {
    &&& a.len() == b.len()
    &&& forall|i: int| 0 <= i < a.len() ==> char_eq_ignore_ascii_case(#[trigger] a[i], b[i])
}

/// `s` has no ASCII upper-case letter.
pub open spec fn has_no_ascii_upper(s: Seq<char>) -> bool {
    forall|i: int| 0 <= i < s.len() ==> !is_ascii_upper(#[trigger] s[i])
}

/// Texts that match up to ASCII case have the same length.
pub proof fn law_eq_ignore_ascii_case_same_length(a: Seq<char>, b: Seq<char>)
    ensures
        eq_ignore_ascii_case(a, b) ==> a.len() == b.len(),
{
}

/// Matching up to ASCII case is an equivalence: every text matches itself, and
/// the match goes both ways.
pub proof fn law_eq_ignore_ascii_case_equivalence(a: Seq<char>, b: Seq<char>)
    ensures
        eq_ignore_ascii_case(a, a),
        eq_ignore_ascii_case(a, b) == eq_ignore_ascii_case(b, a),
{
    if eq_ignore_ascii_case(a, b) {
        assert forall|i: int| 0 <= i < b.len() implies char_eq_ignore_ascii_case(#[trigger] b[i], a[i]) by {
            assert(char_eq_ignore_ascii_case(a[i], b[i]));
        }
    }
    if eq_ignore_ascii_case(b, a) {
        assert forall|i: int| 0 <= i < a.len() implies char_eq_ignore_ascii_case(#[trigger] a[i], b[i]) by {
            assert(char_eq_ignore_ascii_case(b[i], a[i]));
        }
    }
}

/// Texts without upper-case letters match up to ASCII case exactly where they
/// are equal.
pub proof fn law_eq_ignore_ascii_case_lower(a: Seq<char>, b: Seq<char>)
    requires
        has_no_ascii_upper(a),
        has_no_ascii_upper(b),
    ensures
        eq_ignore_ascii_case(a, b) <==> a == b,
{
    if eq_ignore_ascii_case(a, b) {
        assert forall|i: int| 0 <= i < a.len() implies a[i] == b[i] by {
            assert(char_eq_ignore_ascii_case(a[i], b[i]));
            assert(!is_ascii_upper(a[i]));
            assert(!is_ascii_upper(b[i]));
        }
        assert(a =~= b);
    }
    if a == b {
        assert forall|i: int| 0 <= i < a.len() implies char_eq_ignore_ascii_case(#[trigger] a[i], b[i]) by {}
    }
}

/// The characters of `s`, one by one.
pub fn chars_of(s: &str) -> (res: Vec<char>)
    ensures
        res@ == s@,
{
    let mut res: Vec<char> = Vec::new();
    for c in it: s.chars()
        invariant
            res@ == it.seq().take(it.index() as int),
    {
        res.push(c);
    }
    res
}

/// The number of characters of `s`.
pub fn char_count(s: &str) -> (n: usize)
    ensures
        n == s@.len(),
{
    let v = chars_of(s);
    v.len()
}

/// Position of the first `c` in `s`.
pub fn find_char(s: &str, c: char) -> (res: Option<usize>)
    ensures
        match res {
            Some(i) => first_index_of(s@, c) == Some(i as int),
            None => first_index_of(s@, c) is None,
        },
{
    proof {
        lemma_first_index_of(s@, c);
    }
    let v = chars_of(s);
    let mut i: usize = 0;
    while i < v.len()
        invariant
            v@ == s@,
            i <= v.len(),
            forall|j: int| 0 <= j < i ==> v@[j] != c,
            match first_index_of(s@, c) {
                Some(k) => is_first_index(s@, c, k),
                None => !s@.contains(c),
            },
        decreases v.len() - i,
    {
        if v[i] == c {
            return Some(i);
        }
        i = i + 1;
    }
    None
}

/// Position of the last `c` in `s`.
pub fn rfind_char(s: &str, c: char) -> (res: Option<usize>)
    ensures
        match res {
            Some(i) => last_index_of(s@, c) == Some(i as int),
            None => last_index_of(s@, c) is None,
        },
{
    proof {
        lemma_last_index_of(s@, c);
    }
    let v = chars_of(s);
    let mut i: usize = v.len();
    while i > 0
        invariant
            v@ == s@,
            i <= v.len(),
            forall|j: int| i <= j < v.len() ==> v@[j] != c,
            match last_index_of(s@, c) {
                Some(k) => is_last_index(s@, c, k),
                None => !s@.contains(c),
            },
        decreases i,
    {
        if v[i - 1] == c {
            return Some(i - 1);
        }
        i = i - 1;
    }
    None
}

/// Whether `a` and `b` hold the same characters.
pub fn str_eq(a: &str, b: &str) -> (res: bool)
    ensures
        res == (a@ == b@),
{
    let x = chars_of(a);
    let y = chars_of(b);
    if x.len() != y.len() {
        return false;
    }
    let mut i: usize = 0;
    while i < x.len()
        invariant
            x@ == a@,
            y@ == b@,
            x.len() == y.len(),
            i <= x.len(),
            forall|j: int| 0 <= j < i ==> x@[j] == y@[j],
        decreases x.len() - i,
    {
        if x[i] != y[i] {
            return false;
        }
        i = i + 1;
    }
    assert(a@ =~= b@);
    true
}

fn char_eq_ignore_ascii_case_exec(a: char, b: char) -> (res: bool)
    ensures
        res == char_eq_ignore_ascii_case(a, b),
{
    if a == b {
        true
    } else if 'A' <= a && a <= 'Z' {
        (a as u32) + 32 == (b as u32)
    } else if 'A' <= b && b <= 'Z' {
        (b as u32) + 32 == (a as u32)
    } else {
        false
    }
}

/// Whether `a` and `b` are an ASCII case-insensitive match.
pub fn str_eq_ignore_ascii_case(a: &str, b: &str) -> (res: bool)
    ensures
        res == eq_ignore_ascii_case(a@, b@),
{
    let x = chars_of(a);
    let y = chars_of(b);
    if x.len() != y.len() {
        return false;
    }
    let mut i: usize = 0;
    while i < x.len()
        invariant
            x@ == a@,
            y@ == b@,
            x.len() == y.len(),
            i <= x.len(),
            forall|j: int| 0 <= j < i ==> char_eq_ignore_ascii_case(#[trigger] x@[j], y@[j]),
        decreases x.len() - i,
    {
        if !char_eq_ignore_ascii_case_exec(x[i], y[i]) {
            return false;
        }
        i = i + 1;
    }
    true
}

/// The characters of `s` from `from` up to `to`, as a new string.
pub fn substring(s: &str, from: usize, to: usize) -> (res: String)
    requires
        from <= to <= s@.len(),
    ensures
        res@ == s@.subrange(from as int, to as int),
{
    let sub = s.substring_char(from, to);
    String::from_str(sub)
}

/// `a` followed by `b`, as a new string.
pub fn concat(a: &str, b: &str) -> (res: String)
    ensures
        res@ == a@ + b@,
{
    let mut res = String::from_str(a);
    res.append(b);
    res
}

} // verus!
