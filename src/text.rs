//! Character-level helpers: ASCII case folding, Unicode white space, trimming
//! and comma-separated lists.

use vstd::prelude::*;
use vstd::string::*;

verus! {

/// The code point of `c` after ASCII lowercasing (non-ASCII letters are kept).
pub open spec fn ascii_fold(c: char) -> u32 {
    if 'A' <= c && c <= 'Z' {
        ((c as u32) + 32) as u32
    } else {
        c as u32
    }
}

/// `a` and `b` are equal once ASCII letters are lowercased.
pub open spec fn same_ignoring_ascii_case(a: Seq<char>, b: Seq<char>) -> bool {
    &&& a.len() == b.len()
    &&& forall|i: int| 0 <= i < a.len() ==> ascii_fold(#[trigger] a[i]) == ascii_fold(b[i])
}

fn fold_char(c: char) -> (r: u32)
    ensures
        r == ascii_fold(c),
{
    if 'A' <= c && c <= 'Z' {
        (c as u32) + 32
    } else {
        c as u32
    }
}

/// Compares two strings with ASCII letters folded to lower case.
pub fn eq_ignore_ascii_case(a: &str, b: &str) -> (r: bool)
    ensures
        r == same_ignoring_ascii_case(a@, b@),
{
    let n = a.unicode_len();
    if n != b.unicode_len() {
        return false;
    }
    let mut i: usize = 0;
    while i < n
        invariant
            n == a@.len(),
            n == b@.len(),
            i <= n,
            forall|j: int| 0 <= j < i ==> ascii_fold(#[trigger] a@[j]) == ascii_fold(b@[j]),
        decreases n - i,
    {
        if fold_char(a.get_char(i)) != fold_char(b.get_char(i)) {
            return false;
        }
        i = i + 1;
    }
    true
}

/// The contents of an optional string.
pub open spec fn opt_view(o: Option<String>) -> Option<Seq<char>> {
    match o {
        Some(s) => Some(s@),
        None => None,
    }
}

/// The Unicode `White_Space` property.
pub open spec fn is_white_space(c: char) -> bool {
    let u = c as u32;
    ||| 0x9 <= u <= 0xD
    ||| u == 0x20
    ||| u == 0x85
    ||| u == 0xA0
    ||| u == 0x1680
    ||| 0x2000 <= u <= 0x200A
    ||| u == 0x2028
    ||| u == 0x2029
    ||| u == 0x202F
    ||| u == 0x205F
    ||| u == 0x3000
}

/// Relies on `char::is_whitespace`: true exactly for the characters with the
/// Unicode `White_Space` property.
#[verifier::external_body]
fn is_space(c: char) -> (r: bool)
    ensures
        r == is_white_space(c),
{
    c.is_whitespace()
}

/// `s` without its leading white space.
pub open spec fn trim_start(s: Seq<char>) -> Seq<char>
    decreases s.len(),
{
    if s.len() > 0 && is_white_space(s[0]) {
        trim_start(s.drop_first())
    } else {
        s
    }
}

/// `s` without its trailing white space.
pub open spec fn trim_end(s: Seq<char>) -> Seq<char>
    decreases s.len(),
{
    if s.len() > 0 && is_white_space(s.last()) {
        trim_end(s.drop_last())
    } else {
        s
    }
}

/// `s` without leading and trailing white space.
pub open spec fn trim(s: Seq<char>) -> Seq<char> {
    trim_end(trim_start(s))
}

/// The index of the first comma of `s`, or its length when it has none.
pub open spec fn comma_index(s: Seq<char>) -> nat
    decreases s.len(),
{
    if s.len() == 0 || s[0] == ',' {
        0
    } else {
        1 + comma_index(s.drop_first())
    }
}

/// The pieces of `s` between commas, in order (one piece when it holds none).
pub open spec fn split_commas(s: Seq<char>) -> Seq<Seq<char>>
    decreases s.len(),
{
    let k = comma_index(s);
    if k < s.len() {
        seq![s.take(k as int)] + split_commas(s.skip((k + 1) as int))
    } else {
        seq![s]
    }
}

/// The first of `pieces` that is not empty once trimmed, trimmed.
pub open spec fn first_nonblank(pieces: Seq<Seq<char>>) -> Option<Seq<char>>
    decreases pieces.len(),
{
    if pieces.len() == 0 {
        None
    } else if trim(pieces[0]).len() > 0 {
        Some(trim(pieces[0]))
    } else {
        first_nonblank(pieces.drop_first())
    }
}

/// The first entry of a comma-separated list that is not blank, trimmed.
pub open spec fn first_listed(s: Seq<char>) -> Option<Seq<char>> {
    first_nonblank(split_commas(s))
}

proof fn lemma_comma_index(s: Seq<char>, k: int)
    requires
        0 <= k <= s.len(),
        forall|j: int| 0 <= j < k ==> s[j] != ',',
        k == s.len() || s[k] == ',',
    ensures
        comma_index(s) == k,
    decreases k,
{
    if k > 0 {
        lemma_comma_index(s.drop_first(), k - 1);
    }
}

/// Splits `list` on commas, trims each piece and returns the first piece that
/// is not empty, if any.
pub fn first_listed_entry(list: &str) -> (r: Option<String>)
    ensures
        opt_view(r) == first_listed(list@),
{
    let ghost s = list@;
    let n = list.unicode_len();
    let mut start: usize = 0;
    assert(s.skip(0) =~= s);
    loop
        invariant
            n == s.len(),
            s == list@,
            start <= n,
            first_listed(s) == first_listed(s.skip(start as int)),
        decreases n - start,
    {
        let mut k: usize = start;
        while k < n && list.get_char(k) != ','
            invariant
                n == s.len(),
                s == list@,
                start <= k <= n,
                forall|j: int| start <= j < k ==> s[j] != ',',
            decreases n - k,
        {
            k = k + 1;
        }
        let mut a: usize = start;
        while a < k && is_space(list.get_char(a))
            invariant
                n == s.len(),
                s == list@,
                start <= a <= k <= n,
                trim_start(s.subrange(start as int, k as int)) == trim_start(
                    s.subrange(a as int, k as int),
                ),
            decreases k - a,
        {
            assert(s.subrange(a as int, k as int).drop_first() =~= s.subrange(
                a + 1,
                k as int,
            ));
            a = a + 1;
        }
        let mut b: usize = k;
        while b > a && is_space(list.get_char(b - 1))
            invariant
                n == s.len(),
                s == list@,
                start <= a <= b <= k <= n,
                trim_end(s.subrange(a as int, k as int)) == trim_end(
                    s.subrange(a as int, b as int),
                ),
            decreases b - a,
        {
            assert(s.subrange(a as int, b as int).drop_last() =~= s.subrange(
                a as int,
                b - 1,
            ));
            b = b - 1;
        }
        proof {
            let t = s.skip(start as int);
            let piece = s.subrange(start as int, k as int);
            lemma_comma_index(t, k - start);
            assert(trim(piece) == s.subrange(a as int, b as int));
            if k < n {
                assert(t.take(k - start) =~= piece);
                assert(t.skip(k - start + 1) =~= s.skip(k + 1));
                let rest = split_commas(s.skip(k + 1));
                assert((seq![piece] + rest).drop_first() =~= rest);
            } else {
                assert(t =~= piece);
                assert(split_commas(t) == seq![piece]);
                assert(seq![piece].drop_first() =~= Seq::<Seq<char>>::empty());
                assert(first_nonblank(Seq::<Seq<char>>::empty()) is None);
            }
        }
        if a < b {
            return Some(String::from_str(list.substring_char(a, b)));
        }
        if k == n {
            return None;
        }
        start = k + 1;
    }
}

} // verus!
