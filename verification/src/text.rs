//! Splitting text into fields and searching it.
//!
//! Text is modelled as a sequence of characters. The functions here work on
//! `&str` and state their results over that model.

use vstd::prelude::*;
use vstd::string::StrSliceExecFns;

verus! {

/// The index of the first `sep` in `s`, or `s.len()` if `s` holds none.
pub open spec fn first_index(s: Seq<char>, sep: char) -> int
    decreases s.len(),
{
    if s.len() == 0 || s[0] == sep {
        0
    } else {
        1 + first_index(s.drop_first(), sep)
    }
}

/// The fields of `s` between occurrences of `sep`, in order. A text without
/// `sep` is one field; `n` separators give `n + 1` fields, empty ones included.
pub open spec fn split(s: Seq<char>, sep: char) -> Seq<Seq<char>>
    decreases s.len(),
{
    let i = first_index(s, sep);
    if 0 <= i < s.len() {
        seq![s.take(i)] + split(s.skip(i + 1), sep)
    } else {
        seq![s]
    }
}

/// The parts written one after another with `sep` between neighbours.
pub open spec fn join(parts: Seq<Seq<char>>, sep: char) -> Seq<char>
    decreases parts.len(),
{
    if parts.len() == 0 {
        Seq::empty()
    } else if parts.len() == 1 {
        parts[0]
    } else {
        parts[0] + seq![sep] + join(parts.skip(1), sep)
    }
}

/// Whether `pat` occurs in `s` as a contiguous run of characters.
pub open spec fn occurs_in(pat: Seq<char>, s: Seq<char>) -> bool {
    exists|i: int| 0 <= i <= s.len() - pat.len() && #[trigger] s.subrange(i, i + pat.len()) == pat
}

/// `first_index` lies within the text, nothing before it is a separator, and
/// where it is inside the text it points at one.
pub proof fn lemma_first_index(s: Seq<char>, sep: char)
    ensures
        0 <= first_index(s, sep) <= s.len(),
        forall|j: int| 0 <= j < first_index(s, sep) ==> s[j] != sep,
        first_index(s, sep) < s.len() ==> s[first_index(s, sep)] == sep,
    decreases s.len(),
{
    if s.len() == 0 || s[0] == sep {
    } else {
        let t = s.drop_first();
        lemma_first_index(t, sep);
        assert forall|j: int| 0 <= j < first_index(s, sep) implies s[j] != sep by {
            if j > 0 {
                assert(s[j] == t[j - 1]);
            }
        }
        assert(first_index(s, sep) < s.len() ==> s[first_index(s, sep)] == t[first_index(t, sep)]);
    }
}

/// A position that holds the separator, with none before it, is the first index.
pub proof fn lemma_first_index_at(s: Seq<char>, sep: char, i: int)
    requires
        0 <= i <= s.len(),
        forall|j: int| 0 <= j < i ==> s[j] != sep,
        i < s.len() ==> s[i] == sep,
    ensures
        first_index(s, sep) == i,
{
    lemma_first_index(s, sep);
    let f = first_index(s, sep);
    if f < i {
        assert(s[f] != sep);
    } else if f > i {
        assert(s[i] != sep);
    }
}

/// Joining the fields of a text with the separator gives the text back.
pub proof fn lemma_join_split(s: Seq<char>, sep: char)
    ensures
        split(s, sep).len() >= 1,
        join(split(s, sep), sep) == s,
    decreases s.len(),
{
    lemma_first_index(s, sep);
    let i = first_index(s, sep);
    if 0 <= i < s.len() {
        let rest = s.skip(i + 1);
        lemma_join_split(rest, sep);
        let parts = split(s, sep);
        assert(parts.skip(1) =~= split(rest, sep));
        assert(parts[0] == s.take(i));
        assert(s =~= s.take(i) + seq![sep] + rest);
    } else {
        assert(split(s, sep) =~= seq![s]);
    }
}

/// Splitting what was joined gives the parts back, provided there is a part
/// and no part holds the separator. With `lemma_join_split` and
/// `lemma_split_fields_clean` this says that the fields of a text are the
/// one way to write it as parts without separators.
pub proof fn lemma_split_join(parts: Seq<Seq<char>>, sep: char)
    requires
        parts.len() >= 1,
        forall|k: int| 0 <= k < parts.len() ==> !(#[trigger] parts[k]).contains(sep),
    ensures
        split(join(parts, sep), sep) == parts,
    decreases parts.len(),
{
    let s = join(parts, sep);
    let head = parts[0];
    assert forall|j: int| 0 <= j < head.len() implies head[j] != sep by {
        assert(!parts[0].contains(sep));
    }
    if parts.len() == 1 {
        lemma_first_index_at(s, sep, s.len() as int);
        assert(split(s, sep) =~= parts);
    } else {
        let rest = parts.skip(1);
        assert forall|k: int| 0 <= k < rest.len() implies !(#[trigger] rest[k]).contains(sep) by {
            assert(rest[k] == parts[k + 1]);
        }
        lemma_split_join(rest, sep);
        lemma_first_index_at(s, sep, head.len() as int);
        assert(s.take(head.len() as int) =~= head);
        assert(s.skip(head.len() as int + 1) =~= join(rest, sep));
        assert(split(s, sep) =~= parts);
    }
}

/// Joining one more part adds the separator and the part at the end.
pub proof fn lemma_join_push(parts: Seq<Seq<char>>, sep: char, part: Seq<char>)
    requires
        parts.len() >= 1,
    ensures
        join(parts.push(part), sep) == join(parts, sep) + seq![sep] + part,
    decreases parts.len(),
{
    let longer = parts.push(part);
    assert(longer.skip(1) =~= parts.skip(1).push(part));
    if parts.len() == 1 {
        assert(parts.skip(1).push(part) =~= seq![part]);
        assert(join(seq![part], sep) == part);
    } else {
        lemma_join_push(parts.skip(1), sep, part);
        assert(join(longer, sep) =~= join(parts, sep) + seq![sep] + part);
    }
}

/// No field of a split text holds the separator.
pub proof fn lemma_split_fields_clean(s: Seq<char>, sep: char, k: int)
    requires
        0 <= k < split(s, sep).len(),
    ensures
        !split(s, sep)[k].contains(sep),
    decreases s.len(),
{
    lemma_first_index(s, sep);
    let i = first_index(s, sep);
    if 0 <= i < s.len() {
        if k == 0 {
            assert(split(s, sep)[0] == s.take(i));
            assert forall|j: int| 0 <= j < s.take(i).len() implies s.take(i)[j] != sep by {}
        } else {
            let rest = s.skip(i + 1);
            assert(split(s, sep)[k] == split(rest, sep)[k - 1]);
            lemma_split_fields_clean(rest, sep, k - 1);
        }
    } else {
        assert(split(s, sep)[0] == s);
        assert forall|j: int| 0 <= j < s.len() implies s[j] != sep by {}
    }
}

/// What `str::to_lowercase` makes of a text: its lowercase form by the
/// Unicode rules that the standard library follows.
pub uninterp spec fn lowercase(s: Seq<char>) -> Seq<char>;

/// Calls `str::to_lowercase`. Trusted: the string returned is the lowercase
/// form of the argument, which depends on the argument alone.
#[verifier::external_body]
pub(crate) fn to_lowercase(s: &str) -> (out: String)
    ensures
        out@ == lowercase(s@),
{
    s.to_lowercase()
}

/// The characters of a string, in order.
pub fn chars_of(s: &str) -> (v: Vec<char>)
    ensures
        v@ == s@,
{
    let mut v: Vec<char> = Vec::new();
    for c in it: s.chars()
        invariant
            it.seq() == s@,
            v@ == s@.take(it.index()),
    {
        v.push(c);
        assert(s@.take(it.index() + 1) =~= s@.take(it.index()).push(c));
    }
    assert(s@.take(s@.len() as int) =~= s@);
    v
}

/// Where the field with index `k` starts and ends among the characters, if
/// the text has that many fields.
fn field_bounds(chars: &Vec<char>, sep: char, k: usize) -> (bounds: Option<(usize, usize)>)
    ensures
        k < split(chars@, sep).len() <==> bounds is Some,
        bounds matches Some((a, b)) ==> a <= b <= chars.len() && chars@.subrange(a as int, b as int)
            == split(chars@, sep)[k as int],
{
    let n = chars.len();
    let ghost s = chars@;
    let mut start: usize = 0;
    let mut count: usize = 0;
    let mut i: usize = 0;
    assert(s.skip(0) =~= s);
    while i < n
        invariant
            n == chars.len(),
            s == chars@,
            start <= i <= n,
            count <= k,
            forall|j: int| start <= j < i ==> s[j] != sep,
            split(s, sep).len() == count + split(s.skip(start as int), sep).len(),
            k - count < split(s.skip(start as int), sep).len() ==> split(s, sep)[k as int] == split(
                s.skip(start as int),
                sep,
            )[k - count],
        decreases n - i,
    {
        if chars[i] == sep {
            let ghost t = s.skip(start as int);
            proof {
                lemma_first_index_at(t, sep, i - start);
                assert(t.take(i - start) =~= s.subrange(start as int, i as int));
                assert(t.skip(i - start + 1) =~= s.skip(i + 1));
            }
            if count == k {
                return Some((start, i));
            }
            count = count + 1;
            start = i + 1;
        }
        i = i + 1;
    }
    proof {
        let t = s.skip(start as int);
        lemma_first_index_at(t, sep, t.len() as int);
        assert(t =~= s.subrange(start as int, n as int));
    }
    if count == k {
        Some((start, n))
    } else {
        None
    }
}

/// The field with index `k` (counted from 0) of `s` split at `sep`, or `None`
/// if `s` has no more than `k` fields.
pub fn field(s: &str, sep: char, k: usize) -> (out: Option<String>)
    ensures
        k < split(s@, sep).len() <==> out is Some,
        out matches Some(v) ==> v@ == split(s@, sep)[k as int],
{
    let chars = chars_of(s);
    match field_bounds(&chars, sep, k) {
        Some((a, b)) => Some(s.substring_char(a, b).to_owned()),
        None => None,
    }
}

/// The last field of `s` split at `sep`.
pub fn last_field(s: &str, sep: char) -> (out: String)
    ensures
        out@ == split(s@, sep).last(),
{
    let chars = chars_of(s);
    let n = chars.len();
    let mut start: usize = 0;
    let mut i: usize = 0;
    assert(s@.skip(0) =~= s@);
    while i < n
        invariant
            n == chars.len(),
            chars@ == s@,
            start <= i <= n,
            forall|j: int| start <= j < i ==> s@[j] != sep,
            split(s@, sep).last() == split(s@.skip(start as int), sep).last(),
        decreases n - i,
    {
        if chars[i] == sep {
            proof {
                let t = s@.skip(start as int);
                lemma_first_index_at(t, sep, i - start);
                assert(t.skip(i - start + 1) =~= s@.skip(i + 1));
                lemma_join_split(s@.skip(i + 1), sep);
            }
            start = i + 1;
        }
        i = i + 1;
    }
    proof {
        let t = s@.skip(start as int);
        lemma_first_index_at(t, sep, t.len() as int);
        assert(t =~= s@.subrange(start as int, n as int));
    }
    s.substring_char(start, n).to_owned()
}

/// What follows the first `sep` in `s`: the fields after the first one,
/// joined again. Empty where `s` holds no `sep`.
pub fn after_first(s: &str, sep: char) -> (out: String)
    ensures
        out@ == join(split(s@, sep).skip(1), sep),
{
    let chars = chars_of(s);
    let n = chars.len();
    let mut i: usize = 0;
    while i < n && chars[i] != sep
        invariant
            n == chars.len(),
            chars@ == s@,
            i <= n,
            forall|j: int| 0 <= j < i ==> s@[j] != sep,
        decreases n - i,
    {
        i = i + 1;
    }
    proof {
        lemma_first_index_at(s@, sep, i as int);
    }
    if i < n {
        proof {
            let rest = s@.skip(i + 1);
            lemma_join_split(rest, sep);
            assert(split(s@, sep).skip(1) =~= split(rest, sep));
            assert(rest =~= s@.subrange(i + 1, n as int));
        }
        s.substring_char(i + 1, n).to_owned()
    } else {
        proof {
            assert(split(s@, sep).skip(1) =~= Seq::<Seq<char>>::empty());
        }
        String::new()
    }
}

/// Whether two strings hold the same characters.
pub fn same(a: &str, b: &str) -> (eq: bool)
    ensures
        eq == (a@ == b@),
{
    let x = chars_of(a);
    let y = chars_of(b);
    if x.len() != y.len() {
        return false;
    }
    let mut i: usize = 0;
    while i < x.len()
        invariant
            x@ == a@,
            y@ == b@,
            x.len() == y.len(),
            i <= x.len(),
            forall|j: int| 0 <= j < i ==> a@[j] == b@[j],
        decreases x.len() - i,
    {
        if x[i] != y[i] {
            return false;
        }
        i = i + 1;
    }
    assert(a@ =~= b@);
    true
}

/// Whether `pat` occurs in `s`.
pub fn contains(s: &str, pat: &str) -> (b: bool)
    ensures
        b == occurs_in(pat@, s@),
{
    let text = chars_of(s);
    let want = chars_of(pat);
    let n = text.len();
    let m = want.len();
    if m > n {
        return false;
    }
    let mut i: usize = 0;
    while i <= n - m
        invariant
            n == text.len(),
            m == want.len(),
            m <= n,
            text@ == s@,
            want@ == pat@,
            i <= n - m + 1,
            forall|j: int| 0 <= j < i ==> #[trigger] s@.subrange(j, j + m) != pat@,
        decreases n - m + 1 - i,
    {
        let mut j: usize = 0;
        while j < m && text[i + j] == want[j]
            invariant
                n == text.len(),
                m == want.len(),
                i + m <= n,
                j <= m,
                text@ == s@,
                want@ == pat@,
                forall|l: int| 0 <= l < j ==> s@[i + l] == pat@[l],
            decreases m - j,
        {
            j = j + 1;
        }
        if j == m {
            assert(s@.subrange(i as int, i + m) =~= pat@);
            return true;
        }
        assert(s@.subrange(i as int, i + m)[j as int] != pat@[j as int]);
        i = i + 1;
    }
    false
}

} // verus!
