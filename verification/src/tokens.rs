//! Splitting query output into lines and comma-separated tokens, and
//! trimming the whitespace that surrounds each token.

use vstd::prelude::*;

use crate::chars::is_space;
use crate::chars::space_check;

verus! {

/// Index of the first occurrence of `c` in `s`, or minus one.
pub open spec fn find(s: Seq<char>, c: char) -> int
    decreases s.len(),
{
    if s.len() == 0 {
        -1
    } else if s[0] == c {
        0
    } else {
        let r = find(s.skip(1), c);
        if r == -1 {
            -1
        } else {
            r + 1
        }
    }
}

/// `find` names the first occurrence: the character stands there and
/// nowhere earlier; minus one means it does not occur at all.
pub proof fn lemma_find(s: Seq<char>, c: char)
    ensures
        find(s, c) == -1 ==> forall|i: int| 0 <= i < s.len() ==> s[i] != c,
        find(s, c) != -1 ==> 0 <= find(s, c) < s.len() && s[find(s, c)] == c && forall|i: int|
            0 <= i < find(s, c) ==> s[i] != c,
    decreases s.len(),
{
    if s.len() > 0 && s[0] != c {
        lemma_find(s.skip(1), c);
        assert(forall|i: int| 1 <= i < s.len() ==> s[i] == s.skip(1)[i - 1]);
    }
}

/// The pieces of `s` between occurrences of the separator `sep`; one piece
/// more than there are separators, in order, separators dropped.
pub open spec fn split(s: Seq<char>, sep: char) -> Seq<Seq<char>>
    decreases s.len(),
{
    let f = find(s, sep);
    if f == -1 {
        seq![s]
    } else if 0 <= f < s.len() {
        seq![s.take(f)] + split(s.skip(f + 1), sep)
    } else {
        seq![s]
    }
}

/// `s` with leading whitespace removed.
pub open spec fn trim_start(s: Seq<char>) -> Seq<char>
    decreases s.len(),
{
    if s.len() > 0 && is_space(s[0]) {
        trim_start(s.skip(1))
    } else {
        s
    }
}

/// `s` with trailing whitespace removed.
pub open spec fn trim_end(s: Seq<char>) -> Seq<char>
    decreases s.len(),
{
    if s.len() > 0 && is_space(s.last()) {
        trim_end(s.drop_last())
    } else {
        s
    }
}

/// `s` with surrounding whitespace removed.
pub open spec fn trim(s: Seq<char>) -> Seq<char> {
    trim_end(trim_start(s))
}

/// Every piece of `ts`, trimmed.
pub open spec fn trim_all(ts: Seq<Seq<char>>) -> Seq<Seq<char>> {
    ts.map_values(|t: Seq<char>| trim(t))
}

/// The comma-separated tokens of one output row, each trimmed.
pub open spec fn row_tokens(line: Seq<char>) -> Seq<Seq<char>> {
    trim_all(split(line, ','))
}

/// Character-for-character string equality.
pub fn str_eq(a: &str, b: &str) -> (r: bool)
    ensures
        r == (a@ == b@),
{
    let la = a.unicode_len();
    let lb = b.unicode_len();
    if la != lb {
        return false;
    }
    let mut i: usize = 0;
    while i < la
        invariant
            i <= la,
            la == a@.len(),
            la == b@.len(),
            forall|k: int| 0 <= k < i ==> a@[k] == b@[k],
        decreases la - i,
    {
        if a.get_char(i) != b.get_char(i) {
            return false;
        }
        i = i + 1;
    }
    proof {
        assert(a@ =~= b@);
    }
    true
}

/// Element-for-element equality of two label tuples.
pub fn labels_eq(a: &Vec<String>, b: &Vec<String>) -> (r: bool)
    ensures
        r == (a.deep_view() == b.deep_view()),
{
    proof {
        assert(a.deep_view().len() == a@.len());
        assert(b.deep_view().len() == b@.len());
    }
    if a.len() != b.len() {
        return false;
    }
    let n = a.len();
    let mut i: usize = 0;
    while i < n
        invariant
            i <= n,
            n == a@.len(),
            n == b@.len(),
            forall|k: int| 0 <= k < i ==> a.deep_view()[k] == b.deep_view()[k],
        decreases n - i,
    {
        proof {
            assert(a.deep_view()[i as int] == a@[i as int]@);
            assert(b.deep_view()[i as int] == b@[i as int]@);
        }
        if !str_eq(a[i].as_str(), b[i].as_str()) {
            return false;
        }
        i = i + 1;
    }
    proof {
        assert(a.deep_view() =~= b.deep_view());
    }
    true
}

/// Copies `s[from..to]` with surrounding whitespace removed.
pub fn trimmed_copy(s: &str, from: usize, to: usize) -> (r: String)
    requires
        from <= to <= s@.len(),
    ensures
        r@ == trim(s@.subrange(from as int, to as int)),
{
    let ghost orig = s@.subrange(from as int, to as int);
    let mut a: usize = from;
    while a < to && space_check(s.get_char(a))
        invariant
            from <= a <= to <= s@.len(),
            trim_start(orig) == trim_start(s@.subrange(a as int, to as int)),
            orig == s@.subrange(from as int, to as int),
        decreases to - a,
    {
        proof {
            let cur = s@.subrange(a as int, to as int);
            assert(cur[0] == s@[a as int]);
            assert(cur.skip(1) =~= s@.subrange(a + 1 as int, to as int));
        }
        a = a + 1;
    }
    proof {
        let cur = s@.subrange(a as int, to as int);
        if a < to {
            assert(cur[0] == s@[a as int]);
        }
        assert(trim_start(orig) == cur);
    }
    let mut b: usize = to;
    while b > a && space_check(s.get_char(b - 1))
        invariant
            from <= a <= b <= to <= s@.len(),
            trim_start(orig) == s@.subrange(a as int, to as int),
            trim_end(s@.subrange(a as int, to as int)) == trim_end(
                s@.subrange(a as int, b as int),
            ),
            orig == s@.subrange(from as int, to as int),
        decreases b,
    {
        proof {
            let cur = s@.subrange(a as int, b as int);
            assert(cur.last() == s@[b - 1]);
            assert(cur.drop_last() =~= s@.subrange(a as int, b - 1));
        }
        b = b - 1;
    }
    proof {
        let cur = s@.subrange(a as int, b as int);
        if b > a {
            assert(cur.last() == s@[b - 1]);
        }
        assert(trim_end(s@.subrange(a as int, b as int)) == s@.subrange(a as int, b as int));
    }
    String::from_str(s.substring_char(a, b))
}

/// Splits `s` on the separator and trims each piece: the executable form of
/// `split` followed by `trim` on every piece.
pub fn split_trim(s: &str, sep: char) -> (r: Vec<String>)
    ensures
        r.deep_view() == trim_all(split(s@, sep)),
{
    let len = s.unicode_len();
    let mut toks: Vec<String> = Vec::new();
    let mut start: usize = 0;
    let mut i: usize = 0;
    proof {
        assert(s@.skip(0) =~= s@);
        assert(toks.deep_view() + trim_all(split(s@, sep)) =~~= trim_all(split(s@, sep)));
    }
    while i < len
        invariant
            start <= i <= len,
            len == s@.len(),
            forall|k: int| start <= k < i ==> s@[k] != sep,
            trim_all(split(s@, sep)) == toks.deep_view() + trim_all(
                split(s@.skip(start as int), sep),
            ),
        decreases len - i,
    {
        let c = s.get_char(i);
        if c == sep {
            let piece = trimmed_copy(s, start, i);
            let ghost done = toks.deep_view();
            proof {
                let rest = s@.skip(start as int);
                lemma_find(rest, sep);
                assert(forall|k: int| 0 <= k < rest.len() ==> rest[k] == s@[start + k]);
                assert(rest[i - start] == sep);
                assert(find(rest, sep) == i - start);
                assert(rest.take(i - start) =~= s@.subrange(start as int, i as int));
                assert(rest.skip(i - start + 1) =~= s@.skip(i + 1 as int));
                assert(split(rest, sep) == seq![s@.subrange(start as int, i as int)] + split(
                    s@.skip(i + 1 as int),
                    sep,
                ));
                assert(trim_all(seq![s@.subrange(start as int, i as int)] + split(
                    s@.skip(i + 1 as int),
                    sep,
                )) =~~= seq![trim(s@.subrange(start as int, i as int))] + trim_all(
                    split(s@.skip(i + 1 as int), sep),
                ));
            }
            toks.push(piece);
            proof {
                assert(toks.deep_view() =~~= done + seq![trim(
                    s@.subrange(start as int, i as int),
                )]);
                assert(toks.deep_view() + trim_all(split(s@.skip(i + 1 as int), sep))
                    =~~= trim_all(split(s@, sep)));
            }
            start = i + 1;
        }
        i = i + 1;
    }
    let piece = trimmed_copy(s, start, len);
    let ghost done = toks.deep_view();
    proof {
        let rest = s@.skip(start as int);
        lemma_find(rest, sep);
        assert(forall|k: int| 0 <= k < rest.len() ==> rest[k] == s@[start + k]);
        if find(rest, sep) != -1 {
            assert(s@[start + find(rest, sep)] == sep);
            assert(false);
        }
        assert(split(rest, sep) == seq![rest]);
        assert(rest =~= s@.subrange(start as int, len as int));
        assert(trim_all(seq![rest]) =~~= seq![trim(rest)]);
    }
    toks.push(piece);
    proof {
        assert(toks.deep_view() =~~= done + seq![trim(s@.subrange(start as int, len as int))]);
        assert(toks.deep_view() =~~= trim_all(split(s@, sep)));
    }
    toks
}

} // verus!
