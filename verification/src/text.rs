//! Whitespace trimming, specified over character sequences.

use vstd::prelude::*;
use vstd::string::StrSliceExecFns;

verus! {

/// The characters with the Unicode `White_Space` property: the set that
/// `char::is_whitespace` accepts and that `str::trim` removes at the edges.
pub open spec fn is_space_char(c: char) -> bool {
    ||| c == ' '
    ||| c == '\t'
    ||| c == '\n'
    ||| c == '\u{0B}'
    ||| c == '\u{0C}'
    ||| c == '\r'
    ||| c == '\u{85}'
    ||| c == '\u{A0}'
    ||| c == '\u{1680}'
    ||| c == '\u{2000}'
    ||| c == '\u{2001}'
    ||| c == '\u{2002}'
    ||| c == '\u{2003}'
    ||| c == '\u{2004}'
    ||| c == '\u{2005}'
    ||| c == '\u{2006}'
    ||| c == '\u{2007}'
    ||| c == '\u{2008}'
    ||| c == '\u{2009}'
    ||| c == '\u{200A}'
    ||| c == '\u{2028}'
    ||| c == '\u{2029}'
    ||| c == '\u{202F}'
    ||| c == '\u{205F}'
    ||| c == '\u{3000}'
}

/// Every character of `s` is whitespace.
pub open spec fn all_space(s: Seq<char>) -> bool {
    forall|i: int| 0 <= i < s.len() ==> is_space_char(s[i])
}

/// `s` without its longest whitespace prefix.
pub open spec fn trimmed_start(s: Seq<char>) -> Seq<char>
    decreases s.len(),
{
    if s.len() > 0 && is_space_char(s[0]) {
        trimmed_start(s.drop_first())
    } else {
        s
    }
}

/// `s` without its longest whitespace suffix.
pub open spec fn trimmed_end(s: Seq<char>) -> Seq<char>
    decreases s.len(),
{
    if s.len() > 0 && is_space_char(s.last()) {
        trimmed_end(s.drop_last())
    } else {
        s
    }
}

/// `s` without leading and trailing whitespace.
pub open spec fn trimmed(s: Seq<char>) -> Seq<char> {
    trimmed_end(trimmed_start(s))
}

/// Decides `is_space_char` on one character.
pub fn is_space(c: char) -> (b: bool)
    ensures
        b == is_space_char(c),
{
    c == ' ' || c == '\t' || c == '\n' || c == '\u{0B}' || c == '\u{0C}' || c == '\r'
        || c == '\u{85}' || c == '\u{A0}' || c == '\u{1680}' || c == '\u{2000}' || c == '\u{2001}'
        || c == '\u{2002}' || c == '\u{2003}' || c == '\u{2004}' || c == '\u{2005}'
        || c == '\u{2006}' || c == '\u{2007}' || c == '\u{2008}' || c == '\u{2009}'
        || c == '\u{200A}' || c == '\u{2028}' || c == '\u{2029}' || c == '\u{202F}'
        || c == '\u{205F}' || c == '\u{3000}'
}

proof fn lemma_trimmed_start_at(s: Seq<char>, i: int)
    requires
        0 <= i <= s.len(),
        forall|k: int| 0 <= k < i ==> is_space_char(s[k]),
        i == s.len() || !is_space_char(s[i]),
    ensures
        trimmed_start(s) == s.subrange(i, s.len() as int),
    decreases i,
{
    if i == 0 {
        assert(s.subrange(0, s.len() as int) =~= s);
    } else {
        let t = s.drop_first();
        assert(t =~= s.subrange(1, s.len() as int));
        assert(forall|k: int| 0 <= k < i - 1 ==> is_space_char(t[k]));
        lemma_trimmed_start_at(t, i - 1);
        assert(t.subrange(i - 1, t.len() as int) =~= s.subrange(i, s.len() as int));
    }
}

proof fn lemma_trimmed_end_at(s: Seq<char>, j: int)
    requires
        0 <= j <= s.len(),
        forall|k: int| j <= k < s.len() ==> is_space_char(s[k]),
        j == 0 || !is_space_char(s[j - 1]),
    ensures
        trimmed_end(s) == s.subrange(0, j),
    decreases s.len() - j,
{
    if j == s.len() {
        assert(s.subrange(0, j) =~= s);
    } else {
        let t = s.drop_last();
        assert(is_space_char(s.last()));
        assert(forall|k: int| j <= k < t.len() ==> is_space_char(t[k]));
        lemma_trimmed_end_at(t, j);
        assert(t.subrange(0, j) =~= s.subrange(0, j));
    }
}

/// A sequence of nothing but whitespace trims down to nothing.
pub proof fn lemma_all_space_trims_empty(s: Seq<char>)
    requires
        all_space(s),
    ensures
        trimmed(s).len() == 0,
{
    lemma_trimmed_start_at(s, s.len() as int);
    assert(s.subrange(s.len() as int, s.len() as int) =~= Seq::<char>::empty());
}

proof fn lemma_start_empty_all_space(s: Seq<char>)
    requires
        trimmed_start(s).len() == 0,
    ensures
        all_space(s),
    decreases s.len(),
{
    if s.len() > 0 {
        if !is_space_char(s[0]) {
            assert(trimmed_start(s) == s);
        } else {
            lemma_start_empty_all_space(s.drop_first());
            assert forall|i: int| 0 <= i < s.len() implies is_space_char(s[i]) by {
                if i > 0 {
                    assert(is_space_char(s.drop_first()[i - 1]));
                }
            }
        }
    }
}

proof fn lemma_start_drop_spaces(a: Seq<char>, s: Seq<char>)
    requires
        all_space(a),
    ensures
        trimmed_start(a + s) == trimmed_start(s),
    decreases a.len(),
{
    if a.len() == 0 {
        assert(a + s =~= s);
    } else {
        assert(is_space_char((a + s)[0]));
        assert((a + s).drop_first() =~= a.drop_first() + s);
        assert(forall|k: int| 0 <= k < a.drop_first().len() ==> is_space_char(a.drop_first()[k]));
        lemma_start_drop_spaces(a.drop_first(), s);
    }
}

proof fn lemma_end_drop_spaces(s: Seq<char>, b: Seq<char>)
    requires
        all_space(b),
    ensures
        trimmed_end(s + b) == trimmed_end(s),
    decreases b.len(),
{
    if b.len() == 0 {
        assert(s + b =~= s);
    } else {
        assert(is_space_char((s + b).last()));
        assert((s + b).drop_last() =~= s + b.drop_last());
        assert(forall|k: int| 0 <= k < b.drop_last().len() ==> is_space_char(b.drop_last()[k]));
        lemma_end_drop_spaces(s, b.drop_last());
    }
}

proof fn lemma_start_concat(s: Seq<char>, t: Seq<char>)
    requires
        trimmed_start(s).len() > 0,
    ensures
        trimmed_start(s + t) == trimmed_start(s) + t,
    decreases s.len(),
{
    if s.len() == 0 {
        assert(false);
    } else if !is_space_char(s[0]) {
        assert(trimmed_start(s) == s);
        assert(!is_space_char((s + t)[0]));
        assert(trimmed_start(s + t) == s + t);
    } else {
        assert((s + t).drop_first() =~= s.drop_first() + t);
        lemma_start_concat(s.drop_first(), t);
    }
}

/// Trimming ignores whatever whitespace surrounds a text: padding a line with
/// whitespace on either side never changes what it trims down to.
pub proof fn lemma_trim_of_padded(a: Seq<char>, s: Seq<char>, b: Seq<char>)
    requires
        all_space(a),
        all_space(b),
    ensures
        trimmed(a + s + b) == trimmed(s),
{
    assert(a + s + b =~= a + (s + b));
    lemma_start_drop_spaces(a, s + b);
    if trimmed_start(s).len() == 0 {
        lemma_start_empty_all_space(s);
        assert(all_space(s + b)) by {
            assert forall|i: int| 0 <= i < (s + b).len() implies is_space_char((s + b)[i]) by {
                if i < s.len() {
                    assert(is_space_char(s[i]));
                } else {
                    assert(is_space_char(b[i - s.len()]));
                }
            }
        }
        lemma_start_empty_trimmed_start(s + b);
        lemma_all_space_trims_empty(s);
        assert(trimmed(a + s + b) =~= trimmed(s));
    } else {
        lemma_start_concat(s, b);
        lemma_end_drop_spaces(trimmed_start(s), b);
    }
}

proof fn lemma_start_empty_trimmed_start(s: Seq<char>)
    requires
        all_space(s),
    ensures
        trimmed_start(s).len() == 0,
{
    lemma_trimmed_start_at(s, s.len() as int);
    assert(s.subrange(s.len() as int, s.len() as int) =~= Seq::<char>::empty());
}

/// Returns `s` without leading and trailing whitespace, as `trimmed` describes.
pub fn trim_text<'a>(s: &'a str) -> (r: &'a str)
    ensures
        r@ == trimmed(s@),
{
    let n: usize = s.unicode_len();
    let mut lo: usize = 0;
    loop
        invariant
            n == s@.len(),
            0 <= lo <= n,
            forall|k: int| 0 <= k < lo ==> is_space_char(s@[k]),
        ensures
            0 <= lo <= n,
            forall|k: int| 0 <= k < lo ==> is_space_char(s@[k]),
            lo == n || !is_space_char(s@[lo as int]),
        decreases n - lo,
    {
        if lo >= n {
            break;
        }
        if !is_space(s.get_char(lo)) {
            break;
        }
        lo = lo + 1;
    }
    let mut hi: usize = n;
    loop
        invariant
            n == s@.len(),
            lo <= hi <= n,
            forall|k: int| hi <= k < n ==> is_space_char(s@[k]),
        ensures
            lo <= hi <= n,
            forall|k: int| hi <= k < n ==> is_space_char(s@[k]),
            hi == lo || !is_space_char(s@[hi - 1]),
        decreases hi,
    {
        if hi <= lo {
            break;
        }
        if !is_space(s.get_char(hi - 1)) {
            break;
        }
        hi = hi - 1;
    }
    let r = s.substring_char(lo, hi);
    proof {
        lemma_trimmed_start_at(s@, lo as int);
        let t = s@.subrange(lo as int, s@.len() as int);
        assert(forall|k: int| hi - lo <= k < t.len() ==> is_space_char(t[k]));
        lemma_trimmed_end_at(t, hi - lo);
        assert(t.subrange(0, hi - lo) =~= s@.subrange(lo as int, hi as int));
    }
    r
}

} // verus!
