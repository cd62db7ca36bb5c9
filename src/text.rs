//! Small helpers on the characters of a text.

use vstd::prelude::*;

verus! {

/// The characters of `s`, in order.
pub fn chars_of(s: &str) -> (r: Vec<char>)
    ensures
        r@ == s@,
{
    let n = s.unicode_len();
    let mut out: Vec<char> = Vec::new();
    let mut i: usize = 0;
    while i < n
        invariant
            n == s@.len(),
            i <= n,
            out@ == s@.take(i as int),
        decreases n - i,
    {
        out.push(s.get_char(i));
        i = i + 1;
        assert(out@ =~= s@.take(i as int));
    }
    assert(s@.take(n as int) =~= s@);
    out
}

/// Whether the characters `t` spell exactly `w`.
pub fn equals_word(t: &Vec<char>, w: &str) -> (r: bool)
    ensures
        r == (t@ == w@),
{
    let n = w.unicode_len();
    if t.len() != n {
        return false;
    }
    let mut i: usize = 0;
    while i < n
        invariant
            n == w@.len(),
            n == t@.len(),
            i <= n,
            forall|j: int| 0 <= j < i ==> t@[j] == w@[j],
        decreases n - i,
    {
        if t[i] != w.get_char(i) {
            return false;
        }
        i = i + 1;
    }
    assert(t@ =~= w@);
    true
}

/// The pieces of `t` between commas, empty ones included.
pub open spec fn split_commas(t: Seq<char>) -> Seq<Seq<char>>
    decreases t.len(),
{
    if t.len() == 0 {
        seq![seq![]]
    } else {
        let prev = split_commas(t.drop_last());
        if t.last() == ',' {
            prev.push(seq![])
        } else {
            prev.update(prev.len() - 1, prev.last().push(t.last()))
        }
    }
}

/// How many commas `t` holds, and the first three pieces between them.
pub(crate) fn comma_fields(t: &Vec<char>) -> (r: (usize, Vec<char>, Vec<char>, Vec<char>))
    ensures
        r.0 + 1 == split_commas(t@).len(),
        r.1@ == split_commas(t@)[0],
        r.0 >= 1 ==> r.2@ == split_commas(t@)[1],
        r.0 >= 2 ==> r.3@ == split_commas(t@)[2],
{
    let n = t.len();
    let mut commas: usize = 0;
    let mut a: Vec<char> = Vec::new();
    let mut b: Vec<char> = Vec::new();
    let mut c: Vec<char> = Vec::new();
    let mut i: usize = 0;
    assert(a@ =~= split_commas(t@.take(0))[0]);
    while i < n
        invariant
            n == t@.len(),
            i <= n,
            commas <= i,
            commas + 1 == split_commas(t@.take(i as int)).len(),
            a@ == split_commas(t@.take(i as int))[0],
            commas == 0 ==> b@.len() == 0,
            commas <= 1 ==> c@.len() == 0,
            commas >= 1 ==> b@ == split_commas(t@.take(i as int))[1],
            commas >= 2 ==> c@ == split_commas(t@.take(i as int))[2],
        decreases n - i,
    {
        let ch = t[i];
        let ghost prefix = t@.take(i + 1);
        let ghost prev = split_commas(t@.take(i as int));
        assert(prefix.drop_last() =~= t@.take(i as int));
        if ch == ',' {
            commas = commas + 1;
            if commas == 1 {
                assert(b@ =~= seq![]);
            } else if commas == 2 {
                assert(c@ =~= seq![]);
            }
        } else {
            if commas == 0 {
                a.push(ch);
            } else if commas == 1 {
                b.push(ch);
            } else if commas == 2 {
                c.push(ch);
            }
            assert(split_commas(prefix) == prev.update(prev.len() - 1, prev.last().push(ch)));
        }
        i = i + 1;
    }
    assert(t@.take(n as int) =~= t@);
    (commas, a, b, c)
}

} // verus!
