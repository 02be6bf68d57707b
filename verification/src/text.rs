use vstd::prelude::*;

verus! {

/// The text of an optional string.
pub open spec fn text_of(s: Option<String>) -> Option<Seq<char>> {
    match s {
        Some(t) => Some(t@),
        None => None,
    }
}

/// `s` without the occurrences of `c` at its end.
pub open spec fn strip_trailing(s: Seq<char>, c: char) -> Seq<char>
    decreases s.len(),
{
    if s.len() > 0 && s.last() == c {
        strip_trailing(s.drop_last(), c)
    } else {
        s
    }
}

/// `n` copies of `c`.
pub open spec fn repeated(c: char, n: nat) -> Seq<char> {
    Seq::new(n, |i: int| c)
}

/// Removes every `/` at the end of `s`; the rest of `s` is returned unchanged.
pub fn trim_trailing_slashes(s: &str) -> (trimmed: String)
    ensures
        trimmed@ == strip_trailing(s@, '/'),
{
    let mut end: usize = s.unicode_len();
    assert(s@.subrange(0, end as int) =~= s@);
    while end > 0 && s.get_char(end - 1) == '/'
        invariant
            end <= s@.len(),
            strip_trailing(s@, '/') == strip_trailing(s@.subrange(0, end as int), '/'),
        decreases end,
    {
        assert(s@.subrange(0, end as int).drop_last() =~= s@.subrange(0, end - 1));
        end = end - 1;
    }
    s.substring_char(0, end).to_owned()
}

/// What is left after stripping does not end in the stripped character.
pub proof fn lemma_strip_trailing_end(s: Seq<char>, c: char)
    ensures
        strip_trailing(s, c).len() == 0 || strip_trailing(s, c).last() != c,
    decreases s.len(),
{
    if s.len() > 0 && s.last() == c {
        lemma_strip_trailing_end(s.drop_last(), c);
    }
}

/// Stripping removes a run of the stripped character from the end and nothing else:
/// the input is the result followed by that run.
pub proof fn lemma_strip_trailing_run(s: Seq<char>, c: char)
    ensures
        strip_trailing(s, c).len() <= s.len(),
        s == strip_trailing(s, c) + repeated(c, (s.len() - strip_trailing(s, c).len()) as nat),
    decreases s.len(),
{
    if s.len() > 0 && s.last() == c {
        lemma_strip_trailing_run(s.drop_last(), c);
        let t = strip_trailing(s, c);
        let d = s.drop_last();
        let shorter = t + repeated(c, (d.len() - t.len()) as nat);
        let longer = t + repeated(c, (s.len() - t.len()) as nat);
        assert(d == shorter);
        assert forall|i: int| 0 <= i < s.len() implies s[i] == longer[i] by {
            if i < d.len() {
                assert(s[i] == d[i]);
                assert(shorter[i] == longer[i]);
            }
        }
        assert(s =~= longer);
    } else {
        assert(s =~= s + repeated(c, 0));
    }
}

/// A text that does not end in the stripped character, followed by any number of
/// copies of it, strips back to that text.
pub proof fn lemma_strip_trailing_appended(s: Seq<char>, c: char, n: nat)
    requires
        s.len() == 0 || s.last() != c,
    ensures
        strip_trailing(s + repeated(c, n), c) == s,
    decreases n,
{
    if n == 0 {
        assert(s + repeated(c, 0) =~= s);
    } else {
        let t = s + repeated(c, n);
        assert(t.last() == c);
        assert(t.drop_last() =~= s + repeated(c, (n - 1) as nat));
        lemma_strip_trailing_appended(s, c, (n - 1) as nat);
    }
}

/// Two texts that differ still differ when the same text is put before and after
/// each of them.
pub proof fn lemma_framed_distinct(before: Seq<char>, a: Seq<char>, b: Seq<char>, after: Seq<char>)
    requires
        a != b,
    ensures
        before + a + after != before + b + after,
{
    if before + a + after == before + b + after {
        let x = before + a + after;
        let y = before + b + after;
        assert(x.len() == y.len());
        assert(a.len() == b.len());
        assert forall|i: int| 0 <= i < a.len() implies a[i] == b[i] by {
            assert(x[before.len() + i] == a[i]);
            assert(y[before.len() + i] == b[i]);
        }
        assert(a =~= b);
    }
}

} // verus!
