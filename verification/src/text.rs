//! Small text-level building blocks of the renderer: joining rendered parts
//! with a separator token, and rewriting `::` path separators to `.`.

use vstd::prelude::*;
use vstd::string::StrSliceExecFns;
use vstd::string::StringExecFns;

verus! {

/// The parts, joined with `sep` between neighbours; no leading or trailing
/// separator, and no separator around a single part.
pub open spec fn join_with(parts: Seq<Seq<char>>, sep: Seq<char>) -> Seq<char>
    decreases parts.len(),
{
    if parts.len() == 0 {
        Seq::empty()
    } else if parts.len() == 1 {
        parts[0]
    } else {
        join_with(parts.drop_last(), sep) + sep + parts.last()
    }
}

/// Appending one part to a join: the separator appears exactly when the
/// joined list was non-empty.
pub proof fn lemma_join_push(parts: Seq<Seq<char>>, sep: Seq<char>, p: Seq<char>)
    ensures
        join_with(parts.push(p), sep) == if parts.len() == 0 {
            p
        } else {
            join_with(parts, sep) + sep + p
        },
{
    let w = parts.push(p);
    assert(w.drop_last() =~= parts);
    assert(w.last() == p);
    if parts.len() == 0 {
        assert(w[0] == p);
    }
}

/// `s` with every (non-overlapping, left-to-right) occurrence of `::`
/// replaced by `.`.
pub open spec fn spec_dotted(s: Seq<char>) -> Seq<char>
    decreases s.len(),
{
    if s.len() == 0 {
        s
    } else if s.len() >= 2 && s[0] == ':' && s[1] == ':' {
        seq!['.'] + spec_dotted(s.skip(2))
    } else {
        seq![s[0]] + spec_dotted(s.skip(1))
    }
}

/// Over a stretch with no `::`, the rewrite copies the text unchanged.
proof fn lemma_dotted_segment(s: Seq<char>, a: int, b: int)
    requires
        0 <= a <= b <= s.len(),
        forall|k: int| a <= k < b ==> !(#[trigger] s[k] == ':' && k + 1 < s.len() && s[k + 1] == ':'),
    ensures
        spec_dotted(s.skip(a)) == s.subrange(a, b) + spec_dotted(s.skip(b)),
    decreases b - a,
{
    if a == b {
        assert(s.subrange(a, b) =~= Seq::empty());
        assert(s.subrange(a, b) + spec_dotted(s.skip(b)) =~= spec_dotted(s.skip(b)));
    } else {
        let t = s.skip(a);
        assert(t.len() == s.len() - a);
        assert(t[0] == s[a]);
        if t.len() >= 2 {
            assert(t[1] == s[a + 1]);
        }
        assert(t.skip(1) =~= s.skip(a + 1));
        assert(spec_dotted(t) == seq![s[a]] + spec_dotted(s.skip(a + 1)));
        lemma_dotted_segment(s, a + 1, b);
        assert(seq![s[a]] + (s.subrange(a + 1, b) + spec_dotted(s.skip(b))) =~= s.subrange(a, b)
            + spec_dotted(s.skip(b)));
    }
}

/// Rewrites every `::` in `s` to `.`, scanning left to right.
#[verifier::loop_isolation(false)]
pub fn dotted(s: &str) -> (r: String)
    ensures
        r@ == spec_dotted(s@),
{
    let n = s.unicode_len();
    let mut out = String::new();
    let mut i: usize = 0;
    let mut start: usize = 0;
    proof {
        assert(s@.skip(0) =~= s@);
        assert(out@ + spec_dotted(s@) =~= spec_dotted(s@));
    }
    while i < n
        invariant
            n == s@.len(),
            start <= i <= n,
            out@ + spec_dotted(s@.skip(start as int)) == spec_dotted(s@),
            forall|k: int|
                start <= k < i ==> !(#[trigger] s@[k] == ':' && k + 1 < s@.len() && s@[k + 1]
                    == ':'),
        decreases n - i,
    {
        if i + 1 < n && s.get_char(i) == ':' && s.get_char(i + 1) == ':' {
            out.append(s.substring_char(start, i));
            out.append(".");
            proof {
                reveal_strlit(".");
                assert("."@ =~= seq!['.']);
                lemma_dotted_segment(s@, start as int, i as int);
                let t = s@.skip(i as int);
                assert(t.len() >= 2);
                assert(t[0] == s@[i as int]);
                assert(t[1] == s@[i as int + 1]);
                assert(t.skip(2) =~= s@.skip(i as int + 2));
                assert(spec_dotted(t) == seq!['.'] + spec_dotted(s@.skip(i as int + 2)));
                assert(out@ + spec_dotted(s@.skip(i as int + 2)) =~= spec_dotted(s@));
            }
            i = i + 2;
            start = i;
        } else {
            i = i + 1;
        }
    }
    out.append(s.substring_char(start, n));
    proof {
        lemma_dotted_segment(s@, start as int, n as int);
        assert(s@.skip(n as int).len() == 0);
        assert(out@ =~= spec_dotted(s@));
    }
    out
}

} // verus!
