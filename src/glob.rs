use vstd::prelude::*;

verus! {

/// Whether the glob pattern `p` matches the whole of `s`.
///
/// `**/` matches zero or more leading directories, `**` any run of characters,
/// `*` a run of characters without `/`, `?` one character other than `/`, and
/// every other character itself.
pub open spec fn glob_matches(p: Seq<char>, s: Seq<char>) -> bool
    decreases p.len(), s.len(), 0nat,
{
    if p.len() == 0 {
        s.len() == 0
    } else if p.len() >= 2 && p[0] == '*' && p[1] == '*' {
        (p.len() >= 3 && p[2] == '/' && glob_matches(p.skip(3), s)) || glob_any_run(p.skip(2), s)
    } else if p[0] == '*' {
        glob_segment_run(p.skip(1), s)
    } else if p[0] == '?' {
        s.len() > 0 && s[0] != '/' && glob_matches(p.skip(1), s.skip(1))
    } else {
        s.len() > 0 && s[0] == p[0] && glob_matches(p.skip(1), s.skip(1))
    }
}

/// Some suffix of `s` is matched by `q`: what follows a `**`.
pub open spec fn glob_any_run(q: Seq<char>, s: Seq<char>) -> bool
    decreases q.len(), s.len(), 1nat,
{
    glob_matches(q, s) || (s.len() > 0 && glob_any_run(q, s.skip(1)))
}

/// A suffix of `s` is matched by `q`, and what precedes it holds no `/`:
/// what follows a `*`.
pub open spec fn glob_segment_run(q: Seq<char>, s: Seq<char>) -> bool
    decreases q.len(), s.len(), 1nat,
{
    glob_matches(q, s) || (s.len() > 0 && s[0] != '/' && glob_segment_run(q, s.skip(1)))
}

/// Whether `p` from index `pi` on matches `s` from index `si` on.
fn glob_from(p: &Vec<char>, pi: usize, s: &Vec<char>, si: usize) -> (r: bool)
    requires
        pi <= p@.len(),
        si <= s@.len(),
    ensures
        r == glob_matches(p@.skip(pi as int), s@.skip(si as int)),
    decreases p@.len() - pi,
{
    let ghost pp = p@.skip(pi as int);
    let ghost ss = s@.skip(si as int);
    let np = p.len();
    let ns = s.len();
    if pi == np {
        return si == ns;
    }
    assert(pp[0] == p@[pi as int]);
    if pi + 1 < np {
        assert(pp[1] == p@[pi + 1]);
    }
    if pi + 1 < np && p[pi] == '*' && p[pi + 1] == '*' {
        assert(pp.skip(2) =~= p@.skip(pi + 2));
        if pi + 2 < np && p[pi + 2] == '/' {
            assert(pp[2] == p@[pi + 2]);
            assert(pp.skip(3) =~= p@.skip(pi + 3));
            if glob_from(p, pi + 3, s, si) {
                return true;
            }
        }
        assert(glob_matches(pp, ss) == glob_any_run(pp.skip(2), ss));
        let mut k: usize = si;
        loop
            invariant
                si <= k <= ns,
                ns == s@.len(),
                pi + 2 <= np == p@.len(),
                pp == p@.skip(pi as int),
                ss == s@.skip(si as int),
                glob_matches(pp, ss) == glob_any_run(p@.skip(pi + 2), s@.skip(k as int)),
            decreases ns - k,
        {
            if glob_from(p, pi + 2, s, k) {
                return true;
            }
            if k == ns {
                return false;
            }
            assert(s@.skip(k as int).skip(1) =~= s@.skip(k + 1));
            k = k + 1;
        }
    }
    if p[pi] == '*' {
        assert(pp.skip(1) =~= p@.skip(pi + 1));
        assert(glob_matches(pp, ss) == glob_segment_run(pp.skip(1), ss));
        let mut k: usize = si;
        loop
            invariant
                si <= k <= ns,
                ns == s@.len(),
                pi + 1 <= np == p@.len(),
                pp == p@.skip(pi as int),
                ss == s@.skip(si as int),
                glob_matches(pp, ss) == glob_segment_run(p@.skip(pi + 1), s@.skip(k as int)),
            decreases ns - k,
        {
            if glob_from(p, pi + 1, s, k) {
                return true;
            }
            if k == ns || s[k] == '/' {
                return false;
            }
            assert(s@.skip(k as int).skip(1) =~= s@.skip(k + 1));
            k = k + 1;
        }
    }
    assert(pp.skip(1) =~= p@.skip(pi + 1));
    if si == ns {
        return false;
    }
    assert(ss.skip(1) =~= s@.skip(si + 1));
    if p[pi] == '?' {
        s[si] != '/' && glob_from(p, pi + 1, s, si + 1)
    } else {
        s[si] == p[pi] && glob_from(p, pi + 1, s, si + 1)
    }
}

/// Whether the glob `pattern` matches the whole of `s`.
pub fn glob_match(pattern: &str, s: &str) -> (r: bool)
    ensures
        r == glob_matches(pattern@, s@),
{
    let p = crate::text::chars_of(pattern);
    let t = crate::text::chars_of(s);
    assert(p@.skip(0) =~= p@);
    assert(t@.skip(0) =~= t@);
    glob_from(&p, 0, &t, 0)
}

} // verus!
