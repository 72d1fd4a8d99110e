use vstd::prelude::*;
use crate::schema::str_eq;

verus! {

/// A property path as its segments, each segment as its characters.
pub open spec fn segs_view(p: Seq<String>) -> Seq<Seq<char>> {
    p.map_values(|s: String| s@)
}

/// Splits `p` at each `sep`: with `.`, `"a.b"` gives `["a", "b"]` and `""` gives `[""]`.
pub open spec fn split_on(p: Seq<char>, sep: char) -> Seq<Seq<char>>
    decreases p.len(),
{
    if p.len() == 0 {
        seq![Seq::<char>::empty()]
    } else {
        let prev = split_on(p.drop_last(), sep);
        if p.last() == sep {
            prev.push(Seq::<char>::empty())
        } else {
            prev.update(prev.len() - 1, prev.last().push(p.last()))
        }
    }
}

/// Splits a dotted property path into its segments.
pub open spec fn split_dots(p: Seq<char>) -> Seq<Seq<char>> {
    split_on(p, '.')
}

pub proof fn lemma_split_on_nonempty(p: Seq<char>, sep: char)
    ensures
        split_on(p, sep).len() >= 1,
    decreases p.len(),
{
    if p.len() > 0 {
        lemma_split_on_nonempty(p.drop_last(), sep);
    }
}

pub proof fn lemma_split_dots_nonempty(p: Seq<char>)
    ensures
        split_dots(p).len() >= 1,
{
    lemma_split_on_nonempty(p, '.');
}

/// Splits `path` at each `.`.
pub fn split_path(path: &str) -> (r: Vec<String>)
    ensures
        segs_view(r@) == split_dots(path@),
{
    split_by(path, '.')
}

/// Splits `path` at each `sep`.
pub fn split_by(path: &str, sep: char) -> (r: Vec<String>)
    ensures
        segs_view(r@) == split_on(path@, sep),
{
    let n = path.unicode_len();
    let mut done: Vec<String> = Vec::new();
    let mut start: usize = 0;
    let mut i: usize = 0;
    proof {
        assert(path@.subrange(0, 0) =~= Seq::<char>::empty());
        assert(segs_view(done@) =~= Seq::<Seq<char>>::empty());
        assert(split_on(Seq::<char>::empty(), sep) == seq![Seq::<char>::empty()]);
        assert(Seq::<Seq<char>>::empty().push(Seq::<char>::empty()) =~= seq![Seq::<char>::empty()]);
    }
    while i < n
        invariant
            n == path@.len(),
            0 <= start <= i <= n,
            split_on(path@.subrange(0, i as int), sep) == segs_view(done@).push(path@.subrange(start as int, i as int)),
        decreases n - i,
    {
        let c = path.get_char(i);
        proof {
            let t = path@.subrange(0, i as int + 1);
            assert(t.drop_last() == path@.subrange(0, i as int));
            assert(t.last() == c);
            lemma_split_on_nonempty(path@.subrange(0, i as int), sep);
        }
        if c == sep {
            let seg = String::from_str(path.substring_char(start, i));
            proof {
                assert(segs_view(done@.push(seg)) == segs_view(done@).push(seg@));
                assert(path@.subrange(i as int + 1, i as int + 1) == Seq::<char>::empty());
            }
            done.push(seg);
            start = i + 1;
        } else {
            proof {
                assert(path@.subrange(start as int, i as int).push(c) == path@.subrange(start as int, i as int + 1));
            }
        }
        i = i + 1;
    }
    let last = String::from_str(path.substring_char(start, n));
    proof {
        assert(path@.subrange(0, n as int) == path@);
        assert(segs_view(done@.push(last)) == segs_view(done@).push(last@));
    }
    done.push(last);
    done
}

/// Compares two paths segment by segment.
pub fn path_eq(a: &[String], b: &[String]) -> (r: bool)
    ensures
        r == (segs_view(a@) == segs_view(b@)),
{
    if a.len() != b.len() {
        assert(segs_view(a@).len() != segs_view(b@).len());
        return false;
    }
    let mut i: usize = 0;
    while i < a.len()
        invariant
            a@.len() == b@.len(),
            0 <= i <= a@.len(),
            forall|j: int| 0 <= j < i ==> a@[j]@ == b@[j]@,
        decreases a@.len() - i,
    {
        if !str_eq(a[i].as_str(), b[i].as_str()) {
            assert(segs_view(a@)[i as int] != segs_view(b@)[i as int]);
            return false;
        }
        i = i + 1;
    }
    assert(segs_view(a@) =~= segs_view(b@));
    true
}

/// Copies the first `k` segments of a path.
pub fn path_prefix(p: &[String], k: usize) -> (r: Vec<String>)
    requires
        k <= p@.len(),
    ensures
        segs_view(r@) == segs_view(p@).take(k as int),
{
    let mut r: Vec<String> = Vec::new();
    let mut i: usize = 0;
    while i < k
        invariant
            k <= p@.len(),
            0 <= i <= k,
            r@.len() == i,
            segs_view(r@) == segs_view(p@).take(i as int),
        decreases k - i,
    {
        let s = p[i].clone();
        proof {
            assert(s == p@[i as int]);
            assert(segs_view(r@.push(s))[i as int] == s@);
            assert forall|j: int| 0 <= j < i implies segs_view(r@)[j] == segs_view(p@)[j] by {
                assert(segs_view(r@)[j] == segs_view(p@).take(i as int)[j]);
            }
            assert(segs_view(r@.push(s)) =~= segs_view(p@).take(i as int + 1));
        }
        r.push(s);
        i = i + 1;
    }
    r
}

/// Copies a whole path.
pub fn path_clone(p: &[String]) -> (r: Vec<String>)
    ensures
        segs_view(r@) == segs_view(p@),
{
    let r = path_prefix(p, p.len());
    assert(segs_view(p@).take(p@.len() as int) =~= segs_view(p@));
    r
}

} // verus!
