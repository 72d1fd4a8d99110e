use vstd::prelude::*;
use crate::path::{split_by, split_on, segs_view};

verus! {

/// Every object path starts with this root; it ends with `/` so that it reads as no file path.
pub const ROOT_PATH_STR: &'static str = "db:/";

/// The root as characters.
pub open spec fn root_chars() -> Seq<char> {
    seq!['d', 'b', ':', '/']
}

/// Index of the last `c` in `s`, or -1.
pub open spec fn last_index_of(s: Seq<char>, c: char) -> int
    decreases s.len(),
{
    if s.len() == 0 {
        -1
    } else if s.last() == c {
        s.len() - 1
    } else {
        last_index_of(s.drop_last(), c)
    }
}

proof fn lemma_last_index_bounds(s: Seq<char>, c: char)
    ensures
        -1 <= last_index_of(s, c) < s.len(),
        last_index_of(s, c) >= 0 ==> s[last_index_of(s, c)] == c,
        forall|j: int| last_index_of(s, c) < j < s.len() ==> s[j] != c,
    decreases s.len(),
{
    if s.len() > 0 && s.last() != c {
        lemma_last_index_bounds(s.drop_last(), c);
        assert forall|j: int| last_index_of(s, c) < j < s.len() implies s[j] != c by {
            if j < s.len() - 1 {
                assert(s.drop_last()[j] == s[j]);
            }
        }
    }
}

/// An absolute path in the asset tree; the root is held as `None`.
#[derive(Debug, Clone, PartialEq, Eq, Hash)]
pub struct ObjectPath(pub Option<String>);

impl ObjectPath {
    /// The full path text.
    pub open spec fn text(&self) -> Seq<char> {
        match self.0 {
            None => root_chars(),
            Some(x) => x@,
        }
    }

    /// A stored path starts with the root.
    pub open spec fn wf(&self) -> bool {
        self.0 matches Some(x) ==> x@.len() >= 4 && x@.subrange(0, 4) == root_chars()
    }

    /// The path named by `s`, which must start with the root.
    pub fn new(s: &str) -> (r: Self)
        requires
            s@.len() >= 4,
            s@.subrange(0, 4) == root_chars(),
        ensures
            r.wf(),
            r.text() == s@,
            r.0 is None <==> s@.len() == 4,
    {
        if s.unicode_len() == 4 {
            assert(s@ =~= root_chars());
            ObjectPath(None)
        } else {
            ObjectPath(Some(String::from_str(s)))
        }
    }

    pub fn root() -> (r: Self)
        ensures
            r.wf(),
            r.0 is None,
            r.text() == root_chars(),
    {
        ObjectPath(None)
    }

    pub fn is_root_path(&self) -> (r: bool)
        ensures
            r == self.0 is None,
    {
        self.0.is_none()
    }

    pub fn as_str(&self) -> (r: &str)
        ensures
            r@ == self.text(),
    {
        match &self.0 {
            Some(x) => x.as_str(),
            None => {
                proof {
                    reveal_strlit("db:/");
                }
                ROOT_PATH_STR
            },
        }
    }

    /// True when `other`'s text is a prefix of this path's text.
    pub fn starts_with(&self, other: &ObjectPath) -> (r: bool)
        ensures
            r == other.text().is_prefix_of(self.text()),
    {
        let a = self.as_str();
        let b = other.as_str();
        let n = b.unicode_len();
        if n > a.unicode_len() {
            return false;
        }
        let mut i: usize = 0;
        while i < n
            invariant
                n == b@.len(),
                n <= a@.len(),
                a@ == self.text(),
                b@ == other.text(),
                0 <= i <= n,
                forall|j: int| 0 <= j < i ==> a@[j] == b@[j],
            decreases n - i,
        {
            if a.get_char(i) != b.get_char(i) {
                assert(a@.subrange(0, n as int)[i as int] != b@[i as int]);
                return false;
            }
            i = i + 1;
        }
        assert(b@ =~= a@.subrange(0, n as int));
        true
    }

    /// The path of a child called `rhs`; an empty `rhs` names this path itself.
    pub fn join(&self, rhs: &str) -> (r: ObjectPath)
        requires
            self.wf(),
            forall|j: int| 0 <= j < rhs@.len() ==> rhs@[j] != '/',
        ensures
            r.wf(),
            rhs@.len() == 0 ==> r.text() == self.text(),
            rhs@.len() > 0 ==> r.text() == (match self.0 {
                None => root_chars() + rhs@,
                Some(x) => if x@.last() == '/' { x@ + rhs@ } else { x@ + seq!['/'] + rhs@ },
            }),
    {
        if rhs.unicode_len() == 0 {
            return ObjectPath(match &self.0 {
                Some(x) => Some(String::from_str(x.as_str())),
                None => None,
            });
        }
        proof {
            reveal_strlit("db:/");
            reveal_strlit("/");
        }
        match &self.0 {
            Some(x) => {
                let mut s = String::from_str(x.as_str());
                let n = x.unicode_len();
                if x.get_char(n - 1) == '/' {
                    s.append(rhs);
                } else {
                    s.append("/");
                    s.append(rhs);
                }
                assert(s@.subrange(0, 4) =~= x@.subrange(0, 4));
                ObjectPath(Some(s))
            },
            None => {
                let mut s = String::from_str(ROOT_PATH_STR);
                s.append(rhs);
                assert(s@.subrange(0, 4) =~= root_chars());
                ObjectPath(Some(s))
            },
        }
    }

    /// The parent path and the last component; `None` for the root.
    pub fn parent_path_and_name(&self) -> (r: Option<(ObjectPath, String)>)
        requires
            self.wf(),
        ensures
            self.0 is None ==> r is None,
            self.0 matches Some(x) ==> r matches Some(pn) && pn.0.wf() && ({
                let i = last_index_of(x@, '/');
                if i >= 4 {
                    pn.0.0 matches Some(p) && p@ == x@.subrange(0, i) && pn.1@ == x@.subrange(i + 1, x@.len() as int)
                } else {
                    pn.0.0 is None && pn.1@ == x@.subrange(4, x@.len() as int)
                }
            }),
    {
        match &self.0 {
            None => None,
            Some(path) => {
                let n = path.unicode_len();
                let mut i: usize = n;
                let ghost p = path@;
                proof {
                    lemma_last_index_bounds(p, '/');
                    assert(p.subrange(0, n as int) == p);
                }
                while i > 0
                    invariant
                        n == p.len(),
                        p == path@,
                        0 <= i <= n,
                        last_index_of(p, '/') == last_index_of(p.subrange(0, i as int), '/'),
                    ensures
                        0 <= i <= n,
                        last_index_of(p, '/') == last_index_of(p.subrange(0, i as int), '/'),
                        i > 0 ==> p[i - 1] == '/',
                    decreases i,
                {
                    let c = path.get_char(i - 1);
                    assert(p.subrange(0, i as int).drop_last() == p.subrange(0, i as int - 1));
                    if c == '/' {
                        break;
                    }
                    i = i - 1;
                }
                proof {
                    if i > 0 {
                        assert(p.subrange(0, i as int).last() == '/');
                        assert(last_index_of(p, '/') == i - 1);
                    }
                }
                let idx: usize = if i > 0 { i - 1 } else { 0 };
                if i > 0 && idx >= 4 {
                    let parent = String::from_str(path.substring_char(0, idx));
                    let name = String::from_str(path.substring_char(idx + 1, n));
                    assert(parent@.subrange(0, 4) =~= p.subrange(0, 4));
                    Some((ObjectPath(Some(parent)), name))
                } else {
                    proof {
                        if i == 0 {
                            assert(p.subrange(0, 0) =~= Seq::<char>::empty());
                            assert(p[3] == root_chars()[3]);
                            lemma_last_index_bounds(p, '/');
                        }
                    }
                    let name = String::from_str(path.substring_char(4, n));
                    Some((ObjectPath(None), name))
                }
            },
        }
    }

    /// The components below the root, in order.
    pub fn split_components(&self) -> (r: Vec<String>)
        ensures
            self.0 is None ==> r@.len() == 0,
            self.0 matches Some(x) ==> segs_view(r@) == split_on(x@, '/').drop_first(),
    {
        match &self.0 {
            Some(x) => {
                let all = split_by(x.as_str(), '/');
                proof {
                    crate::path::lemma_split_on_nonempty(x@, '/');
                }
                let mut r: Vec<String> = Vec::new();
                let mut i: usize = 1;
                while i < all.len()
                    invariant
                        1 <= i <= all@.len(),
                        r@.len() == i - 1,
                        segs_view(all@) == split_on(x@, '/'),
                        segs_view(r@) == segs_view(all@).subrange(1, i as int),
                    decreases all@.len() - i,
                {
                    let s = all[i].clone();
                    proof {
                        assert(s == all@[i as int]);
                        assert forall|j: int| 0 <= j < r@.len() implies segs_view(r@)[j] == segs_view(all@)[j + 1] by {
                            assert(segs_view(r@)[j] == segs_view(all@).subrange(1, i as int)[j]);
                        }
                        assert(segs_view(r@.push(s)) =~= segs_view(all@).subrange(1, i as int + 1));
                    }
                    r.push(s);
                    i = i + 1;
                }
                assert(segs_view(all@).subrange(1, all@.len() as int) =~= segs_view(all@).drop_first());
                r
            },
            None => Vec::new(),
        }
    }
}

} // verus!
