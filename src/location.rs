use vstd::prelude::*;
use crate::ids::AssetId;
use crate::data_set::{DataSet, DataObjectInfo};
use crate::object_path::{ObjectPath, root_chars, ROOT_PATH_STR};

verus! {

/// The names of the path nodes above and including `n`, from the top down. The walk stops at
/// the null id, at a missing or unnamed node, and at a node already visited, which is where a
/// cycle in the parent chain is cut and treated as the root.
pub open spec fn walk_names(objs: Map<u128, DataObjectInfo>, n: u128, visited: Seq<u128>, fuel: nat) -> Seq<Seq<char>>
    decreases fuel,
{
    if fuel == 0 || n == 0 || visited.contains(n) || !objs.contains_key(n) || objs[n].object_name.0@.len() == 0 {
        Seq::empty()
    } else {
        walk_names(objs, objs[n].object_location.path_node_id.0, visited.push(n), (fuel - 1) as nat).push(objs[n].object_name.0@)
    }
}

/// The names joined by `/`.
pub open spec fn join_slash(names: Seq<Seq<char>>) -> Seq<char>
    decreases names.len(),
{
    if names.len() == 0 {
        Seq::empty()
    } else if names.len() == 1 {
        names[0]
    } else {
        join_slash(names.drop_last()) + seq!['/'] + names.last()
    }
}

/// The text of the path made of `names` below the root.
pub open spec fn path_text(names: Seq<Seq<char>>) -> Seq<char> {
    root_chars() + join_slash(names)
}

impl DataSet {
    /// The path of path node `path_node` in the location tree: its ancestors' names from the top
    /// down, ending with its own. Missing or unnamed ancestors end the chain at the root, and so
    /// does a node met a second time.
    pub fn path_node_path(&self, path_node: AssetId) -> (r: ObjectPath)
        ensures
            r.wf(),
            r.text() == path_text(walk_names(self.objects@, path_node.0, Seq::empty(), self.objects@.len())),
    {
        let ghost objs = self.objects@;
        let ghost total = walk_names(objs, path_node.0, Seq::empty(), objs.len());
        let mut names: Vec<String> = Vec::new();
        let mut visited: Vec<u128> = Vec::new();
        let mut cur: u128 = path_node.0;
        let mut fuel: usize = self.objects.len();
        let ghost mut top_down: Seq<Seq<char>> = Seq::empty();
        proof {
            assert(total == walk_names(objs, cur, visited@, fuel as nat) + top_down);
        }
        loop
            invariant
                objs == self.objects@,
                total == walk_names(objs, path_node.0, Seq::empty(), objs.len()),
                total == walk_names(objs, cur, visited@, fuel as nat) + top_down,
                top_down.len() == names@.len(),
                forall|i: int| 0 <= i < names@.len() ==> #[trigger] top_down[i] == names@[names@.len() - 1 - i]@,
            ensures
                total == top_down,
                top_down.len() == names@.len(),
                forall|i: int| 0 <= i < names@.len() ==> #[trigger] top_down[i] == names@[names@.len() - 1 - i]@,
            decreases fuel,
        {
            if fuel == 0 || cur == 0 {
                assert(walk_names(objs, cur, visited@, fuel as nat) =~= Seq::<Seq<char>>::empty());
                assert(total =~= top_down);
                break;
            }
            let obj = match self.objects.get(&cur) {
                Some(o) => o,
                None => {
                    assert(walk_names(objs, cur, visited@, fuel as nat) =~= Seq::<Seq<char>>::empty());
                    assert(total =~= top_down);
                    break;
                },
            };
            if crate::data_set::vec_contains(&visited, cur) || obj.object_name.0.unicode_len() == 0 {
                assert(walk_names(objs, cur, visited@, fuel as nat) =~= Seq::<Seq<char>>::empty());
                assert(total =~= top_down);
                break;
            }
            let name = obj.object_name.0.clone();
            let ghost old_names = names@;
            let ghost old_top = top_down;
            let ghost parent_walk = walk_names(objs, obj.object_location.path_node_id.0, visited@.push(cur), (fuel - 1) as nat);
            proof {
                assert(walk_names(objs, cur, visited@, fuel as nat) == parent_walk.push(name@));
                top_down = seq![name@] + top_down;
                assert(parent_walk.push(name@) + old_top =~= parent_walk + top_down);
            }
            names.push(name);
            visited.push(cur);
            cur = obj.object_location.path_node_id.0;
            fuel = fuel - 1;
            proof {
                assert forall|i: int| 0 <= i < names@.len() implies #[trigger] top_down[i] == names@[names@.len() - 1 - i]@ by {
                    if i > 0 {
                        assert(top_down[i] == old_top[i - 1]);
                        assert(names@[names@.len() - 1 - i] == old_names[old_names.len() - 1 - (i - 1)]);
                    }
                }
            }
        }
        proof {
            reveal_strlit("db:/");
            reveal_strlit("/");
        }
        let mut s = String::from_str(ROOT_PATH_STR);
        let len = names.len();
        let mut k: usize = 0;
        while k < len
            invariant
                len == names@.len(),
                top_down.len() == len,
                forall|i: int| 0 <= i < names@.len() ==> #[trigger] top_down[i] == names@[names@.len() - 1 - i]@,
                0 <= k <= len,
                s@ == root_chars() + join_slash(top_down.take(k as int)),
            decreases len - k,
        {
            let nm = &names[len - 1 - k];
            proof {
                assert(top_down[k as int] == nm@);
                assert(top_down.take(k as int + 1).drop_last() =~= top_down.take(k as int));
                assert(top_down.take(k as int + 1).last() == nm@);
            }
            let ghost s0 = s@;
            if k > 0 {
                proof {
                    reveal_strlit("/");
                    assert("/"@ == seq!['/']);
                }
                s.append("/");
                assert(s@ == s0 + seq!['/']);
            }
            s.append(nm.as_str());
            proof {
                if k == 0 {
                    assert(top_down.take(0) =~= Seq::<Seq<char>>::empty());
                    assert(join_slash(top_down.take(1)) == top_down.take(1)[0]);
                    assert(s@ =~= root_chars() + join_slash(top_down.take(1)));
                } else {
                    assert(s@ == s0 + seq!['/'] + nm@);
                    assert(join_slash(top_down.take(k as int + 1)) == join_slash(top_down.take(k as int)) + seq!['/'] + nm@);
                    assert(s@ =~= root_chars() + join_slash(top_down.take(k as int + 1)));
                }
            }
            k = k + 1;
        }
        assert(top_down.take(len as int) =~= top_down);
        if len == 0 {
            assert(s@ =~= root_chars());
            return ObjectPath::root();
        }
        assert(s@.subrange(0, 4) =~= root_chars());
        ObjectPath(Some(s))
    }
}


/// The text of `name` placed below the path whose text is `path`.
pub open spec fn child_text(path: Seq<char>, name: Seq<char>) -> Seq<char> {
    if path == root_chars() {
        path + name
    } else {
        path + seq!['/'] + name
    }
}

impl DataSet {
    /// The long display name of an asset: the path of its parent path node, then its name (or,
    /// for an unnamed asset, its id as UUID text).
    pub fn object_display_name_long(&self, object_id: AssetId) -> (r: String)
        ensures
            r@ == child_text(
                if self.objects@.contains_key(object_id.0) {
                    path_text(walk_names(self.objects@, self.objects@[object_id.0].object_location.path_node_id.0, Seq::empty(), self.objects@.len()))
                } else {
                    root_chars()
                },
                if self.objects@.contains_key(object_id.0) && self.objects@[object_id.0].object_name.0@.len() > 0 {
                    self.objects@[object_id.0].object_name.0@
                } else {
                    crate::field_wrappers::uuid_text_of(object_id.0)
                }),
    {
        let (path, name) = match self.objects.get(&object_id.0) {
            Some(o) => {
                let p = self.path_node_path(o.object_location.path_node_id);
                let n = if o.object_name.0.unicode_len() > 0 {
                    o.object_name.0.clone()
                } else {
                    crate::field_wrappers::uuid_text(object_id.0)
                };
                (p, n)
            },
            None => (ObjectPath::root(), crate::field_wrappers::uuid_text(object_id.0)),
        };
        let ghost ptext = if self.objects@.contains_key(object_id.0) {
            path_text(walk_names(self.objects@, self.objects@[object_id.0].object_location.path_node_id.0, Seq::empty(), self.objects@.len()))
        } else {
            root_chars()
        };
        let ghost ntext = if self.objects@.contains_key(object_id.0) && self.objects@[object_id.0].object_name.0@.len() > 0 {
            self.objects@[object_id.0].object_name.0@
        } else {
            crate::field_wrappers::uuid_text_of(object_id.0)
        };
        assert(path.text() == ptext);
        assert(name@ == ntext);
        proof {
            reveal_strlit("db:/");
            reveal_strlit("/");
        }
        let root = ObjectPath::root();
        let is_root = crate::schema::str_eq(path.as_str(), root.as_str());
        let mut s = String::from_str(path.as_str());
        if !is_root {
            assert("/"@ == seq!['/']);
            s.append("/");
            assert(s@ == ptext + seq!['/']);
        } else {
            assert(ptext == root_chars());
        }
        s.append(name.as_str());
        assert(s@ =~= child_text(ptext, ntext));
        s
    }
}

} // verus!
