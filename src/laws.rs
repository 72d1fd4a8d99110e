use vstd::prelude::*;
use crate::data_set::{DataObjectInfo, chain_ancestor, chain_value, chain_entries, entries_of, live_of, appends_to_prototype, root_schema, local_entries};
use crate::schema_set::SchemaNamedType;
use crate::value::Value;

verus! {

/// Stepping once along the prototype chain: the ancestor `e + 1` steps above `id` is the
/// ancestor `e` steps above its prototype.
proof fn lemma_ancestor_step(objs: Map<u128, DataObjectInfo>, id: u128, pid: u128, e: nat)
    requires
        objs.contains_key(id),
        objs[id].prototype matches Some(p) && p.0 == pid,
    ensures
        chain_ancestor(objs, id, e + 1) == chain_ancestor(objs, pid, e),
{
}

/// The nearest override on the prototype chain wins: when the asset `d` steps up the chain from
/// `id` overrides path `p` with `v`, and no asset below it does, the chain yields `v` (for any
/// chain shorter than `fuel`).
pub proof fn lemma_nearest_override_wins(objs: Map<u128, DataObjectInfo>, id: u128, p: Seq<Seq<char>>, d: nat, fuel: nat, v: Value)
    requires
        d < fuel,
        chain_ancestor(objs, id, d) matches Some(a) && objs[a].properties.lookup(p) == Some(v),
        forall|e: nat| e < d ==> (#[trigger] chain_ancestor(objs, id, e) matches Some(b) && objs[b].properties.lookup(p) is None),
    ensures
        chain_value(objs, id, p, fuel) == Some(v),
    decreases d,
{
    if d > 0 {
        assert(chain_ancestor(objs, id, 0) is Some);
        let pp = objs[id].prototype->0;
        let pid = pp.0;
        assert forall|e: nat| e < (d - 1) as nat implies (#[trigger] chain_ancestor(objs, pid, e) matches Some(b) && objs[b].properties.lookup(p) is None) by {
            lemma_ancestor_step(objs, id, pid, e);
            assert(chain_ancestor(objs, id, e + 1) is Some);
        }
        lemma_ancestor_step(objs, id, pid, (d - 1) as nat);
        lemma_nearest_override_wins(objs, pid, p, (d - 1) as nat, (fuel - 1) as nat, v);
    }
}

/// When no asset on the prototype chain (within `fuel` steps) overrides `p`, the chain yields
/// nothing and the property resolves to its schema default.
pub proof fn lemma_no_override_gives_default(objs: Map<u128, DataObjectInfo>, id: u128, p: Seq<Seq<char>>, fuel: nat)
    requires
        forall|e: nat| e < fuel ==> (#[trigger] chain_ancestor(objs, id, e) matches Some(b) ==> objs[b].properties.lookup(p) is None),
    ensures
        chain_value(objs, id, p, fuel) is None,
    decreases fuel,
{
    if fuel > 0 && objs.contains_key(id) {
        assert(chain_ancestor(objs, id, 0) == Some(id));
        match objs[id].prototype {
            Some(pp) => {
                assert forall|e: nat| e < (fuel - 1) as nat implies (#[trigger] chain_ancestor(objs, pp.0, e) matches Some(b) ==> objs[b].properties.lookup(p) is None) by {
                    lemma_ancestor_step(objs, id, pp.0, e);
                }
                lemma_no_override_gives_default(objs, pp.0, p, (fuel - 1) as nat);
            },
            None => {},
        }
    }
}

/// Merging a dynamic array: on a live path, the resolved entries are the prototype's merged
/// entries (none when this asset replaces them, or has no prototype) followed by the asset's own
/// entries in insertion order.
pub proof fn lemma_dynamic_array_merge(objs: Map<u128, DataObjectInfo>, id: u128, p: Seq<Seq<char>>, types: Seq<SchemaNamedType>)
    requires
        objs.dom().finite(),
        live_of(objs, id, p, types),
    ensures
        entries_of(objs, id, p, types) == (if appends_to_prototype(objs[id], root_schema(objs[id]), p, types) {
            match objs[id].prototype {
                Some(pid) => chain_entries(objs, pid.0, p, root_schema(objs[id]), types, (objs.len() - 1) as nat),
                None => Seq::<u128>::empty(),
            }
        } else {
            Seq::<u128>::empty()
        }) + local_entries(objs[id], p),
{
    assert(objs.dom().contains(id));
    vstd::set_lib::lemma_set_empty_equivalency_len(objs.dom());
    assert(objs.len() > 0);
}

} // verus!
