use vstd::prelude::*;
use std::collections::HashMap;
use crate::ids::{AssetId, SchemaFingerprint};
use crate::error::{DataSetError, DataSetResult};
use crate::path::{segs_view, split_dots, split_path, path_prefix, lemma_split_dots_nonempty};
use crate::path_map::{PathMap, opt_view};
use crate::schema::{Schema, SchemaRecord};
use crate::schema_set::{SchemaSet, SchemaNamedType, schema_at};
use crate::value::{Value, ValueView, value_matches, is_default_for, has_default, default_view};

verus! {

broadcast use vstd::std_specs::hash::group_hash_axioms;

/// What a nullable property resolves to.
#[derive(Copy, Clone, Debug, PartialEq, Eq, Structural)]
pub enum NullOverride {
    SetNull,
    SetNonNull,
}

/// How an array or map property combines with its prototype's entries.
#[derive(Copy, Clone, Debug, PartialEq, Eq, Structural)]
pub enum OverrideBehavior {
    Append,
    Replace,
}

impl View for NullOverride {
    type V = NullOverride;

    open spec fn view(&self) -> NullOverride {
        *self
    }
}

impl crate::path_map::Duplicate for NullOverride {
    fn duplicate(&self) -> (r: Self) {
        *self
    }
}

impl crate::path_map::Duplicate for Value {
    fn duplicate(&self) -> (r: Self) {
        Value::duplicate(self)
    }
}

/// The data source that an asset belongs to.
#[derive(Copy, Clone, Debug, PartialEq, Eq, Hash, Structural)]
pub struct ObjectSourceId(pub u128);

impl ObjectSourceId {
    /// A new source id, drawn at random.
    pub fn new() -> (r: Self)
    {
        ObjectSourceId(random_uuid())
    }

    pub fn null() -> (r: Self)
        ensures r.0 == 0,
    {
        ObjectSourceId(0)
    }

    pub fn uuid(&self) -> (r: u128)
        ensures r == self.0,
    {
        self.0
    }
}

/// Where an asset sits: its data source and its parent path node.
#[derive(Copy, Clone, Debug, PartialEq, Eq, Hash, Structural)]
pub struct ObjectLocation {
    pub source: ObjectSourceId,
    pub path_node_id: AssetId,
}

impl ObjectLocation {
    pub fn new(source: ObjectSourceId, path_node_id: AssetId) -> (r: Self)
        ensures r.source == source, r.path_node_id == path_node_id,
    {
        ObjectLocation { source, path_node_id }
    }

    pub fn null() -> (r: Self)
        ensures r.source.0 == 0, r.path_node_id.0 == 0,
    {
        ObjectLocation { source: ObjectSourceId(0), path_node_id: AssetId(0) }
    }

    pub fn source(&self) -> (r: ObjectSourceId)
        ensures r == self.source,
    {
        self.source
    }

    pub fn path_node_id(&self) -> (r: AssetId)
        ensures r == self.path_node_id,
    {
        self.path_node_id
    }
}

/// An asset's name; the empty name means "unnamed".
#[derive(Clone, Debug, PartialEq, Eq, Hash)]
pub struct ObjectName(pub String);

impl ObjectName {
    pub fn new(name: String) -> (r: Self)
        ensures r.0 == name,
    {
        ObjectName(name)
    }

    pub fn empty() -> (r: Self)
        ensures r.0@.len() == 0,
    {
        ObjectName(String::new())
    }

    pub fn as_string(&self) -> (r: Option<&String>)
        ensures
            r is None <==> self.0@.len() == 0,
            r matches Some(s) ==> *s == self.0,
    {
        if self.0.unicode_len() == 0 {
            None
        } else {
            Some(&self.0)
        }
    }
}

/// A change to one asset (carries nothing yet).
#[derive(Copy, Clone, Debug, Default)]
pub struct DataObjectDelta {}

/// One asset: its schema, name, location, prototype and overrides.
#[derive(Debug)]
pub struct DataObjectInfo {
    pub schema: SchemaRecord,
    pub object_name: ObjectName,
    pub object_location: ObjectLocation,
    pub prototype: Option<AssetId>,
    pub properties: PathMap<Value>,
    pub property_null_overrides: PathMap<NullOverride>,
    pub properties_in_replace_mode: PathMap<()>,
    pub dynamic_array_entries: PathMap<Vec<u128>>,
}

impl DataObjectInfo {
    pub fn object_location(&self) -> (r: &ObjectLocation)
        ensures *r == self.object_location,
    {
        &self.object_location
    }

    pub fn object_name(&self) -> (r: &ObjectName)
        ensures *r == self.object_name,
    {
        &self.object_name
    }

    pub fn schema(&self) -> (r: &SchemaRecord)
        ensures *r == self.schema,
    {
        &self.schema
    }
}

/// The kind of schema met at one step of a property path.
#[derive(Copy, Clone, Debug, PartialEq, Eq, Structural)]
pub enum AncestorKind {
    Nullable,
    DynamicArray,
    KeyedMap,
    Other,
}

pub open spec fn kind_of(s: Option<Schema>) -> AncestorKind {
    match s {
        Some(Schema::Nullable(_)) => AncestorKind::Nullable,
        Some(Schema::DynamicArray(_)) => AncestorKind::DynamicArray,
        Some(Schema::KeyedMap(_)) => AncestorKind::KeyedMap,
        _ => AncestorKind::Other,
    }
}

/// What `uuid` makes of a string: the 128-bit value of a well-formed UUID text, if it is one.
pub uninterp spec fn uuid_parse(s: Seq<char>) -> Option<u128>;

/// Relies on `uuid::Uuid::parse_str`: the value of the UUID that the text spells, if any.
#[verifier::external_body]
fn parse_uuid(s: &str) -> (r: Option<u128>)
    ensures
        r == uuid_parse(s@),
{
    match uuid::Uuid::parse_str(s) {
        Ok(u) => Some(u.as_u128()),
        Err(_) => None,
    }
}

/// Relies on `uuid::Uuid::new_v4`: a random 128-bit identifier. Nothing is known of its value.
#[verifier::external_body]
pub(crate) fn random_uuid() -> (r: u128)
{
    uuid::Uuid::new_v4().as_u128()
}

/// The record schema that an asset's paths start from.
pub open spec fn root_schema(o: DataObjectInfo) -> Schema {
    Schema::NamedType(o.schema.inner.fingerprint)
}

/// First null override for `p` on the prototype chain from `id`, visiting at most `fuel` assets.
pub open spec fn chain_null(objs: Map<u128, DataObjectInfo>, id: u128, p: Seq<Seq<char>>, fuel: nat) -> Option<NullOverride>
    decreases fuel,
{
    if fuel == 0 || !objs.contains_key(id) {
        None
    } else {
        match objs[id].property_null_overrides.lookup(p) {
            Some(n) => Some(n),
            None => match objs[id].prototype {
                Some(pid) => chain_null(objs, pid.0, p, (fuel - 1) as nat),
                None => None,
            },
        }
    }
}

/// First value override for `p` on the prototype chain from `id`, visiting at most `fuel` assets.
pub open spec fn chain_value(objs: Map<u128, DataObjectInfo>, id: u128, p: Seq<Seq<char>>, fuel: nat) -> Option<Value>
    decreases fuel,
{
    if fuel == 0 || !objs.contains_key(id) {
        None
    } else {
        match objs[id].properties.lookup(p) {
            Some(v) => Some(v),
            None => match objs[id].prototype {
                Some(pid) => chain_value(objs, pid.0, p, (fuel - 1) as nat),
                None => None,
            },
        }
    }
}

/// The asset reached after `n` prototype steps from `id`.
pub open spec fn chain_ancestor(objs: Map<u128, DataObjectInfo>, id: u128, n: nat) -> Option<u128>
    decreases n,
{
    if !objs.contains_key(id) {
        None
    } else if n == 0 {
        Some(id)
    } else {
        match objs[id].prototype {
            Some(pid) => chain_ancestor(objs, pid.0, (n - 1) as nat),
            None => None,
        }
    }
}

/// The entries that an asset itself adds to the dynamic array at `p`.
pub open spec fn local_entries(o: DataObjectInfo, p: Seq<Seq<char>>) -> Seq<u128> {
    match o.dynamic_array_entries.lookup(p) {
        Some(v) => v@,
        None => Seq::empty(),
    }
}

/// True when no array or map ancestor among the first `k` steps of `p` is in replace mode on `o`.
pub open spec fn no_replaced_ancestor(o: DataObjectInfo, start: Schema, p: Seq<Seq<char>>, types: Seq<SchemaNamedType>, k: int) -> bool
    decreases k,
{
    if k <= 0 {
        true
    } else {
        no_replaced_ancestor(o, start, p, types, k - 1) && match kind_of(schema_at(start, p, types, k - 1)) {
            AncestorKind::DynamicArray | AncestorKind::KeyedMap => o.properties_in_replace_mode.lookup(p.take(k - 1)) is None,
            _ => true,
        }
    }
}

/// True when `o` appends to its prototype's entries at `p`: neither `p` nor an array or map
/// ancestor of it is in replace mode.
pub open spec fn appends_to_prototype(o: DataObjectInfo, start: Schema, p: Seq<Seq<char>>, types: Seq<SchemaNamedType>) -> bool {
    no_replaced_ancestor(o, start, p, types, p.len() as int) && o.properties_in_replace_mode.lookup(p) is None
}

/// Entries of the dynamic array at `p`, merged along the prototype chain: the prototype's
/// entries first (unless replaced), then the asset's own in insertion order.
pub open spec fn chain_entries(objs: Map<u128, DataObjectInfo>, id: u128, p: Seq<Seq<char>>, start: Schema, types: Seq<SchemaNamedType>, fuel: nat) -> Seq<u128>
    decreases fuel,
{
    if fuel == 0 || !objs.contains_key(id) {
        Seq::empty()
    } else {
        let o = objs[id];
        let inherited = if appends_to_prototype(o, start, p, types) {
            match o.prototype {
                Some(pid) => chain_entries(objs, pid.0, p, start, types, (fuel - 1) as nat),
                None => Seq::empty(),
            }
        } else {
            Seq::empty()
        };
        inherited + local_entries(o, p)
    }
}

/// True when the first `k` steps of path `p` are live on asset `id`: every nullable ancestor
/// resolves non-null and every accessed dynamic-array entry exists.
pub open spec fn live_upto(objs: Map<u128, DataObjectInfo>, id: u128, p: Seq<Seq<char>>, start: Schema, types: Seq<SchemaNamedType>, k: int) -> bool
    decreases p.len(), k,
{
    if k <= 0 || k > p.len() {
        true
    } else {
        live_upto(objs, id, p, start, types, k - 1) && match kind_of(schema_at(start, p, types, k - 1)) {
            AncestorKind::Nullable => null_state(objs, id, p.take(k - 1), start, types) == Some(false),
            AncestorKind::DynamicArray => match uuid_parse(p[k - 1]) {
                Some(u) => resolved_entries(objs, id, p.take(k - 1), start, types).contains(u),
                None => false,
            },
            _ => true,
        }
    }
}

/// Whether the nullable at `p` is null on asset `id`; `None` when `p` is no live nullable.
pub open spec fn null_state(objs: Map<u128, DataObjectInfo>, id: u128, p: Seq<Seq<char>>, start: Schema, types: Seq<SchemaNamedType>) -> Option<bool>
    decreases p.len(), p.len() + 1,
{
    if !(schema_at(start, p, types, p.len() as int) matches Some(Schema::Nullable(_))) {
        None
    } else if !live_upto(objs, id, p, start, types, p.len() as int) {
        None
    } else {
        match chain_null(objs, id, p, objs.len()) {
            Some(n) => Some(n == NullOverride::SetNull),
            None => Some(true),
        }
    }
}

/// The entries of the dynamic array at `p` on asset `id`; empty when `p` is not live.
pub open spec fn resolved_entries(objs: Map<u128, DataObjectInfo>, id: u128, p: Seq<Seq<char>>, start: Schema, types: Seq<SchemaNamedType>) -> Seq<u128>
    decreases p.len(), p.len() + 1,
{
    if !live_upto(objs, id, p, start, types, p.len() as int) {
        Seq::empty()
    } else {
        chain_entries(objs, id, p, start, types, objs.len())
    }
}

/// Whether `p` is null on `id`, starting from the asset's own record schema.
pub open spec fn null_of(objs: Map<u128, DataObjectInfo>, id: u128, p: Seq<Seq<char>>, types: Seq<SchemaNamedType>) -> Option<bool> {
    if objs.contains_key(id) {
        null_state(objs, id, p, root_schema(objs[id]), types)
    } else {
        None
    }
}

/// The resolved dynamic-array entries at `p` on `id`.
pub open spec fn entries_of(objs: Map<u128, DataObjectInfo>, id: u128, p: Seq<Seq<char>>, types: Seq<SchemaNamedType>) -> Seq<u128> {
    if objs.contains_key(id) {
        resolved_entries(objs, id, p, root_schema(objs[id]), types)
    } else {
        Seq::empty()
    }
}

/// True when path `p` is live on `id` (see `live_upto`).
pub open spec fn live_of(objs: Map<u128, DataObjectInfo>, id: u128, p: Seq<Seq<char>>, types: Seq<SchemaNamedType>) -> bool {
    objs.contains_key(id) && live_upto(objs, id, p, root_schema(objs[id]), types, p.len() as int)
}

/// The schema at `p` on `id`.
pub open spec fn schema_of(objs: Map<u128, DataObjectInfo>, id: u128, p: Seq<Seq<char>>, types: Seq<SchemaNamedType>) -> Option<Schema> {
    if objs.contains_key(id) {
        schema_at(root_schema(objs[id]), p, types, p.len() as int)
    } else {
        None
    }
}

/// True when `kinds` lists the kind of each step of `p` from `start`.
pub open spec fn kinds_match(kinds: Seq<AncestorKind>, start: Schema, p: Seq<Seq<char>>, types: Seq<SchemaNamedType>) -> bool {
    &&& kinds.len() == p.len()
    &&& forall|j: int| 0 <= j < p.len() ==> #[trigger] kinds[j] == kind_of(schema_at(start, p, types, j))
}

proof fn lemma_live_mono(objs: Map<u128, DataObjectInfo>, id: u128, p: Seq<Seq<char>>, start: Schema, types: Seq<SchemaNamedType>, j: int, m: int)
    requires
        0 <= j <= m <= p.len(),
        live_upto(objs, id, p, start, types, m),
    ensures
        live_upto(objs, id, p, start, types, j),
    decreases m - j,
{
    if j < m {
        lemma_live_mono(objs, id, p, start, types, j, m - 1);
    }
}

proof fn lemma_no_replaced_mono(o: DataObjectInfo, start: Schema, p: Seq<Seq<char>>, types: Seq<SchemaNamedType>, j: int, m: int)
    requires
        0 <= j <= m,
        !no_replaced_ancestor(o, start, p, types, j),
    ensures
        !no_replaced_ancestor(o, start, p, types, m),
    decreases m - j,
{
    if j < m {
        lemma_no_replaced_mono(o, start, p, types, j, m - 1);
    }
}

/// True when `v` holds `u`.
pub fn vec_contains(v: &Vec<u128>, u: u128) -> (r: bool)
    ensures
        r == v@.contains(u),
{
    let mut i: usize = 0;
    while i < v.len()
        invariant
            0 <= i <= v@.len(),
            forall|j: int| 0 <= j < i ==> v@[j] != u,
        decreases v@.len() - i,
    {
        if v[i] == u {
            assert(v@[i as int] == u);
            return true;
        }
        i = i + 1;
    }
    false
}

fn kind_of_exec(s: Option<&Schema>) -> (r: AncestorKind)
    ensures
        r == kind_of(crate::schema::deref_opt(s)),
{
    match s {
        Some(Schema::Nullable(_)) => AncestorKind::Nullable,
        Some(Schema::DynamicArray(_)) => AncestorKind::DynamicArray,
        Some(Schema::KeyedMap(_)) => AncestorKind::KeyedMap,
        _ => AncestorKind::Other,
    }
}

/// Walks `segs` from the record with fingerprint `fp`, returning the schema reached and the kind
/// of schema met before each step.
pub fn property_schema_and_path_ancestors_to_check<'a>(schema_set: &'a SchemaSet, fp: crate::ids::SchemaFingerprint, segs: &[String]) -> (r: (Option<&'a Schema>, Vec<AncestorKind>))
    requires
        segs@.len() >= 1,
    ensures
        crate::schema::deref_opt(r.0) == schema_at(Schema::NamedType(fp), segs_view(segs@), schema_set.named_types@, segs@.len() as int),
        kinds_match(r.1@, Schema::NamedType(fp), segs_view(segs@), schema_set.named_types@),
{
    let ghost sv = segs_view(segs@);
    let ghost types = schema_set.named_types@;
    let ghost start = Schema::NamedType(fp);
    let mut kinds: Vec<AncestorKind> = Vec::new();
    kinds.push(AncestorKind::Other);
    assert(schema_at(start, sv, types, 0) == Some(start));
    let first = match schema_set.find_by_fingerprint(fp) {
        Some(SchemaNamedType::Record(rec)) => rec.field_schema(segs[0].as_str()),
        _ => None,
    };
    assert(crate::schema::deref_opt(first) == schema_at(start, sv, types, 1));
    let mut cur = first;
    let mut k: usize = 1;
    while k < segs.len()
        invariant
            1 <= k <= segs@.len(),
            sv == segs_view(segs@),
            types == schema_set.named_types@,
            start == Schema::NamedType(fp),
            crate::schema::deref_opt(cur) == schema_at(start, sv, types, k as int),
            kinds@.len() == k,
            forall|j: int| 0 <= j < k ==> #[trigger] kinds@[j] == kind_of(schema_at(start, sv, types, j)),
        decreases segs@.len() - k,
    {
        kinds.push(kind_of_exec(cur));
        match cur {
            Some(s) => {
                cur = s.find_property_schema(segs[k].as_str(), schema_set);
            },
            None => {},
        }
        k = k + 1;
    }
    (cur, kinds)
}

/// `b` is `a` with at most the value overrides changed.
pub open spec fn same_but_properties(a: DataObjectInfo, b: DataObjectInfo) -> bool {
    &&& a.schema == b.schema
    &&& a.object_name == b.object_name
    &&& a.object_location == b.object_location
    &&& a.prototype == b.prototype
    &&& a.property_null_overrides == b.property_null_overrides
    &&& a.properties_in_replace_mode == b.properties_in_replace_mode
    &&& a.dynamic_array_entries == b.dynamic_array_entries
}

/// `b` is `a` with at most the null overrides changed.
pub open spec fn same_but_null_overrides(a: DataObjectInfo, b: DataObjectInfo) -> bool {
    &&& a.schema == b.schema
    &&& a.object_name == b.object_name
    &&& a.object_location == b.object_location
    &&& a.prototype == b.prototype
    &&& a.properties == b.properties
    &&& a.properties_in_replace_mode == b.properties_in_replace_mode
    &&& a.dynamic_array_entries == b.dynamic_array_entries
}

/// `b` is `a` with at most the replace-mode paths changed.
pub open spec fn same_but_replace_mode(a: DataObjectInfo, b: DataObjectInfo) -> bool {
    &&& a.schema == b.schema
    &&& a.object_name == b.object_name
    &&& a.object_location == b.object_location
    &&& a.prototype == b.prototype
    &&& a.properties == b.properties
    &&& a.property_null_overrides == b.property_null_overrides
    &&& a.dynamic_array_entries == b.dynamic_array_entries
}

/// `b` is `a` with at most the dynamic-array entries changed.
pub open spec fn same_but_entries(a: DataObjectInfo, b: DataObjectInfo) -> bool {
    &&& a.schema == b.schema
    &&& a.object_name == b.object_name
    &&& a.object_location == b.object_location
    &&& a.prototype == b.prototype
    &&& a.properties == b.properties
    &&& a.property_null_overrides == b.property_null_overrides
    &&& a.properties_in_replace_mode == b.properties_in_replace_mode
}

/// `new` maps `p` to `v` and agrees with `old` on every other path.
pub open spec fn path_set<V>(old: PathMap<V>, new: PathMap<V>, p: Seq<Seq<char>>, v: Option<V>) -> bool {
    &&& new.lookup(p) == v
    &&& forall|q: Seq<Seq<char>>| q != p ==> #[trigger] new.lookup(q) == old.lookup(q)
}

/// `new` holds the assets of `old`, with asset `id` replaced.
pub open spec fn replaced_one(old: Map<u128, DataObjectInfo>, new: Map<u128, DataObjectInfo>, id: u128) -> bool {
    old.contains_key(id) && new == old.insert(id, new[id])
}

/// A freshly created asset: no overrides of any kind.
pub open spec fn is_fresh_object(o: DataObjectInfo) -> bool {
    &&& forall|q: Seq<Seq<char>>| #[trigger] o.properties.lookup(q) is None
    &&& forall|q: Seq<Seq<char>>| #[trigger] o.property_null_overrides.lookup(q) is None
    &&& forall|q: Seq<Seq<char>>| #[trigger] o.properties_in_replace_mode.lookup(q) is None
    &&& forall|q: Seq<Seq<char>>| #[trigger] o.dynamic_array_entries.lookup(q) is None
}

/// Why a write at path `p` of asset `id` is refused, if it is: the asset is missing, the path
/// names no property, or the path is not live.
pub open spec fn write_refusal(objs: Map<u128, DataObjectInfo>, id: u128, p: Seq<Seq<char>>, types: Seq<SchemaNamedType>) -> Option<DataSetError> {
    if !objs.contains_key(id) {
        Some(DataSetError::AssetNotFound)
    } else if schema_of(objs, id, p, types) is None {
        Some(DataSetError::UnknownField)
    } else {
        None
    }
}

/// The outcome of writing `value` (or removing, for `None`) at path `p` of asset `id`: `old`
/// and `new` are the assets before and after, `r` what the write returned.
pub open spec fn override_written(old: Map<u128, DataObjectInfo>, new: Map<u128, DataObjectInfo>, id: u128, p: Seq<Seq<char>>, types: Seq<SchemaNamedType>, value: Option<Value>, r: DataSetResult<Option<Value>>) -> bool {
    &&& (write_refusal(old, id, p, types) matches Some(e) ==> r == Err::<Option<Value>, DataSetError>(e))
    &&& write_refusal(old, id, p, types) is None ==> match (value, schema_of(old, id, p, types)) {
        (Some(v), Some(s)) => !value_matches(v, s, types) ==> r == Err::<Option<Value>, DataSetError>(DataSetError::SchemaMismatch),
        _ => true,
    }
    &&& r == Err::<Option<Value>, DataSetError>(DataSetError::UnresolvablePath) <==> write_refusal(old, id, p, types) is None
        && (value matches Some(v) ==> value_matches(v, schema_of(old, id, p, types)->0, types))
        && !live_of(old, id, p, types)
    &&& r is Ok <==> write_refusal(old, id, p, types) is None
        && (value matches Some(v) ==> value_matches(v, schema_of(old, id, p, types)->0, types))
        && live_of(old, id, p, types)
    &&& r is Err ==> new == old
    &&& (r matches Ok(prev) ==> prev == old[id].properties.lookup(p)
        && replaced_one(old, new, id)
        && same_but_properties(old[id], new[id])
        && path_set(old[id].properties, new[id].properties, p, value))
}

/// The outcome of setting null override `n` at path `p` of asset `id`.
pub open spec fn null_override_written(old: Map<u128, DataObjectInfo>, new: Map<u128, DataObjectInfo>, id: u128, p: Seq<Seq<char>>, types: Seq<SchemaNamedType>, n: NullOverride, r: DataSetResult<()>) -> bool {
    &&& (write_refusal(old, id, p, types) matches Some(e) ==> r == Err::<(), DataSetError>(e))
    &&& write_refusal(old, id, p, types) is None && !(schema_of(old, id, p, types) matches Some(Schema::Nullable(_)))
        ==> r == Err::<(), DataSetError>(DataSetError::InvalidSchema)
    &&& r is Ok <==> write_refusal(old, id, p, types) is None && (schema_of(old, id, p, types) matches Some(Schema::Nullable(_)))
    &&& r is Err ==> new == old
    &&& r is Ok ==> replaced_one(old, new, id) && same_but_null_overrides(old[id], new[id])
        && path_set(old[id].property_null_overrides, new[id].property_null_overrides, p, Some(n))
}

/// The view of a resolution result.
pub open spec fn result_view(r: DataSetResult<Value>) -> DataSetResult<ValueView> {
    match r {
        Ok(v) => Ok(v@),
        Err(e) => Err(e),
    }
}

/// What resolving the property at `p` of asset `id` gives, as a view: the nearest override on
/// the prototype chain, else the schema default.
pub open spec fn resolve_view(objs: Map<u128, DataObjectInfo>, id: u128, p: Seq<Seq<char>>, types: Seq<SchemaNamedType>) -> DataSetResult<ValueView> {
    match write_refusal(objs, id, p, types) {
        Some(e) => Err(e),
        None => if !live_of(objs, id, p, types) {
            Err(DataSetError::UnresolvablePath)
        } else {
            match chain_value(objs, id, p, objs.len()) {
                Some(v) => Ok(v@),
                None => match default_view(schema_of(objs, id, p, types)->0, types) {
                    Some(d) => Ok(d),
                    None => Err(DataSetError::InvalidSchema),
                },
            }
        },
    }
}

/// The set of assets, keyed by asset id.
pub struct DataSet {
    pub objects: HashMap<u128, DataObjectInfo>,
}

impl DataSet {
    pub fn new() -> (r: Self)
        ensures
            r.objects@ == Map::<u128, DataObjectInfo>::empty(),
    {
        DataSet { objects: HashMap::new() }
    }

    /// Whether asset `o` appends to its prototype's entries at `p`.
    fn appends_exec(o: &DataObjectInfo, p: &[String], kinds: &[AncestorKind], Ghost(start): Ghost<Schema>, Ghost(types): Ghost<Seq<SchemaNamedType>>) -> (r: bool)
        requires
            kinds_match(kinds@, start, segs_view(p@), types),
        ensures
            r == appends_to_prototype(*o, start, segs_view(p@), types),
    {
        let ghost sv = segs_view(p@);
        let mut k: usize = 0;
        while k < kinds.len()
            invariant
                sv == segs_view(p@),
                kinds_match(kinds@, start, sv, types),
                0 <= k <= kinds@.len(),
                no_replaced_ancestor(*o, start, sv, types, k as int),
            decreases kinds@.len() - k,
        {
            match kinds[k] {
                AncestorKind::DynamicArray | AncestorKind::KeyedMap => {
                    let pre = path_prefix(p, k);
                    if o.properties_in_replace_mode.contains(pre.as_slice()) {
                        proof {
                            assert(!no_replaced_ancestor(*o, start, sv, types, k as int + 1));
                            lemma_no_replaced_mono(*o, start, sv, types, k as int + 1, sv.len() as int);
                        }
                        return false;
                    }
                },
                _ => {},
            }
            k = k + 1;
        }
        !o.properties_in_replace_mode.contains(p)
    }

    /// Appends to `out` the entries at `p` merged along the chain from `id`.
    fn collect_entries(&self, id: u128, p: &[String], kinds: &[AncestorKind], Ghost(start): Ghost<Schema>, Ghost(types): Ghost<Seq<SchemaNamedType>>, fuel: usize, out: &mut Vec<u128>)
        requires
            kinds_match(kinds@, start, segs_view(p@), types),
        ensures
            final(out)@ == old(out)@ + chain_entries(self.objects@, id, segs_view(p@), start, types, fuel as nat),
        decreases fuel,
    {
        let ghost sv = segs_view(p@);
        let ghost out0 = out@;
        if fuel == 0 {
            assert(out@ =~= out0 + Seq::<u128>::empty());
            return;
        }
        let o = match self.objects.get(&id) {
            None => {
                assert(out@ =~= out0 + Seq::<u128>::empty());
                return;
            },
            Some(o) => o,
        };
        let app = Self::appends_exec(o, p, kinds, Ghost(start), Ghost(types));
        let ghost inherited = if app {
            match o.prototype {
                Some(pid) => chain_entries(self.objects@, pid.0, sv, start, types, (fuel - 1) as nat),
                None => Seq::<u128>::empty(),
            }
        } else {
            Seq::<u128>::empty()
        };
        if app {
            match o.prototype {
                Some(pid) => {
                    self.collect_entries(pid.0, p, kinds, Ghost(start), Ghost(types), fuel - 1, out);
                },
                None => {},
            }
        }
        assert(out@ =~= out0 + inherited);
        let ghost mid = out@;
        match o.dynamic_array_entries.get(p) {
            Some(v) => {
                let mut i: usize = 0;
                while i < v.len()
                    invariant
                        0 <= i <= v@.len(),
                        out@ == mid + v@.take(i as int),
                    decreases v@.len() - i,
                {
                    out.push(v[i]);
                    assert(v@.take(i as int + 1) =~= v@.take(i as int).push(v@[i as int]));
                    assert(mid + v@.take(i as int + 1) =~= (mid + v@.take(i as int)).push(v@[i as int]));
                    i = i + 1;
                }
                assert(v@.take(v@.len() as int) =~= v@);
                assert(local_entries(*o, sv) == v@);
            },
            None => {
                assert(local_entries(*o, sv) == Seq::<u128>::empty());
                assert(out@ =~= mid + Seq::<u128>::empty());
            },
        }
        assert(out@ =~= out0 + (inherited + local_entries(*o, sv)));
    }

    /// True when path `p` is live on `id`: every nullable step resolves non-null and every
    /// dynamic-array entry that the path goes through exists.
    fn path_live(&self, schema_set: &SchemaSet, id: u128, p: &[String], kinds: &[AncestorKind]) -> (r: bool)
        requires
            self.objects@.contains_key(id),
            kinds_match(kinds@, root_schema(self.objects@[id]), segs_view(p@), schema_set.named_types@),
        ensures
            r == live_upto(self.objects@, id, segs_view(p@), root_schema(self.objects@[id]), schema_set.named_types@, p@.len() as int),
        decreases p@.len(), 0nat,
    {
        let ghost sv = segs_view(p@);
        let ghost objs = self.objects@;
        let ghost types = schema_set.named_types@;
        let ghost start = root_schema(self.objects@[id]);
        let n = kinds.len();
        let mut k: usize = 0;
        while k < n
            invariant
                n == kinds@.len(),
                n == sv.len(),
                sv == segs_view(p@),
                objs == self.objects@,
                types == schema_set.named_types@,
                objs.contains_key(id),
                start == root_schema(objs[id]),
                kinds_match(kinds@, start, sv, types),
                0 <= k <= n,
                live_upto(objs, id, sv, start, types, k as int),
            decreases n - k,
        {
            match kinds[k] {
                AncestorKind::Nullable => {
                    let pre = path_prefix(p, k);
                    assert(segs_view(pre@) == sv.take(k as int));
                    let st = self.resolve_is_null_segs(schema_set, id, pre.as_slice());
                    let ok = match st {
                        Some(b) => !b,
                        None => false,
                    };
                    if !ok {
                        proof {
                            if live_upto(objs, id, sv, start, types, n as int) {
                                lemma_live_mono(objs, id, sv, start, types, k as int + 1, n as int);
                            }
                        }
                        return false;
                    }
                },
                AncestorKind::DynamicArray => {
                    let pre = path_prefix(p, k);
                    assert(segs_view(pre@) == sv.take(k as int));
                    assert(p@[k as int]@ == sv[k as int]);
                    let ok = match parse_uuid(p[k].as_str()) {
                        Some(u) => {
                            let entries = self.resolve_entries_segs(schema_set, id, pre.as_slice());
                            vec_contains(&entries, u)
                        },
                        None => false,
                    };
                    if !ok {
                        proof {
                            if live_upto(objs, id, sv, start, types, n as int) {
                                lemma_live_mono(objs, id, sv, start, types, k as int + 1, n as int);
                            }
                        }
                        return false;
                    }
                },
                _ => {},
            }
            k = k + 1;
        }
        true
    }

    /// Whether the nullable at `p` is null on `id`; `None` when `p` is no live nullable.
    fn resolve_is_null_segs(&self, schema_set: &SchemaSet, id: u128, p: &[String]) -> (r: Option<bool>)
        ensures
            r == null_of(self.objects@, id, segs_view(p@), schema_set.named_types@),
        decreases p@.len(), 1nat,
    {
        let obj = match self.objects.get(&id) {
            None => {
                return None;
            },
            Some(o) => o,
        };
        if p.len() == 0 {
            assert(schema_at(root_schema(*obj), segs_view(p@), schema_set.named_types@, 0) == Some(root_schema(*obj)));
            return None;
        }
        let (schema, kinds) = property_schema_and_path_ancestors_to_check(schema_set, obj.schema.fingerprint(), p);
        match schema {
            Some(Schema::Nullable(_)) => {},
            _ => {
                return None;
            },
        }
        if !self.path_live(schema_set, id, p, kinds.as_slice()) {
            return None;
        }
        match self.chain_null_exec(id, p) {
            Some(n) => Some(n == NullOverride::SetNull),
            None => Some(true),
        }
    }

    /// The merged entries of the dynamic array at `p` on `id`.
    fn resolve_entries_segs(&self, schema_set: &SchemaSet, id: u128, p: &[String]) -> (r: Vec<u128>)
        ensures
            r@ == entries_of(self.objects@, id, segs_view(p@), schema_set.named_types@),
        decreases p@.len(), 1nat,
    {
        let obj = match self.objects.get(&id) {
            None => {
                return Vec::new();
            },
            Some(o) => o,
        };
        if p.len() == 0 {
            let mut out: Vec<u128> = Vec::new();
            let kinds: Vec<AncestorKind> = Vec::new();
            let ghost start = root_schema(*obj);
            self.collect_entries(id, p, kinds.as_slice(), Ghost(start), Ghost(schema_set.named_types@), self.objects.len(), &mut out);
            assert(out@ =~= Seq::<u128>::empty() + chain_entries(self.objects@, id, segs_view(p@), start, schema_set.named_types@, self.objects@.len()));
            return out;
        }
        let (_schema, kinds) = property_schema_and_path_ancestors_to_check(schema_set, obj.schema.fingerprint(), p);
        if !self.path_live(schema_set, id, p, kinds.as_slice()) {
            return Vec::new();
        }
        let mut out: Vec<u128> = Vec::new();
        let ghost start = root_schema(*obj);
        self.collect_entries(id, p, kinds.as_slice(), Ghost(start), Ghost(schema_set.named_types@), self.objects.len(), &mut out);
        assert(out@ =~= Seq::<u128>::empty() + chain_entries(self.objects@, id, segs_view(p@), start, schema_set.named_types@, self.objects@.len()));
        out
    }

    fn chain_null_exec(&self, id: u128, p: &[String]) -> (r: Option<NullOverride>)
        ensures
            r == chain_null(self.objects@, id, segs_view(p@), self.objects@.len()),
    {
        let ghost objs = self.objects@;
        let ghost sv = segs_view(p@);
        let mut cur: Option<u128> = Some(id);
        let mut fuel: usize = self.objects.len();
        while fuel > 0
            invariant
                objs == self.objects@,
                sv == segs_view(p@),
                chain_null(objs, id, sv, objs.len()) == match cur {
                    Some(c) => chain_null(objs, c, sv, fuel as nat),
                    None => None,
                },
            decreases fuel,
        {
            match cur {
                None => {
                    return None;
                },
                Some(c) => {
                    match self.objects.get(&c) {
                        None => {
                            return None;
                        },
                        Some(obj) => {
                            match obj.property_null_overrides.get(p) {
                                Some(n) => {
                                    return Some(*n);
                                },
                                None => {
                                    cur = match obj.prototype {
                                        Some(pid) => Some(pid.0),
                                        None => None,
                                    };
                                    fuel = fuel - 1;
                                },
                            }
                        },
                    }
                },
            }
        }
        match cur {
            Some(c) => {
                assert(chain_null(objs, c, sv, 0) is None);
            },
            None => {},
        }
        None
    }

    fn chain_value_exec(&self, id: u128, p: &[String]) -> (r: Option<&Value>)
        ensures
            crate::schema::deref_opt(r) == chain_value(self.objects@, id, segs_view(p@), self.objects@.len()),
    {
        let ghost objs = self.objects@;
        let ghost sv = segs_view(p@);
        let mut cur: Option<u128> = Some(id);
        let mut fuel: usize = self.objects.len();
        while fuel > 0
            invariant
                objs == self.objects@,
                sv == segs_view(p@),
                chain_value(objs, id, sv, objs.len()) == match cur {
                    Some(c) => chain_value(objs, c, sv, fuel as nat),
                    None => None,
                },
            decreases fuel,
        {
            match cur {
                None => {
                    return None;
                },
                Some(c) => {
                    match self.objects.get(&c) {
                        None => {
                            return None;
                        },
                        Some(obj) => {
                            match obj.properties.get(p) {
                                Some(v) => {
                                    return Some(v);
                                },
                                None => {
                                    cur = match obj.prototype {
                                        Some(pid) => Some(pid.0),
                                        None => None,
                                    };
                                    fuel = fuel - 1;
                                },
                            }
                        },
                    }
                },
            }
        }
        match cur {
            Some(c) => {
                assert(chain_value(objs, c, sv, 0) is None);
            },
            None => {},
        }
        None
    }
}


impl DataSet {
    /// The asset with id `object_id`.
    pub fn object(&self, object_id: AssetId) -> (r: Option<&DataObjectInfo>)
        ensures
            r matches Some(o) ==> self.objects@.contains_key(object_id.0) && *o == self.objects@[object_id.0],
            r is None <==> !self.objects@.contains_key(object_id.0),
    {
        self.objects.get(&object_id.0)
    }

    /// Number of assets.
    pub fn len(&self) -> (r: usize)
        ensures
            r == self.objects@.len(),
    {
        self.objects.len()
    }

    fn fresh_object(object_name: ObjectName, object_location: ObjectLocation, schema: SchemaRecord, prototype: Option<AssetId>) -> (r: DataObjectInfo)
        ensures
            r.schema == schema,
            r.object_name == object_name,
            r.object_location == object_location,
            r.prototype == prototype,
            is_fresh_object(r),
    {
        DataObjectInfo {
            schema,
            object_name,
            object_location,
            prototype,
            properties: PathMap::new(),
            property_null_overrides: PathMap::new(),
            properties_in_replace_mode: PathMap::new(),
            dynamic_array_entries: PathMap::new(),
        }
    }

    /// Creates an asset of record type `schema` under the given id; refused when the id is taken.
    pub fn new_object_with_id(&mut self, object_id: AssetId, object_name: ObjectName, object_location: ObjectLocation, schema: &SchemaRecord) -> (r: DataSetResult<AssetId>)
        ensures
            old(self).objects@.contains_key(object_id.0) ==> r == Err::<AssetId, DataSetError>(DataSetError::DuplicateId)
                && final(self).objects@ == old(self).objects@,
            !old(self).objects@.contains_key(object_id.0) ==> r == Ok::<AssetId, DataSetError>(object_id)
                && final(self).objects@ == old(self).objects@.insert(object_id.0, final(self).objects@[object_id.0])
                && final(self).objects@[object_id.0].schema == *schema
                && final(self).objects@[object_id.0].object_name == object_name
                && final(self).objects@[object_id.0].object_location == object_location
                && final(self).objects@[object_id.0].prototype is None
                && is_fresh_object(final(self).objects@[object_id.0]),
    {
        if self.objects.contains_key(&object_id.0) {
            return Err(DataSetError::DuplicateId);
        }
        let obj = Self::fresh_object(object_name, object_location, schema.duplicate(), None);
        let ghost o = obj;
        self.objects.insert(object_id.0, obj);
        assert(self.objects@[object_id.0] == o);
        assert(self.objects@ =~= old(self).objects@.insert(object_id.0, self.objects@[object_id.0]));
        Ok(object_id)
    }

    /// Creates an asset of record type `schema` under a random id.
    pub fn new_object(&mut self, object_name: ObjectName, object_location: ObjectLocation, schema: &SchemaRecord) -> (r: DataSetResult<AssetId>)
        ensures
            r matches Ok(id) ==> !old(self).objects@.contains_key(id.0)
                && final(self).objects@ == old(self).objects@.insert(id.0, final(self).objects@[id.0])
                && final(self).objects@[id.0].schema == *schema
                && final(self).objects@[id.0].prototype is None
                && is_fresh_object(final(self).objects@[id.0]),
            r matches Err(e) ==> e == DataSetError::DuplicateId && final(self).objects@ == old(self).objects@
                && old(self).objects@.len() > 0,
    {
        let id = random_uuid();
        self.new_object_with_id(AssetId(id), object_name, object_location, schema)
    }

    /// Creates an asset that inherits from `prototype`, under the given id.
    pub fn new_object_from_prototype_with_id(&mut self, object_id: AssetId, object_name: ObjectName, object_location: ObjectLocation, prototype: AssetId) -> (r: DataSetResult<AssetId>)
        ensures
            !old(self).objects@.contains_key(prototype.0) ==> r == Err::<AssetId, DataSetError>(DataSetError::AssetNotFound),
            old(self).objects@.contains_key(prototype.0) && old(self).objects@.contains_key(object_id.0)
                ==> r == Err::<AssetId, DataSetError>(DataSetError::DuplicateId),
            r is Err ==> final(self).objects@ == old(self).objects@,
            r is Ok <==> old(self).objects@.contains_key(prototype.0) && !old(self).objects@.contains_key(object_id.0),
            r is Ok ==> r == Ok::<AssetId, DataSetError>(object_id)
                && final(self).objects@ == old(self).objects@.insert(object_id.0, final(self).objects@[object_id.0])
                && final(self).objects@[object_id.0].schema == old(self).objects@[prototype.0].schema
                && final(self).objects@[object_id.0].object_name == object_name
                && final(self).objects@[object_id.0].object_location == object_location
                && final(self).objects@[object_id.0].prototype == Some(prototype)
                && is_fresh_object(final(self).objects@[object_id.0]),
    {
        let schema = match self.objects.get(&prototype.0) {
            None => {
                return Err(DataSetError::AssetNotFound);
            },
            Some(p) => p.schema.duplicate(),
        };
        if self.objects.contains_key(&object_id.0) {
            return Err(DataSetError::DuplicateId);
        }
        let obj = Self::fresh_object(object_name, object_location, schema, Some(prototype));
        let ghost o = obj;
        self.objects.insert(object_id.0, obj);
        assert(self.objects@[object_id.0] == o);
        assert(self.objects@ =~= old(self).objects@.insert(object_id.0, self.objects@[object_id.0]));
        Ok(object_id)
    }

    /// Creates an asset that inherits from `prototype`, under a random id.
    pub fn new_object_from_prototype(&mut self, object_name: ObjectName, object_location: ObjectLocation, prototype: AssetId) -> (r: DataSetResult<AssetId>)
        ensures
            !old(self).objects@.contains_key(prototype.0) ==> r == Err::<AssetId, DataSetError>(DataSetError::AssetNotFound),
            r is Err ==> final(self).objects@ == old(self).objects@,
            r matches Ok(id) ==> !old(self).objects@.contains_key(id.0)
                && final(self).objects@ == old(self).objects@.insert(id.0, final(self).objects@[id.0])
                && final(self).objects@[id.0].schema == old(self).objects@[prototype.0].schema
                && final(self).objects@[id.0].prototype == Some(prototype)
                && is_fresh_object(final(self).objects@[id.0]),
    {
        let id = random_uuid();
        self.new_object_from_prototype_with_id(AssetId(id), object_name, object_location, prototype)
    }

    /// Removes an asset. Assets that inherit from it then end their prototype chain there.
    pub fn delete_object(&mut self, object_id: AssetId)
        ensures
            final(self).objects@ == old(self).objects@.remove(object_id.0),
    {
        self.objects.remove(&object_id.0);
    }

    /// Moves an asset to a new location.
    pub fn set_object_location(&mut self, object_id: AssetId, new_location: ObjectLocation) -> (r: DataSetResult<()>)
        ensures
            r is Ok <==> old(self).objects@.contains_key(object_id.0),
            r is Err ==> r == Err::<(), DataSetError>(DataSetError::AssetNotFound) && final(self).objects@ == old(self).objects@,
            r is Ok ==> replaced_one(old(self).objects@, final(self).objects@, object_id.0)
                && final(self).objects@[object_id.0] == (DataObjectInfo {
                    object_location: new_location,
                    ..old(self).objects@[object_id.0]
                }),
    {
        match self.objects.remove(&object_id.0) {
            None => Err(DataSetError::AssetNotFound),
            Some(mut obj) => {
                obj.object_location = new_location;
                let ghost o = obj;
                self.objects.insert(object_id.0, obj);
                assert(self.objects@[object_id.0] == o);
                assert(o == (DataObjectInfo { object_location: new_location, ..old(self).objects@[object_id.0] }));
                assert(self.objects@ =~= old(self).objects@.insert(object_id.0, self.objects@[object_id.0]));
                Ok(())
            },
        }
    }

    pub fn object_name(&self, object_id: AssetId) -> (r: Option<&ObjectName>)
        ensures
            r is Some <==> self.objects@.contains_key(object_id.0),
            r matches Some(n) ==> *n == self.objects@[object_id.0].object_name,
    {
        match self.objects.get(&object_id.0) {
            Some(o) => Some(&o.object_name),
            None => None,
        }
    }

    pub fn object_location(&self, object_id: AssetId) -> (r: Option<&ObjectLocation>)
        ensures
            r is Some <==> self.objects@.contains_key(object_id.0),
            r matches Some(n) ==> *n == self.objects@[object_id.0].object_location,
    {
        match self.objects.get(&object_id.0) {
            Some(o) => Some(&o.object_location),
            None => None,
        }
    }

    /// The asset's prototype; `None` when it has none or does not exist.
    pub fn object_prototype(&self, object_id: AssetId) -> (r: Option<AssetId>)
        ensures
            r == (if self.objects@.contains_key(object_id.0) { self.objects@[object_id.0].prototype } else { None }),
    {
        match self.objects.get(&object_id.0) {
            Some(o) => o.prototype,
            None => None,
        }
    }

    pub fn object_schema(&self, object_id: AssetId) -> (r: Option<&SchemaRecord>)
        ensures
            r is Some <==> self.objects@.contains_key(object_id.0),
            r matches Some(n) ==> *n == self.objects@[object_id.0].schema,
    {
        match self.objects.get(&object_id.0) {
            Some(o) => Some(&o.schema),
            None => None,
        }
    }

    /// Splits `path` and finds its schema on asset `id`.
    fn path_info<'a>(&self, schema_set: &'a SchemaSet, id: u128, path: &str) -> (r: (Vec<String>, Option<&'a Schema>, Vec<AncestorKind>))
        requires
            self.objects@.contains_key(id),
        ensures
            segs_view(r.0@) == split_dots(path@),
            r.0@.len() >= 1,
            crate::schema::deref_opt(r.1) == schema_of(self.objects@, id, split_dots(path@), schema_set.named_types@),
            kinds_match(r.2@, root_schema(self.objects@[id]), split_dots(path@), schema_set.named_types@),
    {
        let segs = split_path(path);
        proof {
            lemma_split_dots_nonempty(path@);
        }
        let fp = match self.objects.get(&id) {
            Some(o) => o.schema.fingerprint(),
            None => SchemaFingerprint(0),
        };
        let (schema, kinds) = property_schema_and_path_ancestors_to_check(schema_set, fp, segs.as_slice());
        (segs, schema, kinds)
    }

    /// The asset's own null override at `path`; `None` when it has none or the path is not nullable.
    pub fn get_null_override(&self, schema_set: &SchemaSet, object_id: AssetId, path: &str) -> (r: Option<NullOverride>)
        ensures
            r == (if self.objects@.contains_key(object_id.0)
                && schema_of(self.objects@, object_id.0, split_dots(path@), schema_set.named_types@) matches Some(Schema::Nullable(_)) {
                self.objects@[object_id.0].property_null_overrides.lookup(split_dots(path@))
            } else {
                None
            }),
    {
        if !self.objects.contains_key(&object_id.0) {
            return None;
        }
        let (segs, schema, _kinds) = self.path_info(schema_set, object_id.0, path);
        match schema {
            Some(Schema::Nullable(_)) => {
                match self.objects.get(&object_id.0) {
                    Some(o) => match o.property_null_overrides.get(segs.as_slice()) {
                        Some(n) => Some(*n),
                        None => None,
                    },
                    None => None,
                }
            },
            _ => None,
        }
    }

    /// Sets or clears (with `None`) the asset's own null override at the nullable `path`.
    fn write_null_override(&mut self, schema_set: &SchemaSet, object_id: AssetId, path: &str, null_override: Option<NullOverride>) -> (r: DataSetResult<()>)
        ensures
            write_refusal(old(self).objects@, object_id.0, split_dots(path@), schema_set.named_types@) matches Some(e)
                ==> r == Err::<(), DataSetError>(e),
            write_refusal(old(self).objects@, object_id.0, split_dots(path@), schema_set.named_types@) is None
                && !(schema_of(old(self).objects@, object_id.0, split_dots(path@), schema_set.named_types@) matches Some(Schema::Nullable(_)))
                ==> r == Err::<(), DataSetError>(DataSetError::InvalidSchema),
            r is Ok <==> write_refusal(old(self).objects@, object_id.0, split_dots(path@), schema_set.named_types@) is None
                && schema_of(old(self).objects@, object_id.0, split_dots(path@), schema_set.named_types@) matches Some(Schema::Nullable(_)),
            r is Err ==> final(self).objects@ == old(self).objects@,
            r is Ok ==> replaced_one(old(self).objects@, final(self).objects@, object_id.0)
                && same_but_null_overrides(old(self).objects@[object_id.0], final(self).objects@[object_id.0])
                && path_set(old(self).objects@[object_id.0].property_null_overrides,
                    final(self).objects@[object_id.0].property_null_overrides, split_dots(path@), null_override),
    {
        if !self.objects.contains_key(&object_id.0) {
            return Err(DataSetError::AssetNotFound);
        }
        let (segs, schema, _kinds) = self.path_info(schema_set, object_id.0, path);
        match schema {
            Some(Schema::Nullable(_)) => {},
            Some(_) => {
                return Err(DataSetError::InvalidSchema);
            },
            None => {
                return Err(DataSetError::UnknownField);
            },
        }
        let mut obj = match self.objects.remove(&object_id.0) {
            Some(o) => o,
            None => {
                return Err(DataSetError::AssetNotFound);
            },
        };
        match null_override {
            Some(n) => {
                obj.property_null_overrides.insert(segs, n);
            },
            None => {
                obj.property_null_overrides.remove(segs.as_slice());
            },
        }
        self.objects.insert(object_id.0, obj);
        proof {
            assert(final(self).objects@ =~= old(self).objects@.insert(object_id.0, final(self).objects@[object_id.0]));
        }
        Ok(())
    }

    /// Sets the asset's own null override at the nullable `path`.
    pub fn set_null_override(&mut self, schema_set: &SchemaSet, object_id: AssetId, path: &str, null_override: NullOverride) -> (r: DataSetResult<()>)
        ensures
            null_override_written(old(self).objects@, final(self).objects@, object_id.0, split_dots(path@), schema_set.named_types@, null_override, r),
            write_refusal(old(self).objects@, object_id.0, split_dots(path@), schema_set.named_types@) matches Some(e)
                ==> r == Err::<(), DataSetError>(e),
            write_refusal(old(self).objects@, object_id.0, split_dots(path@), schema_set.named_types@) is None
                && !(schema_of(old(self).objects@, object_id.0, split_dots(path@), schema_set.named_types@) matches Some(Schema::Nullable(_)))
                ==> r == Err::<(), DataSetError>(DataSetError::InvalidSchema),
            r is Ok <==> write_refusal(old(self).objects@, object_id.0, split_dots(path@), schema_set.named_types@) is None
                && schema_of(old(self).objects@, object_id.0, split_dots(path@), schema_set.named_types@) matches Some(Schema::Nullable(_)),
            r is Err ==> final(self).objects@ == old(self).objects@,
            r is Ok ==> replaced_one(old(self).objects@, final(self).objects@, object_id.0)
                && same_but_null_overrides(old(self).objects@[object_id.0], final(self).objects@[object_id.0])
                && path_set(old(self).objects@[object_id.0].property_null_overrides,
                    final(self).objects@[object_id.0].property_null_overrides, split_dots(path@), Some(null_override)),
    {
        self.write_null_override(schema_set, object_id, path, Some(null_override))
    }

    /// Removes the asset's own null override at the nullable `path`.
    pub fn remove_null_override(&mut self, schema_set: &SchemaSet, object_id: AssetId, path: &str) -> (r: DataSetResult<()>)
        ensures
            write_refusal(old(self).objects@, object_id.0, split_dots(path@), schema_set.named_types@) matches Some(e)
                ==> r == Err::<(), DataSetError>(e),
            r is Ok <==> write_refusal(old(self).objects@, object_id.0, split_dots(path@), schema_set.named_types@) is None
                && schema_of(old(self).objects@, object_id.0, split_dots(path@), schema_set.named_types@) matches Some(Schema::Nullable(_)),
            r is Err ==> final(self).objects@ == old(self).objects@,
            r is Ok ==> replaced_one(old(self).objects@, final(self).objects@, object_id.0)
                && same_but_null_overrides(old(self).objects@[object_id.0], final(self).objects@[object_id.0])
                && path_set(old(self).objects@[object_id.0].property_null_overrides,
                    final(self).objects@[object_id.0].property_null_overrides, split_dots(path@), None),
    {
        self.write_null_override(schema_set, object_id, path, None)
    }

    /// Whether the nullable at `path` is null on the asset, following the prototype chain to the
    /// first null override (default: null). `None` when the path is no live nullable.
    pub fn resolve_is_null(&self, schema_set: &SchemaSet, object_id: AssetId, path: &str) -> (r: Option<bool>)
        ensures
            r == null_of(self.objects@, object_id.0, split_dots(path@), schema_set.named_types@),
    {
        let segs = split_path(path);
        self.resolve_is_null_segs(schema_set, object_id.0, segs.as_slice())
    }

    /// The resolved null state of the nullable at `path`, as an override value.
    pub fn resolve_null_override(&self, schema_set: &SchemaSet, object_id: AssetId, path: &str) -> (r: DataSetResult<NullOverride>)
        ensures
            r == (match null_of(self.objects@, object_id.0, split_dots(path@), schema_set.named_types@) {
                Some(true) => Ok::<NullOverride, DataSetError>(NullOverride::SetNull),
                Some(false) => Ok(NullOverride::SetNonNull),
                None => Err(DataSetError::UnresolvablePath),
            }),
    {
        match self.resolve_is_null(schema_set, object_id, path) {
            Some(true) => Ok(NullOverride::SetNull),
            Some(false) => Ok(NullOverride::SetNonNull),
            None => Err(DataSetError::UnresolvablePath),
        }
    }

    /// The asset's own value override at `path`, without looking at prototypes.
    pub fn get_property_override(&self, object_id: AssetId, path: &str) -> (r: Option<&Value>)
        ensures
            crate::schema::deref_opt(r) == (if self.objects@.contains_key(object_id.0) {
                self.objects@[object_id.0].properties.lookup(split_dots(path@))
            } else {
                None
            }),
    {
        let segs = split_path(path);
        match self.objects.get(&object_id.0) {
            Some(o) => o.properties.get(segs.as_slice()),
            None => None,
        }
    }

    /// True when the asset itself overrides `path`.
    pub fn has_property_override(&self, object_id: AssetId, path: &str) -> (r: bool)
        ensures
            r == (self.objects@.contains_key(object_id.0)
                && self.objects@[object_id.0].properties.lookup(split_dots(path@)) is Some),
    {
        self.get_property_override(object_id, path).is_some()
    }

    /// Sets (`Some`) or removes (`None`) the asset's own override at `path`, returning the
    /// override it replaces. Refused, without change, when the asset is missing, the path names
    /// no property, the value does not fit the schema, or the path is not live.
    pub fn set_property_override(&mut self, schema_set: &SchemaSet, object_id: AssetId, path: &str, value: Option<Value>) -> (r: DataSetResult<Option<Value>>)
        ensures
            override_written(old(self).objects@, final(self).objects@, object_id.0, split_dots(path@), schema_set.named_types@, value, r),
            write_refusal(old(self).objects@, object_id.0, split_dots(path@), schema_set.named_types@) matches Some(e)
                ==> r == Err::<Option<Value>, DataSetError>(e),
            write_refusal(old(self).objects@, object_id.0, split_dots(path@), schema_set.named_types@) is None
                ==> match (value, schema_of(old(self).objects@, object_id.0, split_dots(path@), schema_set.named_types@)) {
                    (Some(v), Some(s)) => !value_matches(v, s, schema_set.named_types@)
                        ==> r == Err::<Option<Value>, DataSetError>(DataSetError::SchemaMismatch),
                    _ => true,
                },
            r == Err::<Option<Value>, DataSetError>(DataSetError::UnresolvablePath) <==>
                write_refusal(old(self).objects@, object_id.0, split_dots(path@), schema_set.named_types@) is None
                && (value matches Some(v) ==> value_matches(v, schema_of(old(self).objects@, object_id.0, split_dots(path@), schema_set.named_types@)->0, schema_set.named_types@))
                && !live_of(old(self).objects@, object_id.0, split_dots(path@), schema_set.named_types@),
            r is Ok <==> write_refusal(old(self).objects@, object_id.0, split_dots(path@), schema_set.named_types@) is None
                && (value matches Some(v) ==> value_matches(v, schema_of(old(self).objects@, object_id.0, split_dots(path@), schema_set.named_types@)->0, schema_set.named_types@))
                && live_of(old(self).objects@, object_id.0, split_dots(path@), schema_set.named_types@),
            r is Err ==> final(self).objects@ == old(self).objects@,
            r matches Ok(prev) ==> prev == old(self).objects@[object_id.0].properties.lookup(split_dots(path@))
                && replaced_one(old(self).objects@, final(self).objects@, object_id.0)
                && same_but_properties(old(self).objects@[object_id.0], final(self).objects@[object_id.0])
                && path_set(old(self).objects@[object_id.0].properties,
                    final(self).objects@[object_id.0].properties, split_dots(path@), value),
    {
        if !self.objects.contains_key(&object_id.0) {
            return Err(DataSetError::AssetNotFound);
        }
        let (segs, schema, kinds) = self.path_info(schema_set, object_id.0, path);
        let schema = match schema {
            Some(s) => s,
            None => {
                return Err(DataSetError::UnknownField);
            },
        };
        match &value {
            Some(v) => {
                if !v.matches_schema(schema, schema_set) {
                    return Err(DataSetError::SchemaMismatch);
                }
            },
            None => {},
        }
        if !self.path_live(schema_set, object_id.0, segs.as_slice(), kinds.as_slice()) {
            return Err(DataSetError::UnresolvablePath);
        }
        let mut obj = match self.objects.remove(&object_id.0) {
            Some(o) => o,
            None => {
                return Err(DataSetError::AssetNotFound);
            },
        };
        let prev = match value {
            Some(v) => obj.properties.insert(segs, v),
            None => obj.properties.remove(segs.as_slice()),
        };
        self.objects.insert(object_id.0, obj);
        proof {
            assert(final(self).objects@ =~= old(self).objects@.insert(object_id.0, final(self).objects@[object_id.0]));
        }
        Ok(prev)
    }

    /// Removes the asset's own override at `path`, returning it.
    pub fn remove_property_override(&mut self, object_id: AssetId, path: &str) -> (r: Option<Value>)
        ensures
            !old(self).objects@.contains_key(object_id.0) ==> r is None && final(self).objects@ == old(self).objects@,
            old(self).objects@.contains_key(object_id.0) ==>
                r == old(self).objects@[object_id.0].properties.lookup(split_dots(path@))
                && replaced_one(old(self).objects@, final(self).objects@, object_id.0)
                && same_but_properties(old(self).objects@[object_id.0], final(self).objects@[object_id.0])
                && path_set(old(self).objects@[object_id.0].properties,
                    final(self).objects@[object_id.0].properties, split_dots(path@), None),
    {
        let segs = split_path(path);
        let mut obj = match self.objects.remove(&object_id.0) {
            Some(o) => o,
            None => {
                return None;
            },
        };
        let prev = obj.properties.remove(segs.as_slice());
        self.objects.insert(object_id.0, obj);
        proof {
            assert(final(self).objects@ =~= old(self).objects@.insert(object_id.0, final(self).objects@[object_id.0]));
        }
        prev
    }

    /// Moves the asset's own override at `path` to its prototype. Nothing changes when the asset
    /// has no prototype or no such override; when the prototype refuses the value, the error is
    /// returned and nothing changes.
    pub fn apply_property_override_to_prototype(&mut self, schema_set: &SchemaSet, object_id: AssetId, path: &str) -> (r: DataSetResult<()>)
        ensures
            !old(self).objects@.contains_key(object_id.0) ==> r == Err::<(), DataSetError>(DataSetError::AssetNotFound),
            r is Err ==> final(self).objects@ == old(self).objects@,
            old(self).objects@.contains_key(object_id.0) && (old(self).objects@[object_id.0].prototype is None
                || old(self).objects@[object_id.0].prototype == Some(object_id)
                || old(self).objects@[object_id.0].properties.lookup(split_dots(path@)) is None)
                ==> r is Ok && final(self).objects@ == old(self).objects@,
            old(self).objects@.contains_key(object_id.0) ==> ({
                let o = old(self).objects@[object_id.0];
                let p = split_dots(path@);
                match (o.prototype, o.properties.lookup(p)) {
                (Some(pid), Some(v)) => pid != object_id ==> {
                    &&& r is Ok <==> write_refusal(old(self).objects@, pid.0, p, schema_set.named_types@) is None
                        && value_matches(v, schema_of(old(self).objects@, pid.0, p, schema_set.named_types@)->0, schema_set.named_types@)
                        && live_of(old(self).objects@, pid.0, p, schema_set.named_types@)
                    &&& r is Ok ==> {
                        &&& final(self).objects@ == old(self).objects@.insert(pid.0, final(self).objects@[pid.0]).insert(object_id.0, final(self).objects@[object_id.0])
                        &&& same_but_properties(old(self).objects@[pid.0], final(self).objects@[pid.0])
                        &&& path_set(old(self).objects@[pid.0].properties, final(self).objects@[pid.0].properties, p, Some(v))
                        &&& same_but_properties(o, final(self).objects@[object_id.0])
                        &&& path_set(o.properties, final(self).objects@[object_id.0].properties, p, None)
                    }
                },
                _ => true,
                }
            }),
    {
        let (pid, v) = match self.objects.get(&object_id.0) {
            None => {
                return Err(DataSetError::AssetNotFound);
            },
            Some(o) => {
                let pid = match o.prototype {
                    None => {
                        return Ok(());
                    },
                    Some(pid) => pid,
                };
                if pid.0 == object_id.0 {
                    return Ok(());
                }
                let segs = split_path(path);
                match o.properties.get(segs.as_slice()) {
                    None => {
                        return Ok(());
                    },
                    Some(v) => (pid, v.duplicate()),
                }
            },
        };
        let ghost mid0 = self.objects@;
        match self.set_property_override(schema_set, pid, path, Some(v)) {
            Err(e) => {
                return Err(e);
            },
            Ok(_) => {},
        }
        let ghost mid = self.objects@;
        let _ = self.remove_property_override(object_id, path);
        proof {
            assert(mid[object_id.0] == mid0[object_id.0]);
            assert(self.objects@ =~= old(self).objects@.insert(pid.0, self.objects@[pid.0]).insert(object_id.0, self.objects@[object_id.0]));
        }
        Ok(())
    }

    /// The value of the property at `path`: the nearest override on the prototype chain, else the
    /// schema's default.
    pub fn resolve_property(&self, schema_set: &SchemaSet, object_id: AssetId, path: &str) -> (r: DataSetResult<Value>)
        ensures
            result_view(r) == resolve_view(self.objects@, object_id.0, split_dots(path@), schema_set.named_types@),
            write_refusal(self.objects@, object_id.0, split_dots(path@), schema_set.named_types@) matches Some(e)
                ==> r == Err::<Value, DataSetError>(e),
            write_refusal(self.objects@, object_id.0, split_dots(path@), schema_set.named_types@) is None
                && !live_of(self.objects@, object_id.0, split_dots(path@), schema_set.named_types@)
                ==> r == Err::<Value, DataSetError>(DataSetError::UnresolvablePath),
            r is Ok <==> live_of(self.objects@, object_id.0, split_dots(path@), schema_set.named_types@)
                && schema_of(self.objects@, object_id.0, split_dots(path@), schema_set.named_types@) is Some
                && (chain_value(self.objects@, object_id.0, split_dots(path@), self.objects@.len()) is Some
                    || has_default(schema_of(self.objects@, object_id.0, split_dots(path@), schema_set.named_types@)->0, schema_set.named_types@)),
            r matches Ok(v) ==> match chain_value(self.objects@, object_id.0, split_dots(path@), self.objects@.len()) {
                Some(w) => v == w,
                None => is_default_for(v, schema_of(self.objects@, object_id.0, split_dots(path@), schema_set.named_types@)->0, schema_set.named_types@),
            },
            r is Err && write_refusal(self.objects@, object_id.0, split_dots(path@), schema_set.named_types@) is None
                && live_of(self.objects@, object_id.0, split_dots(path@), schema_set.named_types@)
                ==> r == Err::<Value, DataSetError>(DataSetError::InvalidSchema),
    {
        if !self.objects.contains_key(&object_id.0) {
            return Err(DataSetError::AssetNotFound);
        }
        let (segs, schema, kinds) = self.path_info(schema_set, object_id.0, path);
        let schema = match schema {
            Some(s) => s,
            None => {
                return Err(DataSetError::UnknownField);
            },
        };
        if !self.path_live(schema_set, object_id.0, segs.as_slice(), kinds.as_slice()) {
            return Err(DataSetError::UnresolvablePath);
        }
        match self.chain_value_exec(object_id.0, segs.as_slice()) {
            Some(v) => Ok(v.duplicate()),
            None => match Value::default_for_schema(schema, schema_set) {
                Some(v) => Ok(v),
                None => Err(DataSetError::InvalidSchema),
            },
        }
    }

    /// The entries that the asset itself adds to the dynamic array at `path`.
    pub fn get_dynamic_array_overrides(&self, schema_set: &SchemaSet, object_id: AssetId, path: &str) -> (r: DataSetResult<Option<&Vec<u128>>>)
        ensures
            write_refusal(self.objects@, object_id.0, split_dots(path@), schema_set.named_types@) matches Some(e)
                ==> r == Err::<Option<&Vec<u128>>, DataSetError>(e),
            write_refusal(self.objects@, object_id.0, split_dots(path@), schema_set.named_types@) is None
                && !(schema_of(self.objects@, object_id.0, split_dots(path@), schema_set.named_types@) matches Some(Schema::DynamicArray(_)))
                ==> r == Err::<Option<&Vec<u128>>, DataSetError>(DataSetError::InvalidSchema),
            r is Ok <==> schema_of(self.objects@, object_id.0, split_dots(path@), schema_set.named_types@) matches Some(Schema::DynamicArray(_)),
            r matches Ok(l) ==> crate::schema::deref_opt(l) == self.objects@[object_id.0].dynamic_array_entries.lookup(split_dots(path@)),
    {
        if !self.objects.contains_key(&object_id.0) {
            return Err(DataSetError::AssetNotFound);
        }
        let (segs, schema, _kinds) = self.path_info(schema_set, object_id.0, path);
        match schema {
            Some(Schema::DynamicArray(_)) => {},
            Some(_) => {
                return Err(DataSetError::InvalidSchema);
            },
            None => {
                return Err(DataSetError::UnknownField);
            },
        }
        match self.objects.get(&object_id.0) {
            Some(o) => Ok(o.dynamic_array_entries.get(segs.as_slice())),
            None => Err(DataSetError::AssetNotFound),
        }
    }

    fn local_list(o: &DataObjectInfo, segs: &[String]) -> (r: Vec<u128>)
        ensures
            r@ == local_entries(*o, segs_view(segs@)),
    {
        let mut r: Vec<u128> = Vec::new();
        match o.dynamic_array_entries.get(segs) {
            Some(v) => {
                let mut i: usize = 0;
                while i < v.len()
                    invariant
                        0 <= i <= v@.len(),
                        r@ == v@.take(i as int),
                    decreases v@.len() - i,
                {
                    r.push(v[i]);
                    assert(v@.take(i as int + 1) =~= v@.take(i as int).push(v@[i as int]));
                    i = i + 1;
                }
                assert(v@.take(v@.len() as int) =~= v@);
            },
            None => {},
        }
        r
    }

    /// Checks that `path` on the asset is a dynamic array and returns its segments.
    fn dynamic_array_path(&self, schema_set: &SchemaSet, object_id: AssetId, path: &str) -> (r: DataSetResult<Vec<String>>)
        ensures
            write_refusal(self.objects@, object_id.0, split_dots(path@), schema_set.named_types@) matches Some(e)
                ==> r == Err::<Vec<String>, DataSetError>(e),
            write_refusal(self.objects@, object_id.0, split_dots(path@), schema_set.named_types@) is None
                && !(schema_of(self.objects@, object_id.0, split_dots(path@), schema_set.named_types@) matches Some(Schema::DynamicArray(_)))
                ==> r == Err::<Vec<String>, DataSetError>(DataSetError::InvalidSchema),
            r is Ok <==> schema_of(self.objects@, object_id.0, split_dots(path@), schema_set.named_types@) matches Some(Schema::DynamicArray(_)),
            r matches Ok(segs) ==> segs_view(segs@) == split_dots(path@),
    {
        if !self.objects.contains_key(&object_id.0) {
            return Err(DataSetError::AssetNotFound);
        }
        let (segs, schema, _kinds) = self.path_info(schema_set, object_id.0, path);
        match schema {
            Some(Schema::DynamicArray(_)) => Ok(segs),
            Some(_) => Err(DataSetError::InvalidSchema),
            None => Err(DataSetError::UnknownField),
        }
    }

    /// Adds entry `entry_id` at the end of the asset's own entries of the dynamic array at `path`.
    pub fn add_dynamic_array_override_with_id(&mut self, schema_set: &SchemaSet, object_id: AssetId, path: &str, entry_id: u128) -> (r: DataSetResult<u128>)
        ensures
            write_refusal(old(self).objects@, object_id.0, split_dots(path@), schema_set.named_types@) matches Some(e)
                ==> r == Err::<u128, DataSetError>(e),
            write_refusal(old(self).objects@, object_id.0, split_dots(path@), schema_set.named_types@) is None
                && !(schema_of(old(self).objects@, object_id.0, split_dots(path@), schema_set.named_types@) matches Some(Schema::DynamicArray(_)))
                ==> r == Err::<u128, DataSetError>(DataSetError::InvalidSchema),
            r is Ok <==> (schema_of(old(self).objects@, object_id.0, split_dots(path@), schema_set.named_types@) matches Some(Schema::DynamicArray(_)))
                && !local_entries(old(self).objects@[object_id.0], split_dots(path@)).contains(entry_id),
            r matches Err(e) ==> final(self).objects@ == old(self).objects@
                && (schema_of(old(self).objects@, object_id.0, split_dots(path@), schema_set.named_types@) matches Some(Schema::DynamicArray(_))
                    ==> e == DataSetError::DuplicateId),
            r is Ok ==> r == Ok::<u128, DataSetError>(entry_id)
                && replaced_one(old(self).objects@, final(self).objects@, object_id.0)
                && same_but_entries(old(self).objects@[object_id.0], final(self).objects@[object_id.0])
                && local_entries(final(self).objects@[object_id.0], split_dots(path@))
                    == local_entries(old(self).objects@[object_id.0], split_dots(path@)).push(entry_id)
                && forall|q: Seq<Seq<char>>| q != split_dots(path@) ==>
                    #[trigger] final(self).objects@[object_id.0].dynamic_array_entries.lookup(q)
                        == old(self).objects@[object_id.0].dynamic_array_entries.lookup(q),
    {
        let segs = match self.dynamic_array_path(schema_set, object_id, path) {
            Ok(s) => s,
            Err(e) => {
                return Err(e);
            },
        };
        let mut obj = match self.objects.remove(&object_id.0) {
            Some(o) => o,
            None => {
                return Err(DataSetError::AssetNotFound);
            },
        };
        let mut list = Self::local_list(&obj, segs.as_slice());
        if vec_contains(&list, entry_id) {
            self.objects.insert(object_id.0, obj);
            proof {
                assert(self.objects@ =~= old(self).objects@);
            }
            return Err(DataSetError::DuplicateId);
        }
        list.push(entry_id);
        let ghost l = list@;
        obj.dynamic_array_entries.insert(segs, list);
        self.objects.insert(object_id.0, obj);
        proof {
            assert(self.objects@ =~= old(self).objects@.insert(object_id.0, self.objects@[object_id.0]));
        }
        Ok(entry_id)
    }

    /// Adds a new entry, under a random id, at the end of the asset's own entries of the dynamic
    /// array at `path`, and returns that id.
    pub fn add_dynamic_array_override(&mut self, schema_set: &SchemaSet, object_id: AssetId, path: &str) -> (r: DataSetResult<u128>)
        ensures
            write_refusal(old(self).objects@, object_id.0, split_dots(path@), schema_set.named_types@) matches Some(e)
                ==> r == Err::<u128, DataSetError>(e),
            r is Err ==> final(self).objects@ == old(self).objects@,
            write_refusal(old(self).objects@, object_id.0, split_dots(path@), schema_set.named_types@) is None
                && (schema_of(old(self).objects@, object_id.0, split_dots(path@), schema_set.named_types@) matches Some(Schema::DynamicArray(_)))
                && local_entries(old(self).objects@[object_id.0], split_dots(path@)).len() == 0 ==> r is Ok,
            r matches Err(e) ==> write_refusal(old(self).objects@, object_id.0, split_dots(path@), schema_set.named_types@) == Some(e)
                || (write_refusal(old(self).objects@, object_id.0, split_dots(path@), schema_set.named_types@) is None
                    && !(schema_of(old(self).objects@, object_id.0, split_dots(path@), schema_set.named_types@) matches Some(Schema::DynamicArray(_)))
                    && e == DataSetError::InvalidSchema)
                || (e == DataSetError::DuplicateId && local_entries(old(self).objects@[object_id.0], split_dots(path@)).len() > 0),
            r matches Ok(u) ==> !local_entries(old(self).objects@[object_id.0], split_dots(path@)).contains(u)
                && replaced_one(old(self).objects@, final(self).objects@, object_id.0)
                && same_but_entries(old(self).objects@[object_id.0], final(self).objects@[object_id.0])
                && local_entries(final(self).objects@[object_id.0], split_dots(path@))
                    == local_entries(old(self).objects@[object_id.0], split_dots(path@)).push(u),
    {
        let u = random_uuid();
        self.add_dynamic_array_override_with_id(schema_set, object_id, path, u)
    }

    /// Removes entry `element_id` from the asset's own entries of the dynamic array at `path`.
    pub fn remove_dynamic_array_override(&mut self, schema_set: &SchemaSet, object_id: AssetId, path: &str, element_id: u128) -> (r: DataSetResult<()>)
        ensures
            write_refusal(old(self).objects@, object_id.0, split_dots(path@), schema_set.named_types@) matches Some(e)
                ==> r == Err::<(), DataSetError>(e),
            r is Ok <==> (schema_of(old(self).objects@, object_id.0, split_dots(path@), schema_set.named_types@) matches Some(Schema::DynamicArray(_)))
                && local_entries(old(self).objects@[object_id.0], split_dots(path@)).contains(element_id),
            r is Err ==> final(self).objects@ == old(self).objects@,
            r is Ok ==> replaced_one(old(self).objects@, final(self).objects@, object_id.0)
                && same_but_entries(old(self).objects@[object_id.0], final(self).objects@[object_id.0])
                && exists|i: int| 0 <= i < local_entries(old(self).objects@[object_id.0], split_dots(path@)).len()
                    && local_entries(old(self).objects@[object_id.0], split_dots(path@))[i] == element_id
                    && #[trigger] local_entries(final(self).objects@[object_id.0], split_dots(path@))
                        == local_entries(old(self).objects@[object_id.0], split_dots(path@)).remove(i),
    {
        let segs = match self.dynamic_array_path(schema_set, object_id, path) {
            Ok(s) => s,
            Err(e) => {
                return Err(e);
            },
        };
        let mut obj = match self.objects.remove(&object_id.0) {
            Some(o) => o,
            None => {
                return Err(DataSetError::AssetNotFound);
            },
        };
        let mut list = Self::local_list(&obj, segs.as_slice());
        let ghost l0 = list@;
        let mut i: usize = 0;
        while i < list.len()
            invariant
                0 <= i <= list@.len(),
                list@ == l0,
                forall|j: int| 0 <= j < i ==> list@[j] != element_id,
            ensures
                i <= list@.len(),
                list@ == l0,
                i < list@.len() ==> list@[i as int] == element_id,
                forall|j: int| 0 <= j < i ==> list@[j] != element_id,
            decreases list@.len() - i,
        {
            if list[i] == element_id {
                break;
            }
            i = i + 1;
        }
        if i == list.len() {
            self.objects.insert(object_id.0, obj);
            proof {
                assert(self.objects@ =~= old(self).objects@);
            }
            return Err(DataSetError::EntryNotFound);
        }
        list.remove(i);
        obj.dynamic_array_entries.insert(segs, list);
        self.objects.insert(object_id.0, obj);
        proof {
            assert(l0[i as int] == element_id);
            assert(self.objects@ =~= old(self).objects@.insert(object_id.0, self.objects@[object_id.0]));
        }
        Ok(())
    }

    /// The entries of the dynamic array at `path`: the prototype's resolved entries (unless the
    /// path or an array or map ancestor is in replace mode), then the asset's own. Empty when the
    /// path is not live.
    pub fn resolve_dynamic_array(&self, schema_set: &SchemaSet, object_id: AssetId, path: &str) -> (r: Vec<u128>)
        ensures
            r@ == entries_of(self.objects@, object_id.0, split_dots(path@), schema_set.named_types@),
    {
        let segs = split_path(path);
        self.resolve_entries_segs(schema_set, object_id.0, segs.as_slice())
    }

    /// Whether the array or map at `path` appends to or replaces its prototype's entries; other
    /// properties always replace.
    pub fn get_override_behavior(&self, schema_set: &SchemaSet, object_id: AssetId, path: &str) -> (r: DataSetResult<OverrideBehavior>)
        ensures
            write_refusal(self.objects@, object_id.0, split_dots(path@), schema_set.named_types@) matches Some(e)
                ==> r == Err::<OverrideBehavior, DataSetError>(e),
            r is Ok <==> write_refusal(self.objects@, object_id.0, split_dots(path@), schema_set.named_types@) is None,
            r matches Ok(b) ==> b == (match schema_of(self.objects@, object_id.0, split_dots(path@), schema_set.named_types@) {
                Some(Schema::DynamicArray(_)) | Some(Schema::KeyedMap(_)) =>
                    if self.objects@[object_id.0].properties_in_replace_mode.lookup(split_dots(path@)) is Some {
                        OverrideBehavior::Replace
                    } else {
                        OverrideBehavior::Append
                    },
                _ => OverrideBehavior::Replace,
            }),
    {
        if !self.objects.contains_key(&object_id.0) {
            return Err(DataSetError::AssetNotFound);
        }
        let (segs, schema, _kinds) = self.path_info(schema_set, object_id.0, path);
        let replaced = match self.objects.get(&object_id.0) {
            Some(o) => o.properties_in_replace_mode.contains(segs.as_slice()),
            None => false,
        };
        match schema {
            None => Err(DataSetError::UnknownField),
            Some(Schema::DynamicArray(_)) | Some(Schema::KeyedMap(_)) => {
                if replaced {
                    Ok(OverrideBehavior::Replace)
                } else {
                    Ok(OverrideBehavior::Append)
                }
            },
            Some(_) => Ok(OverrideBehavior::Replace),
        }
    }

    /// Makes the array or map at `path` append to, or replace, its prototype's entries.
    pub fn set_override_behavior(&mut self, schema_set: &SchemaSet, object_id: AssetId, path: &str, behavior: OverrideBehavior) -> (r: DataSetResult<()>)
        ensures
            write_refusal(old(self).objects@, object_id.0, split_dots(path@), schema_set.named_types@) matches Some(e)
                ==> r == Err::<(), DataSetError>(e),
            write_refusal(old(self).objects@, object_id.0, split_dots(path@), schema_set.named_types@) is None
                && !(schema_of(old(self).objects@, object_id.0, split_dots(path@), schema_set.named_types@) matches Some(Schema::DynamicArray(_))
                    || schema_of(old(self).objects@, object_id.0, split_dots(path@), schema_set.named_types@) matches Some(Schema::KeyedMap(_)))
                ==> r == Err::<(), DataSetError>(DataSetError::InvalidSchema),
            r is Ok <==> (schema_of(old(self).objects@, object_id.0, split_dots(path@), schema_set.named_types@) matches Some(Schema::DynamicArray(_))
                || schema_of(old(self).objects@, object_id.0, split_dots(path@), schema_set.named_types@) matches Some(Schema::KeyedMap(_))),
            r is Err ==> final(self).objects@ == old(self).objects@,
            r is Ok ==> replaced_one(old(self).objects@, final(self).objects@, object_id.0)
                && same_but_replace_mode(old(self).objects@[object_id.0], final(self).objects@[object_id.0])
                && path_set(old(self).objects@[object_id.0].properties_in_replace_mode,
                    final(self).objects@[object_id.0].properties_in_replace_mode, split_dots(path@),
                    if behavior == OverrideBehavior::Replace { Some(()) } else { None }),
    {
        if !self.objects.contains_key(&object_id.0) {
            return Err(DataSetError::AssetNotFound);
        }
        let (segs, schema, _kinds) = self.path_info(schema_set, object_id.0, path);
        match schema {
            Some(Schema::DynamicArray(_)) | Some(Schema::KeyedMap(_)) => {},
            Some(_) => {
                return Err(DataSetError::InvalidSchema);
            },
            None => {
                return Err(DataSetError::UnknownField);
            },
        }
        let mut obj = match self.objects.remove(&object_id.0) {
            Some(o) => o,
            None => {
                return Err(DataSetError::AssetNotFound);
            },
        };
        match behavior {
            OverrideBehavior::Append => {
                obj.properties_in_replace_mode.remove(segs.as_slice());
            },
            OverrideBehavior::Replace => {
                obj.properties_in_replace_mode.insert(segs, ());
            },
        }
        self.objects.insert(object_id.0, obj);
        proof {
            assert(self.objects@ =~= old(self).objects@.insert(object_id.0, self.objects@[object_id.0]));
        }
        Ok(())
    }
}


/// `b` holds what `a` holds: the same schema, name, location and prototype, and the same
/// overrides (by view) under every path.
pub open spec fn same_contents(a: DataObjectInfo, b: DataObjectInfo) -> bool {
    &&& a.schema == b.schema
    &&& a.object_name@ == b.object_name@
    &&& a.object_location == b.object_location
    &&& a.prototype == b.prototype
    &&& forall|k: Seq<Seq<char>>| #[trigger] opt_view(a.properties.lookup(k)) == opt_view(b.properties.lookup(k))
    &&& forall|k: Seq<Seq<char>>| #[trigger] a.property_null_overrides.lookup(k) == b.property_null_overrides.lookup(k)
    &&& forall|k: Seq<Seq<char>>| #[trigger] a.properties_in_replace_mode.lookup(k) == b.properties_in_replace_mode.lookup(k)
    &&& forall|k: Seq<Seq<char>>| #[trigger] opt_view(a.dynamic_array_entries.lookup(k)) == opt_view(b.dynamic_array_entries.lookup(k))
}

impl View for ObjectName {
    type V = Seq<char>;

    open spec fn view(&self) -> Seq<char> {
        self.0@
    }
}

impl DataObjectInfo {
    /// A copy of this asset.
    pub fn duplicate(&self) -> (r: DataObjectInfo)
        ensures
            same_contents(r, *self),
    {
        let r = DataObjectInfo {
            schema: self.schema.duplicate(),
            object_name: ObjectName(self.object_name.0.clone()),
            object_location: self.object_location,
            prototype: self.prototype,
            properties: self.properties.duplicate(),
            property_null_overrides: self.property_null_overrides.duplicate(),
            properties_in_replace_mode: self.properties_in_replace_mode.duplicate(),
            dynamic_array_entries: self.dynamic_array_entries.duplicate(),
        };
        proof {
            assert forall|k: Seq<Seq<char>>| #[trigger] r.property_null_overrides.lookup(k) == self.property_null_overrides.lookup(k) by {
                assert(opt_view(r.property_null_overrides.lookup(k)) == opt_view(self.property_null_overrides.lookup(k)));
            }
            assert forall|k: Seq<Seq<char>>| #[trigger] r.properties_in_replace_mode.lookup(k) == self.properties_in_replace_mode.lookup(k) by {
                assert(opt_view(r.properties_in_replace_mode.lookup(k)) == opt_view(self.properties_in_replace_mode.lookup(k)));
            }
        }
        r
    }
}

impl DataSet {
    /// Copies asset `object_id` of `other` into this set under the same id, replacing what this
    /// set held under it.
    pub fn copy_from(&mut self, other: &DataSet, object_id: AssetId) -> (r: DataSetResult<()>)
        ensures
            r is Ok <==> other.objects@.contains_key(object_id.0),
            r is Err ==> r == Err::<(), DataSetError>(DataSetError::AssetNotFound) && final(self).objects@ == old(self).objects@,
            r is Ok ==> final(self).objects@ == old(self).objects@.insert(object_id.0, final(self).objects@[object_id.0])
                && same_contents(final(self).objects@[object_id.0], other.objects@[object_id.0]),
    {
        let copy = match other.objects.get(&object_id.0) {
            Some(o) => o.duplicate(),
            None => {
                return Err(DataSetError::AssetNotFound);
            },
        };
        let ghost c = copy;
        self.objects.insert(object_id.0, copy);
        assert(self.objects@[object_id.0] == c);
        assert(self.objects@ =~= old(self).objects@.insert(object_id.0, self.objects@[object_id.0]));
        Ok(())
    }
}


impl DataSet {
    /// Installs an asset read from storage under its own id, replacing what was there. Refused
    /// when the schema set has no record with the given fingerprint.
    pub fn restore_object(
        &mut self,
        object_id: AssetId,
        object_name: ObjectName,
        object_location: ObjectLocation,
        schema_set: &SchemaSet,
        prototype: Option<AssetId>,
        schema: SchemaFingerprint,
        properties: PathMap<Value>,
        property_null_overrides: PathMap<NullOverride>,
        properties_in_replace_mode: PathMap<()>,
        dynamic_array_entries: PathMap<Vec<u128>>,
    ) -> (r: DataSetResult<()>)
        ensures
            r is Ok <==> crate::schema_set::find_named_from(schema_set.named_types@, schema, 0) matches Some(SchemaNamedType::Record(_)),
            r is Err ==> r == Err::<(), DataSetError>(DataSetError::UnknownType) && final(self).objects@ == old(self).objects@,
            r is Ok ==> final(self).objects@ == old(self).objects@.insert(object_id.0, final(self).objects@[object_id.0])
                && Some(SchemaNamedType::Record(final(self).objects@[object_id.0].schema)) == crate::schema_set::find_named_from(schema_set.named_types@, schema, 0)
                && final(self).objects@[object_id.0].object_name == object_name
                && final(self).objects@[object_id.0].object_location == object_location
                && final(self).objects@[object_id.0].prototype == prototype
                && final(self).objects@[object_id.0].properties == properties
                && final(self).objects@[object_id.0].property_null_overrides == property_null_overrides
                && final(self).objects@[object_id.0].properties_in_replace_mode == properties_in_replace_mode
                && final(self).objects@[object_id.0].dynamic_array_entries == dynamic_array_entries,
    {
        let record = match schema_set.find_by_fingerprint(schema) {
            Some(SchemaNamedType::Record(rec)) => rec.duplicate(),
            _ => {
                return Err(DataSetError::UnknownType);
            },
        };
        let obj = DataObjectInfo {
            schema: record,
            object_name,
            object_location,
            prototype,
            properties,
            property_null_overrides,
            properties_in_replace_mode,
            dynamic_array_entries,
        };
        let ghost o = obj;
        self.objects.insert(object_id.0, obj);
        assert(self.objects@[object_id.0] == o);
        assert(self.objects@ =~= old(self).objects@.insert(object_id.0, self.objects@[object_id.0]));
        Ok(())
    }
}

} // verus!
