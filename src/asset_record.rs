use vstd::prelude::*;
use crate::ids::{AssetId, SchemaFingerprint};
use crate::error::{DataSetError, DataSetResult};
use crate::data_set::{DataObjectInfo, NullOverride, ObjectLocation, ObjectName};
use crate::path_map::{PathMap, pairs_lookup, opt_view, slots_unique};
use crate::schema_set::{SchemaSet, SchemaNamedType, find_named_from};
use crate::value::Value;

verus! {

/// An asset as plain lists, the form in which a data source stores it: schema fingerprint,
/// name, location, prototype, and the (path, value) pairs of each override map.
#[derive(Debug)]
pub struct AssetRecord {
    pub asset_id: AssetId,
    pub schema: SchemaFingerprint,
    pub name: String,
    pub location: ObjectLocation,
    pub prototype: Option<AssetId>,
    pub properties: Vec<(Vec<String>, Value)>,
    pub null_overrides: Vec<(Vec<String>, NullOverride)>,
    pub properties_in_replace_mode: Vec<(Vec<String>, ())>,
    pub dynamic_array_entries: Vec<(Vec<String>, Vec<u128>)>,
}

/// Every override map of the asset has at most one slot per path.
pub open spec fn object_keys_unique(o: DataObjectInfo) -> bool {
    &&& slots_unique(o.properties.entries@)
    &&& slots_unique(o.property_null_overrides.entries@)
    &&& slots_unique(o.properties_in_replace_mode.entries@)
    &&& slots_unique(o.dynamic_array_entries.entries@)
}

/// `rec` records asset `o`: the same fields, and the same value under every path of every map.
pub open spec fn records(rec: AssetRecord, o: DataObjectInfo) -> bool {
    &&& rec.schema == o.schema.inner.fingerprint
    &&& rec.name@ == o.object_name.0@
    &&& rec.location == o.object_location
    &&& rec.prototype == o.prototype
    &&& forall|k: Seq<Seq<char>>| #[trigger] pairs_lookup(rec.properties@, k) == opt_view(o.properties.lookup(k))
    &&& forall|k: Seq<Seq<char>>| #[trigger] pairs_lookup(rec.null_overrides@, k) == opt_view(o.property_null_overrides.lookup(k))
    &&& forall|k: Seq<Seq<char>>| #[trigger] pairs_lookup(rec.properties_in_replace_mode@, k) == opt_view(o.properties_in_replace_mode.lookup(k))
    &&& forall|k: Seq<Seq<char>>| #[trigger] pairs_lookup(rec.dynamic_array_entries@, k) == opt_view(o.dynamic_array_entries.lookup(k))
}

/// The two assets hold the same data: schema fingerprint, name, location, prototype, and the
/// same value (by view) under every path of every map.
pub open spec fn same_data(a: DataObjectInfo, b: DataObjectInfo) -> bool {
    &&& a.schema.inner.fingerprint == b.schema.inner.fingerprint
    &&& a.object_name.0@ == b.object_name.0@
    &&& a.object_location == b.object_location
    &&& a.prototype == b.prototype
    &&& forall|k: Seq<Seq<char>>| #[trigger] opt_view(a.properties.lookup(k)) == opt_view(b.properties.lookup(k))
    &&& forall|k: Seq<Seq<char>>| #[trigger] opt_view(a.property_null_overrides.lookup(k)) == opt_view(b.property_null_overrides.lookup(k))
    &&& forall|k: Seq<Seq<char>>| #[trigger] opt_view(a.properties_in_replace_mode.lookup(k)) == opt_view(b.properties_in_replace_mode.lookup(k))
    &&& forall|k: Seq<Seq<char>>| #[trigger] opt_view(a.dynamic_array_entries.lookup(k)) == opt_view(b.dynamic_array_entries.lookup(k))
}

impl AssetRecord {
    /// The record of asset `asset_id`, whose contents are `o`.
    pub fn from_object(asset_id: AssetId, o: &DataObjectInfo) -> (r: AssetRecord)
        requires
            object_keys_unique(*o),
        ensures
            r.asset_id == asset_id,
            records(r, *o),
    {
        AssetRecord {
            asset_id,
            schema: o.schema.fingerprint(),
            name: o.object_name.0.clone(),
            location: o.object_location,
            prototype: o.prototype,
            properties: o.properties.live_pairs(),
            null_overrides: o.property_null_overrides.live_pairs(),
            properties_in_replace_mode: o.properties_in_replace_mode.live_pairs(),
            dynamic_array_entries: o.dynamic_array_entries.live_pairs(),
        }
    }

    /// The asset that the record describes; refused when the schema set has no record type with
    /// the record's fingerprint.
    pub fn into_object(self, schema_set: &SchemaSet) -> (r: DataSetResult<DataObjectInfo>)
        ensures
            r is Ok <==> find_named_from(schema_set.named_types@, self.schema, 0) matches Some(SchemaNamedType::Record(_)),
            r matches Err(e) ==> e == DataSetError::UnknownType,
            r matches Ok(o) ==> records(self, o) && object_keys_unique(o)
                && find_named_from(schema_set.named_types@, self.schema, 0) == Some(SchemaNamedType::Record(o.schema)),
    {
        let record = match schema_set.find_by_fingerprint(self.schema) {
            Some(SchemaNamedType::Record(rec)) => rec.duplicate(),
            _ => {
                return Err(DataSetError::UnknownType);
            },
        };
        let ghost me = self;
        let o = DataObjectInfo {
            schema: record,
            object_name: ObjectName(self.name),
            object_location: self.location,
            prototype: self.prototype,
            properties: PathMap::from_pairs(self.properties),
            property_null_overrides: PathMap::from_pairs(self.null_overrides),
            properties_in_replace_mode: PathMap::from_pairs(self.properties_in_replace_mode),
            dynamic_array_entries: PathMap::from_pairs(self.dynamic_array_entries),
        };
        proof {
            lemma_find_named_fingerprint(schema_set.named_types@, me.schema, 0);
        }
        Ok(o)
    }
}

/// Storing an asset as a record and reading the record back preserves its data: fields,
/// override maps, null overrides, replace-mode paths and dynamic-array entries.
pub proof fn lemma_record_round_trip(o: DataObjectInfo, rec: AssetRecord, back: DataObjectInfo)
    requires
        records(rec, o),
        records(rec, back),
        back.schema.inner.fingerprint == rec.schema,
    ensures
        same_data(o, back),
{
    assert forall|k: Seq<Seq<char>>| #[trigger] opt_view(o.properties.lookup(k)) == opt_view(back.properties.lookup(k)) by {
        assert(pairs_lookup(rec.properties@, k) == opt_view(o.properties.lookup(k)));
        assert(pairs_lookup(rec.properties@, k) == opt_view(back.properties.lookup(k)));
    }
    assert forall|k: Seq<Seq<char>>| #[trigger] opt_view(o.property_null_overrides.lookup(k)) == opt_view(back.property_null_overrides.lookup(k)) by {
        assert(pairs_lookup(rec.null_overrides@, k) == opt_view(o.property_null_overrides.lookup(k)));
        assert(pairs_lookup(rec.null_overrides@, k) == opt_view(back.property_null_overrides.lookup(k)));
    }
    assert forall|k: Seq<Seq<char>>| #[trigger] opt_view(o.properties_in_replace_mode.lookup(k)) == opt_view(back.properties_in_replace_mode.lookup(k)) by {
        assert(pairs_lookup(rec.properties_in_replace_mode@, k) == opt_view(o.properties_in_replace_mode.lookup(k)));
        assert(pairs_lookup(rec.properties_in_replace_mode@, k) == opt_view(back.properties_in_replace_mode.lookup(k)));
    }
    assert forall|k: Seq<Seq<char>>| #[trigger] opt_view(o.dynamic_array_entries.lookup(k)) == opt_view(back.dynamic_array_entries.lookup(k)) by {
        assert(pairs_lookup(rec.dynamic_array_entries@, k) == opt_view(o.dynamic_array_entries.lookup(k)));
        assert(pairs_lookup(rec.dynamic_array_entries@, k) == opt_view(back.dynamic_array_entries.lookup(k)));
    }
}

proof fn lemma_find_named_fingerprint(types: Seq<SchemaNamedType>, fp: SchemaFingerprint, i: int)
    ensures
        find_named_from(types, fp, i) matches Some(t) ==> t.fingerprint_of() == fp,
    decreases types.len() - i,
{
    if 0 <= i < types.len() && types[i].fingerprint_of() != fp {
        lemma_find_named_fingerprint(types, fp, i + 1);
    }
}


impl crate::data_set::DataSet {
    /// The record of asset `object_id`, as a data source stores it.
    pub fn asset_record(&self, object_id: AssetId) -> (r: DataSetResult<AssetRecord>)
        ensures
            !self.objects@.contains_key(object_id.0) ==> r == Err::<AssetRecord, DataSetError>(DataSetError::AssetNotFound),
            self.objects@.contains_key(object_id.0) ==> (r is Ok <==> object_keys_unique(self.objects@[object_id.0])),
            r matches Ok(rec) ==> rec.asset_id == object_id && records(rec, self.objects@[object_id.0]),
            r matches Err(e) ==> self.objects@.contains_key(object_id.0) ==> e == DataSetError::InvalidSchema,
    {
        match self.objects.get(&object_id.0) {
            None => Err(DataSetError::AssetNotFound),
            Some(o) => {
                if o.properties.check_keys_unique() && o.property_null_overrides.check_keys_unique()
                    && o.properties_in_replace_mode.check_keys_unique() && o.dynamic_array_entries.check_keys_unique() {
                    Ok(AssetRecord::from_object(object_id, o))
                } else {
                    Err(DataSetError::InvalidSchema)
                }
            },
        }
    }

    /// Installs the asset that a stored record describes, under the record's id.
    pub fn install_record(&mut self, schema_set: &SchemaSet, record: AssetRecord) -> (r: DataSetResult<AssetId>)
        ensures
            r is Ok <==> find_named_from(schema_set.named_types@, record.schema, 0) matches Some(SchemaNamedType::Record(_)),
            r is Err ==> final(self).objects@ == old(self).objects@,
            r matches Ok(id) ==> id == record.asset_id
                && final(self).objects@ == old(self).objects@.insert(id.0, final(self).objects@[id.0])
                && records(record, final(self).objects@[id.0]),
    {
        let id = record.asset_id;
        let ghost rec = record;
        match record.into_object(schema_set) {
            Ok(o) => {
                let ghost go = o;
                self.objects.insert(id.0, o);
                assert(self.objects@[id.0] == go);
                assert(self.objects@ =~= old(self).objects@.insert(id.0, self.objects@[id.0]));
                Ok(id)
            },
            Err(e) => Err(e),
        }
    }
}

} // verus!
