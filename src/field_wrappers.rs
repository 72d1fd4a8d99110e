use vstd::prelude::*;
use std::sync::Arc;
use crate::ids::AssetId;
use crate::error::{DataSetError, DataSetResult};
use crate::data_set::{DataSet, DataObjectInfo, NullOverride, is_fresh_object, resolve_view, null_of,
    override_written, null_override_written};
use crate::path::split_dots;
use crate::path_map::PathMap;
use crate::schema::SchemaRecord;
use crate::schema_set::{SchemaSet, SchemaNamedType};
use crate::value::{Value, ValueView, ValueEnum};

verus! {

/// A dotted property path.
#[derive(Debug, Default)]
pub struct PropertyPath(pub String);

/// `a` followed by `b`, with a dot between them when both are non-empty.
pub open spec fn join_path(a: Seq<char>, b: Seq<char>) -> Seq<char> {
    if a.len() == 0 {
        b
    } else if b.len() == 0 {
        a
    } else {
        a + seq!['.'] + b
    }
}

impl PropertyPath {
    pub fn new(path: &str) -> (r: Self)
        ensures r.0@ == path@,
    {
        PropertyPath(String::from_str(path))
    }

    /// The path one segment further down.
    pub fn push(&self, str: &str) -> (r: PropertyPath)
        ensures
            r.0@ == join_path(self.0@, str@),
    {
        if self.0.unicode_len() == 0 {
            PropertyPath(String::from_str(str))
        } else if str.unicode_len() == 0 {
            PropertyPath(String::from_str(self.0.as_str()))
        } else {
            let mut s = String::from_str(self.0.as_str());
            let dot = ".";
            proof {
                reveal_strlit(".");
            }
            s.append(dot);
            s.append(str);
            PropertyPath(s)
        }
    }

    pub fn path(&self) -> (r: &str)
        ensures r@ == self.0@,
    {
        self.0.as_str()
    }
}

/// A detached asset: one record with its overrides and no prototype.
#[derive(Debug)]
pub struct SingleObject {
    pub object: DataObjectInfo,
}

impl SingleObject {
    pub fn new(schema: &SchemaRecord) -> (r: Self)
        ensures
            r.object.schema == *schema,
            r.object.prototype is None,
            is_fresh_object(r.object),
    {
        SingleObject {
            object: DataObjectInfo {
                schema: schema.duplicate(),
                object_name: crate::data_set::ObjectName::empty(),
                object_location: crate::data_set::ObjectLocation::null(),
                prototype: None,
                properties: PathMap::new(),
                property_null_overrides: PathMap::new(),
                properties_in_replace_mode: PathMap::new(),
                dynamic_array_entries: PathMap::new(),
            },
        }
    }

    pub fn schema(&self) -> (r: &SchemaRecord)
        ensures *r == self.object.schema,
    {
        &self.object.schema
    }
}

/// One asset of a data set, with the schema set that describes it: what field wrappers read
/// and write.
pub struct DataContainer {
    pub data_set: DataSet,
    pub asset_id: AssetId,
    pub schema_set: SchemaSet,
}

/// The id under which a detached asset is held in its own data set.
pub const SINGLE_OBJECT_ID: u128 = 0;

impl DataContainer {
    /// What resolving `p` gives, as a view.
    pub open spec fn resolves(&self, p: Seq<char>) -> DataSetResult<ValueView> {
        resolve_view(self.data_set.objects@, self.asset_id.0, split_dots(p), self.schema_set.named_types@)
    }

    /// The resolved null state at `p`.
    pub open spec fn null_result(&self, p: Seq<char>) -> DataSetResult<NullOverride> {
        match null_of(self.data_set.objects@, self.asset_id.0, split_dots(p), self.schema_set.named_types@) {
            Some(true) => Ok(NullOverride::SetNull),
            Some(false) => Ok(NullOverride::SetNonNull),
            None => Err(DataSetError::UnresolvablePath),
        }
    }

    /// `self` and `other` hold the same asset under the same schema set.
    pub open spec fn same_target(&self, other: &DataContainer) -> bool {
        self.asset_id == other.asset_id && self.schema_set == other.schema_set
    }

    pub fn from_data_set(data_set: DataSet, asset_id: AssetId, schema_set: SchemaSet) -> (r: Self)
        ensures
            r.data_set == data_set,
            r.asset_id == asset_id,
            r.schema_set == schema_set,
    {
        DataContainer { data_set, asset_id, schema_set }
    }

    /// Holds a detached asset in a data set of its own.
    pub fn from_single_object(single_object: SingleObject, schema_set: SchemaSet) -> (r: Self)
        ensures
            r.asset_id.0 == SINGLE_OBJECT_ID,
            r.data_set.objects@ == Map::<u128, DataObjectInfo>::empty().insert(SINGLE_OBJECT_ID, single_object.object),
            r.schema_set == schema_set,
    {
        let mut data_set = DataSet::new();
        data_set.objects.insert(SINGLE_OBJECT_ID, single_object.object);
        DataContainer { data_set, asset_id: AssetId(SINGLE_OBJECT_ID), schema_set }
    }

    /// Takes the asset back out.
    pub fn into_inner(self) -> (r: DataSetResult<SingleObject>)
        ensures
            r is Ok <==> self.data_set.objects@.contains_key(self.asset_id.0),
            r matches Ok(o) ==> o.object == self.data_set.objects@[self.asset_id.0],
            r matches Err(e) ==> e == DataSetError::DataTaken,
    {
        let mut data_set = self.data_set;
        match data_set.objects.remove(&self.asset_id.0) {
            Some(object) => Ok(SingleObject { object }),
            None => Err(DataSetError::DataTaken),
        }
    }

    pub fn resolve_property(&self, path: &str) -> (r: DataSetResult<Value>)
        ensures
            crate::data_set::result_view(r) == self.resolves(path@),
    {
        self.data_set.resolve_property(&self.schema_set, self.asset_id, path)
    }

    /// Writes (`Some`) or removes (`None`) the asset's own override at `path`.
    pub fn set_property_override(&mut self, path: &str, value: Option<Value>) -> (r: DataSetResult<Option<Value>>)
        ensures
            final(self).same_target(old(self)),
            override_written(old(self).data_set.objects@, final(self).data_set.objects@, old(self).asset_id.0,
                split_dots(path@), old(self).schema_set.named_types@, value, r),
    {
        self.data_set.set_property_override(&self.schema_set, self.asset_id, path, value)
    }

    pub fn resolve_null_override(&self, path: &str) -> (r: DataSetResult<NullOverride>)
        ensures
            r == self.null_result(path@),
    {
        self.data_set.resolve_null_override(&self.schema_set, self.asset_id, path)
    }

    pub fn set_null_override(&mut self, path: &str, null_override: NullOverride) -> (r: DataSetResult<()>)
        ensures
            final(self).same_target(old(self)),
            null_override_written(old(self).data_set.objects@, final(self).data_set.objects@, old(self).asset_id.0,
                split_dots(path@), old(self).schema_set.named_types@, null_override, r),
    {
        self.data_set.set_null_override(&self.schema_set, self.asset_id, path, null_override)
    }

    /// Adds a new entry under a random id to the asset's own entries of the dynamic array at `path`.
    pub fn add_dynamic_array_entry(&mut self, path: &str) -> (r: DataSetResult<u128>)
        ensures
            final(self).same_target(old(self)),
            r is Err ==> final(self).data_set.objects@ == old(self).data_set.objects@,
            r matches Ok(u) ==> !crate::data_set::local_entries(old(self).data_set.objects@[old(self).asset_id.0], split_dots(path@)).contains(u)
                && crate::data_set::local_entries(final(self).data_set.objects@[old(self).asset_id.0], split_dots(path@))
                    == crate::data_set::local_entries(old(self).data_set.objects@[old(self).asset_id.0], split_dots(path@)).push(u),
    {
        self.data_set.add_dynamic_array_override(&self.schema_set, self.asset_id, path)
    }

    pub fn resolve_dynamic_array(&self, path: &str) -> (r: Vec<u128>)
        ensures
            r@ == crate::data_set::entries_of(self.data_set.objects@, self.asset_id.0, split_dots(path@), self.schema_set.named_types@),
    {
        self.data_set.resolve_dynamic_array(&self.schema_set, self.asset_id, path)
    }
}

/// Made from a property path alone.
pub trait FieldAccessor: Sized {
    /// The path of the property this accessor reaches.
    spec fn path_of(&self) -> Seq<char>;

    fn new(property_path: PropertyPath) -> (r: Self)
        ensures
            r.path_of() == property_path.0@;
}

/// Reads one property of a container it borrows.
pub trait FieldReader<'a>: Sized {
    /// The path of the property this reader reaches.
    spec fn path_of(&self) -> Seq<char>;

    fn new(property_path: PropertyPath, data_container: &'a DataContainer) -> (r: Self)
        ensures
            r.path_of() == property_path.0@;
}

/// Reads and writes one property of a container it borrows mutably.
pub trait FieldWriter<'a>: Sized {
    /// The path of the property this writer reaches.
    spec fn path_of(&self) -> Seq<char>;

    fn new(property_path: PropertyPath, data_container: &'a mut DataContainer) -> (r: Self)
        ensures
            r.path_of() == property_path.0@;
}

/// Reads and writes one property of a container that may have been taken.
pub trait Field: Sized {
    /// The path of the property this field reaches.
    spec fn path_of(&self) -> Seq<char>;

    fn new(property_path: PropertyPath) -> (r: Self)
        ensures
            r.path_of() == property_path.0@;
}

/// An enum type whose values are named by symbols.
pub trait Enum: Sized {
    /// The name of this value's symbol.
    spec fn symbol_of(&self) -> Seq<char>;

    /// The value whose symbol is named `s`, if any.
    spec fn from_symbol_spec(s: Seq<char>) -> Option<Self>;

    fn to_symbol_name(&self) -> (r: &'static str)
        ensures
            r@ == self.symbol_of();

    fn from_symbol_name(str: &str) -> (r: Option<Self>)
        ensures
            r == Self::from_symbol_spec(str@);

    /// A value's symbol name reads back as that value.
    proof fn lemma_symbol_round_trip(&self)
        ensures
            Self::from_symbol_spec(self.symbol_of()) == Some(*self);
}

/// Reads and writes a record of the schema set, by name.
pub trait RecordAccessor {
    fn schema_name() -> &'static str;
}

/// Reads a record of the schema set, by name.
pub trait RecordReader {
    fn schema_name() -> &'static str;
}

/// Writes a record of the schema set, by name.
pub trait RecordWriter {
    fn schema_name() -> &'static str;
}

/// A record type of the schema set, by name.
pub trait Record: Sized + Field {
    /// The name of the record type.
    spec fn schema_name_spec() -> Seq<char>;

    fn schema_name() -> (r: &'static str)
        ensures
            r@ == Self::schema_name_spec();
}

/// A fresh detached record of the record type called `schema_name`.
pub fn new_single_object(schema_set: &SchemaSet, schema_name: &str) -> (r: DataSetResult<SingleObject>)
    ensures
        r is Ok <==> crate::schema_set::find_name_from(schema_set.named_types@, schema_name@, 0) matches Some(SchemaNamedType::Record(_)),
        r matches Ok(o) ==> crate::schema_set::find_name_from(schema_set.named_types@, schema_name@, 0) == Some(SchemaNamedType::Record(o.object.schema))
            && o.object.prototype is None && is_fresh_object(o.object),
        r matches Err(e) ==> (crate::schema_set::find_name_from(schema_set.named_types@, schema_name@, 0) is None ==> e == DataSetError::UnknownType),
{
    let named = match schema_set.find_named_type(schema_name) {
        Ok(n) => n,
        Err(e) => {
            return Err(e);
        },
    };
    match named.as_record() {
        Some(record) => Ok(SingleObject::new(record)),
        None => Err(DataSetError::InvalidSchema),
    }
}

/// Holds a new detached record while its fields are filled in.
pub struct RecordBuilder<T: Record> {
    pub data: Option<DataContainer>,
    pub fields: T,
}

impl<T: Record> RecordBuilder<T> {
    /// Starts a record of the type that `T` names: a fresh detached asset of that record type,
    /// with `T`'s fields at the root path. Fails when the schema set has no such record.
    pub fn new(schema_set: &SchemaSet) -> (r: DataSetResult<Self>)
        ensures
            r is Ok <==> crate::schema_set::find_name_from(schema_set.named_types@, T::schema_name_spec(), 0) matches Some(SchemaNamedType::Record(_)),
            r matches Err(e) ==> (crate::schema_set::find_name_from(schema_set.named_types@, T::schema_name_spec(), 0) is None
                ==> e == DataSetError::UnknownType),
            r matches Ok(b) ==> b.data matches Some(d)
                && d.asset_id.0 == SINGLE_OBJECT_ID
                && d.schema_set == *schema_set
                && d.data_set.objects@.dom() == set![SINGLE_OBJECT_ID]
                && crate::schema_set::find_name_from(schema_set.named_types@, T::schema_name_spec(), 0)
                    == Some(SchemaNamedType::Record(d.data_set.objects@[SINGLE_OBJECT_ID].schema))
                && d.data_set.objects@[SINGLE_OBJECT_ID].prototype is None
                && is_fresh_object(d.data_set.objects@[SINGLE_OBJECT_ID])
                && b.fields.path_of() == Seq::<char>::empty(),
    {
        let single_object = match new_single_object(schema_set, T::schema_name()) {
            Ok(o) => o,
            Err(e) => {
                return Err(e);
            },
        };
        let data = DataContainer::from_single_object(single_object, schema_set.duplicate());
        assert(data.data_set.objects@.dom() =~= set![SINGLE_OBJECT_ID]);
        let root = PropertyPath(String::new());
        Ok(RecordBuilder { data: Some(data), fields: T::new(root) })
    }

    /// The finished record.
    pub fn into_inner(self) -> (r: DataSetResult<SingleObject>)
        ensures
            self.data is None ==> r == Err::<SingleObject, DataSetError>(DataSetError::DataTaken),
            self.data matches Some(d) ==> (r is Ok <==> d.data_set.objects@.contains_key(d.asset_id.0)),
            self.data matches Some(d) ==> (r matches Ok(o) ==> o.object == d.data_set.objects@[d.asset_id.0]),
    {
        match self.data {
            Some(d) => d.into_inner(),
            None => Err(DataSetError::DataTaken),
        }
    }
}


/// The view of a boolean read result.
pub open spec fn boolean_result_view(r: DataSetResult<bool>) -> DataSetResult<ValueView> {
    match r {
        Ok(x) => Ok(ValueView::Boolean(x)),
        Err(e) => Err(e),
    }
}

/// True when `r` is what reading a boolean property gives when resolving gives `res`: the value,
/// `SchemaMismatch` for a value of another kind, or the resolution error.
pub open spec fn boolean_read(res: DataSetResult<ValueView>, r: DataSetResult<bool>) -> bool {
    match res {
        Ok(ValueView::Boolean(_)) => r is Ok && boolean_result_view(r) == res,
        Ok(_) => r == Err::<bool, DataSetError>(DataSetError::SchemaMismatch),
        Err(e) => r == Err::<bool, DataSetError>(e),
    }
}

/// Reads and writes a boolean property of any container.
pub struct BooleanFieldAccessor(pub PropertyPath);

impl FieldAccessor for BooleanFieldAccessor {
    open spec fn path_of(&self) -> Seq<char> {
        self.0.0@
    }

    fn new(property_path: PropertyPath) -> Self {
        BooleanFieldAccessor(property_path)
    }
}

impl BooleanFieldAccessor {
    fn do_get(property_path: &PropertyPath, data_container: &DataContainer) -> (r: DataSetResult<bool>)
        ensures
            boolean_read(data_container.resolves(property_path.0@), r),
    {
        match data_container.resolve_property(property_path.path()) {
            Ok(Value::Boolean(x)) => Ok(x),
            Ok(_) => Err(DataSetError::SchemaMismatch),
            Err(e) => Err(e),
        }
    }

    fn do_set(property_path: &PropertyPath, data_container: &mut DataContainer, value: bool) -> (r: DataSetResult<Option<Value>>)
        ensures
            final(data_container).same_target(old(data_container)),
            override_written(old(data_container).data_set.objects@, final(data_container).data_set.objects@,
                old(data_container).asset_id.0, split_dots(property_path.0@), old(data_container).schema_set.named_types@,
                Some(Value::Boolean(value)), r),
    {
        data_container.set_property_override(property_path.path(), Some(Value::Boolean(value)))
    }

    pub fn get(&self, data_container: &DataContainer) -> (r: DataSetResult<bool>)
        ensures
            boolean_read(data_container.resolves(self.0.0@), r),
    {
        Self::do_get(&self.0, data_container)
    }

    pub fn set(&self, data_container: &mut DataContainer, value: bool) -> (r: DataSetResult<Option<Value>>)
        ensures
            final(data_container).same_target(old(data_container)),
            override_written(old(data_container).data_set.objects@, final(data_container).data_set.objects@,
                old(data_container).asset_id.0, split_dots(self.0.0@), old(data_container).schema_set.named_types@,
                Some(Value::Boolean(value)), r),
    {
        Self::do_set(&self.0, data_container, value)
    }
}

/// Reads a boolean property of a borrowed container.
pub struct BooleanFieldReader<'a>(pub PropertyPath, pub &'a DataContainer);

impl<'a> FieldReader<'a> for BooleanFieldReader<'a> {
    open spec fn path_of(&self) -> Seq<char> {
        self.0.0@
    }

    fn new(property_path: PropertyPath, data_container: &'a DataContainer) -> Self {
        BooleanFieldReader(property_path, data_container)
    }
}

impl<'a> BooleanFieldReader<'a> {
    pub fn get(&self) -> (r: DataSetResult<bool>)
        ensures
            boolean_read(self.1.resolves(self.0.0@), r),
    {
        BooleanFieldAccessor::do_get(&self.0, self.1)
    }
}

/// Reads and writes a boolean property of a mutably borrowed container.
pub struct BooleanFieldWriter<'a>(pub PropertyPath, pub &'a mut DataContainer);

impl<'a> FieldWriter<'a> for BooleanFieldWriter<'a> {
    open spec fn path_of(&self) -> Seq<char> {
        self.0.0@
    }

    fn new(property_path: PropertyPath, data_container: &'a mut DataContainer) -> Self {
        BooleanFieldWriter(property_path, data_container)
    }
}

impl<'a> BooleanFieldWriter<'a> {
    pub fn get(&self) -> (r: DataSetResult<bool>)
        ensures
            boolean_read(old(self.1).resolves(self.0.0@), r),
    {
        BooleanFieldAccessor::do_get(&self.0, &*self.1)
    }

    pub fn set(&mut self, value: bool) -> (r: DataSetResult<Option<Value>>)
        ensures
            final(self).0.0@ == old(self).0.0@,
            final(self).1.same_target(old(self).1),
            override_written(old(self).1.data_set.objects@, final(self).1.data_set.objects@,
                old(self).1.asset_id.0, split_dots(old(self).0.0@), old(self).1.schema_set.named_types@,
                Some(Value::Boolean(value)), r),
    {
        BooleanFieldAccessor::do_set(&self.0, self.1, value)
    }
}

/// Reads and writes a boolean property of a container that may have been taken.
pub struct BooleanField(pub PropertyPath);

impl Field for BooleanField {
    open spec fn path_of(&self) -> Seq<char> {
        self.0.0@
    }

    fn new(property_path: PropertyPath) -> Self {
        BooleanField(property_path)
    }
}

impl BooleanField {
    pub fn get(&self, data: &Option<DataContainer>) -> (r: DataSetResult<bool>)
        ensures
            data is None ==> r == Err::<bool, DataSetError>(DataSetError::DataTaken),
            data matches Some(d) ==> boolean_read(d.resolves(self.0.0@), r),
    {
        match data {
            Some(d) => BooleanFieldAccessor::do_get(&self.0, d),
            None => Err(DataSetError::DataTaken),
        }
    }

    pub fn set(&self, data: &mut Option<DataContainer>, value: bool) -> (r: DataSetResult<Option<Value>>)
        ensures
            *old(data) is None ==> r == Err::<Option<Value>, DataSetError>(DataSetError::DataTaken) && *final(data) is None,
            *old(data) matches Some(d0) ==> *final(data) matches Some(d1) && d1.same_target(&d0)
                && override_written(d0.data_set.objects@, d1.data_set.objects@, d0.asset_id.0, split_dots(self.0.0@),
                    d0.schema_set.named_types@, Some(Value::Boolean(value)), r),
    {
        match data.take() {
            Some(mut d) => {
                let r = BooleanFieldAccessor::do_set(&self.0, &mut d, value);
                *data = Some(d);
                r
            },
            None => Err(DataSetError::DataTaken),
        }
    }
}

/// The view of an i32 read result.
pub open spec fn i32_result_view(r: DataSetResult<i32>) -> DataSetResult<ValueView> {
    match r {
        Ok(x) => Ok(ValueView::I32(x)),
        Err(e) => Err(e),
    }
}

/// True when `r` is what reading an i32 property gives when resolving gives `res`: the value,
/// `SchemaMismatch` for a value of another kind, or the resolution error.
pub open spec fn i32_read(res: DataSetResult<ValueView>, r: DataSetResult<i32>) -> bool {
    match res {
        Ok(ValueView::I32(_)) => r is Ok && i32_result_view(r) == res,
        Ok(_) => r == Err::<i32, DataSetError>(DataSetError::SchemaMismatch),
        Err(e) => r == Err::<i32, DataSetError>(e),
    }
}

/// Reads and writes an i32 property of any container.
pub struct I32FieldAccessor(pub PropertyPath);

impl FieldAccessor for I32FieldAccessor {
    open spec fn path_of(&self) -> Seq<char> {
        self.0.0@
    }

    fn new(property_path: PropertyPath) -> Self {
        I32FieldAccessor(property_path)
    }
}

impl I32FieldAccessor {
    fn do_get(property_path: &PropertyPath, data_container: &DataContainer) -> (r: DataSetResult<i32>)
        ensures
            i32_read(data_container.resolves(property_path.0@), r),
    {
        match data_container.resolve_property(property_path.path()) {
            Ok(Value::I32(x)) => Ok(x),
            Ok(_) => Err(DataSetError::SchemaMismatch),
            Err(e) => Err(e),
        }
    }

    fn do_set(property_path: &PropertyPath, data_container: &mut DataContainer, value: i32) -> (r: DataSetResult<Option<Value>>)
        ensures
            final(data_container).same_target(old(data_container)),
            override_written(old(data_container).data_set.objects@, final(data_container).data_set.objects@,
                old(data_container).asset_id.0, split_dots(property_path.0@), old(data_container).schema_set.named_types@,
                Some(Value::I32(value)), r),
    {
        data_container.set_property_override(property_path.path(), Some(Value::I32(value)))
    }

    pub fn get(&self, data_container: &DataContainer) -> (r: DataSetResult<i32>)
        ensures
            i32_read(data_container.resolves(self.0.0@), r),
    {
        Self::do_get(&self.0, data_container)
    }

    pub fn set(&self, data_container: &mut DataContainer, value: i32) -> (r: DataSetResult<Option<Value>>)
        ensures
            final(data_container).same_target(old(data_container)),
            override_written(old(data_container).data_set.objects@, final(data_container).data_set.objects@,
                old(data_container).asset_id.0, split_dots(self.0.0@), old(data_container).schema_set.named_types@,
                Some(Value::I32(value)), r),
    {
        Self::do_set(&self.0, data_container, value)
    }
}

/// Reads an i32 property of a borrowed container.
pub struct I32FieldReader<'a>(pub PropertyPath, pub &'a DataContainer);

impl<'a> FieldReader<'a> for I32FieldReader<'a> {
    open spec fn path_of(&self) -> Seq<char> {
        self.0.0@
    }

    fn new(property_path: PropertyPath, data_container: &'a DataContainer) -> Self {
        I32FieldReader(property_path, data_container)
    }
}

impl<'a> I32FieldReader<'a> {
    pub fn get(&self) -> (r: DataSetResult<i32>)
        ensures
            i32_read(self.1.resolves(self.0.0@), r),
    {
        I32FieldAccessor::do_get(&self.0, self.1)
    }
}

/// Reads and writes an i32 property of a mutably borrowed container.
pub struct I32FieldWriter<'a>(pub PropertyPath, pub &'a mut DataContainer);

impl<'a> FieldWriter<'a> for I32FieldWriter<'a> {
    open spec fn path_of(&self) -> Seq<char> {
        self.0.0@
    }

    fn new(property_path: PropertyPath, data_container: &'a mut DataContainer) -> Self {
        I32FieldWriter(property_path, data_container)
    }
}

impl<'a> I32FieldWriter<'a> {
    pub fn get(&self) -> (r: DataSetResult<i32>)
        ensures
            i32_read(old(self.1).resolves(self.0.0@), r),
    {
        I32FieldAccessor::do_get(&self.0, &*self.1)
    }

    pub fn set(&mut self, value: i32) -> (r: DataSetResult<Option<Value>>)
        ensures
            final(self).0.0@ == old(self).0.0@,
            final(self).1.same_target(old(self).1),
            override_written(old(self).1.data_set.objects@, final(self).1.data_set.objects@,
                old(self).1.asset_id.0, split_dots(old(self).0.0@), old(self).1.schema_set.named_types@,
                Some(Value::I32(value)), r),
    {
        I32FieldAccessor::do_set(&self.0, self.1, value)
    }
}

/// Reads and writes an i32 property of a container that may have been taken.
pub struct I32Field(pub PropertyPath);

impl Field for I32Field {
    open spec fn path_of(&self) -> Seq<char> {
        self.0.0@
    }

    fn new(property_path: PropertyPath) -> Self {
        I32Field(property_path)
    }
}

impl I32Field {
    pub fn get(&self, data: &Option<DataContainer>) -> (r: DataSetResult<i32>)
        ensures
            data is None ==> r == Err::<i32, DataSetError>(DataSetError::DataTaken),
            data matches Some(d) ==> i32_read(d.resolves(self.0.0@), r),
    {
        match data {
            Some(d) => I32FieldAccessor::do_get(&self.0, d),
            None => Err(DataSetError::DataTaken),
        }
    }

    pub fn set(&self, data: &mut Option<DataContainer>, value: i32) -> (r: DataSetResult<Option<Value>>)
        ensures
            *old(data) is None ==> r == Err::<Option<Value>, DataSetError>(DataSetError::DataTaken) && *final(data) is None,
            *old(data) matches Some(d0) ==> *final(data) matches Some(d1) && d1.same_target(&d0)
                && override_written(d0.data_set.objects@, d1.data_set.objects@, d0.asset_id.0, split_dots(self.0.0@),
                    d0.schema_set.named_types@, Some(Value::I32(value)), r),
    {
        match data.take() {
            Some(mut d) => {
                let r = I32FieldAccessor::do_set(&self.0, &mut d, value);
                *data = Some(d);
                r
            },
            None => Err(DataSetError::DataTaken),
        }
    }
}

/// The view of an i64 read result.
pub open spec fn i64_result_view(r: DataSetResult<i64>) -> DataSetResult<ValueView> {
    match r {
        Ok(x) => Ok(ValueView::I64(x)),
        Err(e) => Err(e),
    }
}

/// True when `r` is what reading an i64 property gives when resolving gives `res`: the value,
/// `SchemaMismatch` for a value of another kind, or the resolution error.
pub open spec fn i64_read(res: DataSetResult<ValueView>, r: DataSetResult<i64>) -> bool {
    match res {
        Ok(ValueView::I64(_)) => r is Ok && i64_result_view(r) == res,
        Ok(_) => r == Err::<i64, DataSetError>(DataSetError::SchemaMismatch),
        Err(e) => r == Err::<i64, DataSetError>(e),
    }
}

/// Reads and writes an i64 property of any container.
pub struct I64FieldAccessor(pub PropertyPath);

impl FieldAccessor for I64FieldAccessor {
    open spec fn path_of(&self) -> Seq<char> {
        self.0.0@
    }

    fn new(property_path: PropertyPath) -> Self {
        I64FieldAccessor(property_path)
    }
}

impl I64FieldAccessor {
    fn do_get(property_path: &PropertyPath, data_container: &DataContainer) -> (r: DataSetResult<i64>)
        ensures
            i64_read(data_container.resolves(property_path.0@), r),
    {
        match data_container.resolve_property(property_path.path()) {
            Ok(Value::I64(x)) => Ok(x),
            Ok(_) => Err(DataSetError::SchemaMismatch),
            Err(e) => Err(e),
        }
    }

    fn do_set(property_path: &PropertyPath, data_container: &mut DataContainer, value: i64) -> (r: DataSetResult<Option<Value>>)
        ensures
            final(data_container).same_target(old(data_container)),
            override_written(old(data_container).data_set.objects@, final(data_container).data_set.objects@,
                old(data_container).asset_id.0, split_dots(property_path.0@), old(data_container).schema_set.named_types@,
                Some(Value::I64(value)), r),
    {
        data_container.set_property_override(property_path.path(), Some(Value::I64(value)))
    }

    pub fn get(&self, data_container: &DataContainer) -> (r: DataSetResult<i64>)
        ensures
            i64_read(data_container.resolves(self.0.0@), r),
    {
        Self::do_get(&self.0, data_container)
    }

    pub fn set(&self, data_container: &mut DataContainer, value: i64) -> (r: DataSetResult<Option<Value>>)
        ensures
            final(data_container).same_target(old(data_container)),
            override_written(old(data_container).data_set.objects@, final(data_container).data_set.objects@,
                old(data_container).asset_id.0, split_dots(self.0.0@), old(data_container).schema_set.named_types@,
                Some(Value::I64(value)), r),
    {
        Self::do_set(&self.0, data_container, value)
    }
}

/// Reads an i64 property of a borrowed container.
pub struct I64FieldReader<'a>(pub PropertyPath, pub &'a DataContainer);

impl<'a> FieldReader<'a> for I64FieldReader<'a> {
    open spec fn path_of(&self) -> Seq<char> {
        self.0.0@
    }

    fn new(property_path: PropertyPath, data_container: &'a DataContainer) -> Self {
        I64FieldReader(property_path, data_container)
    }
}

impl<'a> I64FieldReader<'a> {
    pub fn get(&self) -> (r: DataSetResult<i64>)
        ensures
            i64_read(self.1.resolves(self.0.0@), r),
    {
        I64FieldAccessor::do_get(&self.0, self.1)
    }
}

/// Reads and writes an i64 property of a mutably borrowed container.
pub struct I64FieldWriter<'a>(pub PropertyPath, pub &'a mut DataContainer);

impl<'a> FieldWriter<'a> for I64FieldWriter<'a> {
    open spec fn path_of(&self) -> Seq<char> {
        self.0.0@
    }

    fn new(property_path: PropertyPath, data_container: &'a mut DataContainer) -> Self {
        I64FieldWriter(property_path, data_container)
    }
}

impl<'a> I64FieldWriter<'a> {
    pub fn get(&self) -> (r: DataSetResult<i64>)
        ensures
            i64_read(old(self.1).resolves(self.0.0@), r),
    {
        I64FieldAccessor::do_get(&self.0, &*self.1)
    }

    pub fn set(&mut self, value: i64) -> (r: DataSetResult<Option<Value>>)
        ensures
            final(self).0.0@ == old(self).0.0@,
            final(self).1.same_target(old(self).1),
            override_written(old(self).1.data_set.objects@, final(self).1.data_set.objects@,
                old(self).1.asset_id.0, split_dots(old(self).0.0@), old(self).1.schema_set.named_types@,
                Some(Value::I64(value)), r),
    {
        I64FieldAccessor::do_set(&self.0, self.1, value)
    }
}

/// Reads and writes an i64 property of a container that may have been taken.
pub struct I64Field(pub PropertyPath);

impl Field for I64Field {
    open spec fn path_of(&self) -> Seq<char> {
        self.0.0@
    }

    fn new(property_path: PropertyPath) -> Self {
        I64Field(property_path)
    }
}

impl I64Field {
    pub fn get(&self, data: &Option<DataContainer>) -> (r: DataSetResult<i64>)
        ensures
            data is None ==> r == Err::<i64, DataSetError>(DataSetError::DataTaken),
            data matches Some(d) ==> i64_read(d.resolves(self.0.0@), r),
    {
        match data {
            Some(d) => I64FieldAccessor::do_get(&self.0, d),
            None => Err(DataSetError::DataTaken),
        }
    }

    pub fn set(&self, data: &mut Option<DataContainer>, value: i64) -> (r: DataSetResult<Option<Value>>)
        ensures
            *old(data) is None ==> r == Err::<Option<Value>, DataSetError>(DataSetError::DataTaken) && *final(data) is None,
            *old(data) matches Some(d0) ==> *final(data) matches Some(d1) && d1.same_target(&d0)
                && override_written(d0.data_set.objects@, d1.data_set.objects@, d0.asset_id.0, split_dots(self.0.0@),
                    d0.schema_set.named_types@, Some(Value::I64(value)), r),
    {
        match data.take() {
            Some(mut d) => {
                let r = I64FieldAccessor::do_set(&self.0, &mut d, value);
                *data = Some(d);
                r
            },
            None => Err(DataSetError::DataTaken),
        }
    }
}

/// The view of a u32 read result.
pub open spec fn u32_result_view(r: DataSetResult<u32>) -> DataSetResult<ValueView> {
    match r {
        Ok(x) => Ok(ValueView::U32(x)),
        Err(e) => Err(e),
    }
}

/// True when `r` is what reading a u32 property gives when resolving gives `res`: the value,
/// `SchemaMismatch` for a value of another kind, or the resolution error.
pub open spec fn u32_read(res: DataSetResult<ValueView>, r: DataSetResult<u32>) -> bool {
    match res {
        Ok(ValueView::U32(_)) => r is Ok && u32_result_view(r) == res,
        Ok(_) => r == Err::<u32, DataSetError>(DataSetError::SchemaMismatch),
        Err(e) => r == Err::<u32, DataSetError>(e),
    }
}

/// Reads and writes a u32 property of any container.
pub struct U32FieldAccessor(pub PropertyPath);

impl FieldAccessor for U32FieldAccessor {
    open spec fn path_of(&self) -> Seq<char> {
        self.0.0@
    }

    fn new(property_path: PropertyPath) -> Self {
        U32FieldAccessor(property_path)
    }
}

impl U32FieldAccessor {
    fn do_get(property_path: &PropertyPath, data_container: &DataContainer) -> (r: DataSetResult<u32>)
        ensures
            u32_read(data_container.resolves(property_path.0@), r),
    {
        match data_container.resolve_property(property_path.path()) {
            Ok(Value::U32(x)) => Ok(x),
            Ok(_) => Err(DataSetError::SchemaMismatch),
            Err(e) => Err(e),
        }
    }

    fn do_set(property_path: &PropertyPath, data_container: &mut DataContainer, value: u32) -> (r: DataSetResult<Option<Value>>)
        ensures
            final(data_container).same_target(old(data_container)),
            override_written(old(data_container).data_set.objects@, final(data_container).data_set.objects@,
                old(data_container).asset_id.0, split_dots(property_path.0@), old(data_container).schema_set.named_types@,
                Some(Value::U32(value)), r),
    {
        data_container.set_property_override(property_path.path(), Some(Value::U32(value)))
    }

    pub fn get(&self, data_container: &DataContainer) -> (r: DataSetResult<u32>)
        ensures
            u32_read(data_container.resolves(self.0.0@), r),
    {
        Self::do_get(&self.0, data_container)
    }

    pub fn set(&self, data_container: &mut DataContainer, value: u32) -> (r: DataSetResult<Option<Value>>)
        ensures
            final(data_container).same_target(old(data_container)),
            override_written(old(data_container).data_set.objects@, final(data_container).data_set.objects@,
                old(data_container).asset_id.0, split_dots(self.0.0@), old(data_container).schema_set.named_types@,
                Some(Value::U32(value)), r),
    {
        Self::do_set(&self.0, data_container, value)
    }
}

/// Reads a u32 property of a borrowed container.
pub struct U32FieldReader<'a>(pub PropertyPath, pub &'a DataContainer);

impl<'a> FieldReader<'a> for U32FieldReader<'a> {
    open spec fn path_of(&self) -> Seq<char> {
        self.0.0@
    }

    fn new(property_path: PropertyPath, data_container: &'a DataContainer) -> Self {
        U32FieldReader(property_path, data_container)
    }
}

impl<'a> U32FieldReader<'a> {
    pub fn get(&self) -> (r: DataSetResult<u32>)
        ensures
            u32_read(self.1.resolves(self.0.0@), r),
    {
        U32FieldAccessor::do_get(&self.0, self.1)
    }
}

/// Reads and writes a u32 property of a mutably borrowed container.
pub struct U32FieldWriter<'a>(pub PropertyPath, pub &'a mut DataContainer);

impl<'a> FieldWriter<'a> for U32FieldWriter<'a> {
    open spec fn path_of(&self) -> Seq<char> {
        self.0.0@
    }

    fn new(property_path: PropertyPath, data_container: &'a mut DataContainer) -> Self {
        U32FieldWriter(property_path, data_container)
    }
}

impl<'a> U32FieldWriter<'a> {
    pub fn get(&self) -> (r: DataSetResult<u32>)
        ensures
            u32_read(old(self.1).resolves(self.0.0@), r),
    {
        U32FieldAccessor::do_get(&self.0, &*self.1)
    }

    pub fn set(&mut self, value: u32) -> (r: DataSetResult<Option<Value>>)
        ensures
            final(self).0.0@ == old(self).0.0@,
            final(self).1.same_target(old(self).1),
            override_written(old(self).1.data_set.objects@, final(self).1.data_set.objects@,
                old(self).1.asset_id.0, split_dots(old(self).0.0@), old(self).1.schema_set.named_types@,
                Some(Value::U32(value)), r),
    {
        U32FieldAccessor::do_set(&self.0, self.1, value)
    }
}

/// Reads and writes a u32 property of a container that may have been taken.
pub struct U32Field(pub PropertyPath);

impl Field for U32Field {
    open spec fn path_of(&self) -> Seq<char> {
        self.0.0@
    }

    fn new(property_path: PropertyPath) -> Self {
        U32Field(property_path)
    }
}

impl U32Field {
    pub fn get(&self, data: &Option<DataContainer>) -> (r: DataSetResult<u32>)
        ensures
            data is None ==> r == Err::<u32, DataSetError>(DataSetError::DataTaken),
            data matches Some(d) ==> u32_read(d.resolves(self.0.0@), r),
    {
        match data {
            Some(d) => U32FieldAccessor::do_get(&self.0, d),
            None => Err(DataSetError::DataTaken),
        }
    }

    pub fn set(&self, data: &mut Option<DataContainer>, value: u32) -> (r: DataSetResult<Option<Value>>)
        ensures
            *old(data) is None ==> r == Err::<Option<Value>, DataSetError>(DataSetError::DataTaken) && *final(data) is None,
            *old(data) matches Some(d0) ==> *final(data) matches Some(d1) && d1.same_target(&d0)
                && override_written(d0.data_set.objects@, d1.data_set.objects@, d0.asset_id.0, split_dots(self.0.0@),
                    d0.schema_set.named_types@, Some(Value::U32(value)), r),
    {
        match data.take() {
            Some(mut d) => {
                let r = U32FieldAccessor::do_set(&self.0, &mut d, value);
                *data = Some(d);
                r
            },
            None => Err(DataSetError::DataTaken),
        }
    }
}

/// The view of a u64 read result.
pub open spec fn u64_result_view(r: DataSetResult<u64>) -> DataSetResult<ValueView> {
    match r {
        Ok(x) => Ok(ValueView::U64(x)),
        Err(e) => Err(e),
    }
}

/// True when `r` is what reading a u64 property gives when resolving gives `res`: the value,
/// `SchemaMismatch` for a value of another kind, or the resolution error.
pub open spec fn u64_read(res: DataSetResult<ValueView>, r: DataSetResult<u64>) -> bool {
    match res {
        Ok(ValueView::U64(_)) => r is Ok && u64_result_view(r) == res,
        Ok(_) => r == Err::<u64, DataSetError>(DataSetError::SchemaMismatch),
        Err(e) => r == Err::<u64, DataSetError>(e),
    }
}

/// Reads and writes a u64 property of any container.
pub struct U64FieldAccessor(pub PropertyPath);

impl FieldAccessor for U64FieldAccessor {
    open spec fn path_of(&self) -> Seq<char> {
        self.0.0@
    }

    fn new(property_path: PropertyPath) -> Self {
        U64FieldAccessor(property_path)
    }
}

impl U64FieldAccessor {
    fn do_get(property_path: &PropertyPath, data_container: &DataContainer) -> (r: DataSetResult<u64>)
        ensures
            u64_read(data_container.resolves(property_path.0@), r),
    {
        match data_container.resolve_property(property_path.path()) {
            Ok(Value::U64(x)) => Ok(x),
            Ok(_) => Err(DataSetError::SchemaMismatch),
            Err(e) => Err(e),
        }
    }

    fn do_set(property_path: &PropertyPath, data_container: &mut DataContainer, value: u64) -> (r: DataSetResult<Option<Value>>)
        ensures
            final(data_container).same_target(old(data_container)),
            override_written(old(data_container).data_set.objects@, final(data_container).data_set.objects@,
                old(data_container).asset_id.0, split_dots(property_path.0@), old(data_container).schema_set.named_types@,
                Some(Value::U64(value)), r),
    {
        data_container.set_property_override(property_path.path(), Some(Value::U64(value)))
    }

    pub fn get(&self, data_container: &DataContainer) -> (r: DataSetResult<u64>)
        ensures
            u64_read(data_container.resolves(self.0.0@), r),
    {
        Self::do_get(&self.0, data_container)
    }

    pub fn set(&self, data_container: &mut DataContainer, value: u64) -> (r: DataSetResult<Option<Value>>)
        ensures
            final(data_container).same_target(old(data_container)),
            override_written(old(data_container).data_set.objects@, final(data_container).data_set.objects@,
                old(data_container).asset_id.0, split_dots(self.0.0@), old(data_container).schema_set.named_types@,
                Some(Value::U64(value)), r),
    {
        Self::do_set(&self.0, data_container, value)
    }
}

/// Reads a u64 property of a borrowed container.
pub struct U64FieldReader<'a>(pub PropertyPath, pub &'a DataContainer);

impl<'a> FieldReader<'a> for U64FieldReader<'a> {
    open spec fn path_of(&self) -> Seq<char> {
        self.0.0@
    }

    fn new(property_path: PropertyPath, data_container: &'a DataContainer) -> Self {
        U64FieldReader(property_path, data_container)
    }
}

impl<'a> U64FieldReader<'a> {
    pub fn get(&self) -> (r: DataSetResult<u64>)
        ensures
            u64_read(self.1.resolves(self.0.0@), r),
    {
        U64FieldAccessor::do_get(&self.0, self.1)
    }
}

/// Reads and writes a u64 property of a mutably borrowed container.
pub struct U64FieldWriter<'a>(pub PropertyPath, pub &'a mut DataContainer);

impl<'a> FieldWriter<'a> for U64FieldWriter<'a> {
    open spec fn path_of(&self) -> Seq<char> {
        self.0.0@
    }

    fn new(property_path: PropertyPath, data_container: &'a mut DataContainer) -> Self {
        U64FieldWriter(property_path, data_container)
    }
}

impl<'a> U64FieldWriter<'a> {
    pub fn get(&self) -> (r: DataSetResult<u64>)
        ensures
            u64_read(old(self.1).resolves(self.0.0@), r),
    {
        U64FieldAccessor::do_get(&self.0, &*self.1)
    }

    pub fn set(&mut self, value: u64) -> (r: DataSetResult<Option<Value>>)
        ensures
            final(self).0.0@ == old(self).0.0@,
            final(self).1.same_target(old(self).1),
            override_written(old(self).1.data_set.objects@, final(self).1.data_set.objects@,
                old(self).1.asset_id.0, split_dots(old(self).0.0@), old(self).1.schema_set.named_types@,
                Some(Value::U64(value)), r),
    {
        U64FieldAccessor::do_set(&self.0, self.1, value)
    }
}

/// Reads and writes a u64 property of a container that may have been taken.
pub struct U64Field(pub PropertyPath);

impl Field for U64Field {
    open spec fn path_of(&self) -> Seq<char> {
        self.0.0@
    }

    fn new(property_path: PropertyPath) -> Self {
        U64Field(property_path)
    }
}

impl U64Field {
    pub fn get(&self, data: &Option<DataContainer>) -> (r: DataSetResult<u64>)
        ensures
            data is None ==> r == Err::<u64, DataSetError>(DataSetError::DataTaken),
            data matches Some(d) ==> u64_read(d.resolves(self.0.0@), r),
    {
        match data {
            Some(d) => U64FieldAccessor::do_get(&self.0, d),
            None => Err(DataSetError::DataTaken),
        }
    }

    pub fn set(&self, data: &mut Option<DataContainer>, value: u64) -> (r: DataSetResult<Option<Value>>)
        ensures
            *old(data) is None ==> r == Err::<Option<Value>, DataSetError>(DataSetError::DataTaken) && *final(data) is None,
            *old(data) matches Some(d0) ==> *final(data) matches Some(d1) && d1.same_target(&d0)
                && override_written(d0.data_set.objects@, d1.data_set.objects@, d0.asset_id.0, split_dots(self.0.0@),
                    d0.schema_set.named_types@, Some(Value::U64(value)), r),
    {
        match data.take() {
            Some(mut d) => {
                let r = U64FieldAccessor::do_set(&self.0, &mut d, value);
                *data = Some(d);
                r
            },
            None => Err(DataSetError::DataTaken),
        }
    }
}

/// The view of an f32 (as IEEE-754 bits) read result.
pub open spec fn f32_result_view(r: DataSetResult<u32>) -> DataSetResult<ValueView> {
    match r {
        Ok(x) => Ok(ValueView::F32(x)),
        Err(e) => Err(e),
    }
}

/// True when `r` is what reading an f32 (as IEEE-754 bits) property gives when resolving gives `res`: the value,
/// `SchemaMismatch` for a value of another kind, or the resolution error.
pub open spec fn f32_read(res: DataSetResult<ValueView>, r: DataSetResult<u32>) -> bool {
    match res {
        Ok(ValueView::F32(_)) => r is Ok && f32_result_view(r) == res,
        Ok(_) => r == Err::<u32, DataSetError>(DataSetError::SchemaMismatch),
        Err(e) => r == Err::<u32, DataSetError>(e),
    }
}

/// Reads and writes an f32 (as IEEE-754 bits) property of any container.
pub struct F32FieldAccessor(pub PropertyPath);

impl FieldAccessor for F32FieldAccessor {
    open spec fn path_of(&self) -> Seq<char> {
        self.0.0@
    }

    fn new(property_path: PropertyPath) -> Self {
        F32FieldAccessor(property_path)
    }
}

impl F32FieldAccessor {
    fn do_get(property_path: &PropertyPath, data_container: &DataContainer) -> (r: DataSetResult<u32>)
        ensures
            f32_read(data_container.resolves(property_path.0@), r),
    {
        match data_container.resolve_property(property_path.path()) {
            Ok(Value::F32(x)) => Ok(x),
            Ok(_) => Err(DataSetError::SchemaMismatch),
            Err(e) => Err(e),
        }
    }

    fn do_set(property_path: &PropertyPath, data_container: &mut DataContainer, value: u32) -> (r: DataSetResult<Option<Value>>)
        ensures
            final(data_container).same_target(old(data_container)),
            override_written(old(data_container).data_set.objects@, final(data_container).data_set.objects@,
                old(data_container).asset_id.0, split_dots(property_path.0@), old(data_container).schema_set.named_types@,
                Some(Value::F32(value)), r),
    {
        data_container.set_property_override(property_path.path(), Some(Value::F32(value)))
    }

    pub fn get(&self, data_container: &DataContainer) -> (r: DataSetResult<u32>)
        ensures
            f32_read(data_container.resolves(self.0.0@), r),
    {
        Self::do_get(&self.0, data_container)
    }

    pub fn set(&self, data_container: &mut DataContainer, value: u32) -> (r: DataSetResult<Option<Value>>)
        ensures
            final(data_container).same_target(old(data_container)),
            override_written(old(data_container).data_set.objects@, final(data_container).data_set.objects@,
                old(data_container).asset_id.0, split_dots(self.0.0@), old(data_container).schema_set.named_types@,
                Some(Value::F32(value)), r),
    {
        Self::do_set(&self.0, data_container, value)
    }
}

/// Reads an f32 (as IEEE-754 bits) property of a borrowed container.
pub struct F32FieldReader<'a>(pub PropertyPath, pub &'a DataContainer);

impl<'a> FieldReader<'a> for F32FieldReader<'a> {
    open spec fn path_of(&self) -> Seq<char> {
        self.0.0@
    }

    fn new(property_path: PropertyPath, data_container: &'a DataContainer) -> Self {
        F32FieldReader(property_path, data_container)
    }
}

impl<'a> F32FieldReader<'a> {
    pub fn get(&self) -> (r: DataSetResult<u32>)
        ensures
            f32_read(self.1.resolves(self.0.0@), r),
    {
        F32FieldAccessor::do_get(&self.0, self.1)
    }
}

/// Reads and writes an f32 (as IEEE-754 bits) property of a mutably borrowed container.
pub struct F32FieldWriter<'a>(pub PropertyPath, pub &'a mut DataContainer);

impl<'a> FieldWriter<'a> for F32FieldWriter<'a> {
    open spec fn path_of(&self) -> Seq<char> {
        self.0.0@
    }

    fn new(property_path: PropertyPath, data_container: &'a mut DataContainer) -> Self {
        F32FieldWriter(property_path, data_container)
    }
}

impl<'a> F32FieldWriter<'a> {
    pub fn get(&self) -> (r: DataSetResult<u32>)
        ensures
            f32_read(old(self.1).resolves(self.0.0@), r),
    {
        F32FieldAccessor::do_get(&self.0, &*self.1)
    }

    pub fn set(&mut self, value: u32) -> (r: DataSetResult<Option<Value>>)
        ensures
            final(self).0.0@ == old(self).0.0@,
            final(self).1.same_target(old(self).1),
            override_written(old(self).1.data_set.objects@, final(self).1.data_set.objects@,
                old(self).1.asset_id.0, split_dots(old(self).0.0@), old(self).1.schema_set.named_types@,
                Some(Value::F32(value)), r),
    {
        F32FieldAccessor::do_set(&self.0, self.1, value)
    }
}

/// Reads and writes an f32 (as IEEE-754 bits) property of a container that may have been taken.
pub struct F32Field(pub PropertyPath);

impl Field for F32Field {
    open spec fn path_of(&self) -> Seq<char> {
        self.0.0@
    }

    fn new(property_path: PropertyPath) -> Self {
        F32Field(property_path)
    }
}

impl F32Field {
    pub fn get(&self, data: &Option<DataContainer>) -> (r: DataSetResult<u32>)
        ensures
            data is None ==> r == Err::<u32, DataSetError>(DataSetError::DataTaken),
            data matches Some(d) ==> f32_read(d.resolves(self.0.0@), r),
    {
        match data {
            Some(d) => F32FieldAccessor::do_get(&self.0, d),
            None => Err(DataSetError::DataTaken),
        }
    }

    pub fn set(&self, data: &mut Option<DataContainer>, value: u32) -> (r: DataSetResult<Option<Value>>)
        ensures
            *old(data) is None ==> r == Err::<Option<Value>, DataSetError>(DataSetError::DataTaken) && *final(data) is None,
            *old(data) matches Some(d0) ==> *final(data) matches Some(d1) && d1.same_target(&d0)
                && override_written(d0.data_set.objects@, d1.data_set.objects@, d0.asset_id.0, split_dots(self.0.0@),
                    d0.schema_set.named_types@, Some(Value::F32(value)), r),
    {
        match data.take() {
            Some(mut d) => {
                let r = F32FieldAccessor::do_set(&self.0, &mut d, value);
                *data = Some(d);
                r
            },
            None => Err(DataSetError::DataTaken),
        }
    }
}

/// The view of an f64 (as IEEE-754 bits) read result.
pub open spec fn f64_result_view(r: DataSetResult<u64>) -> DataSetResult<ValueView> {
    match r {
        Ok(x) => Ok(ValueView::F64(x)),
        Err(e) => Err(e),
    }
}

/// True when `r` is what reading an f64 (as IEEE-754 bits) property gives when resolving gives `res`: the value,
/// `SchemaMismatch` for a value of another kind, or the resolution error.
pub open spec fn f64_read(res: DataSetResult<ValueView>, r: DataSetResult<u64>) -> bool {
    match res {
        Ok(ValueView::F64(_)) => r is Ok && f64_result_view(r) == res,
        Ok(_) => r == Err::<u64, DataSetError>(DataSetError::SchemaMismatch),
        Err(e) => r == Err::<u64, DataSetError>(e),
    }
}

/// Reads and writes an f64 (as IEEE-754 bits) property of any container.
pub struct F64FieldAccessor(pub PropertyPath);

impl FieldAccessor for F64FieldAccessor {
    open spec fn path_of(&self) -> Seq<char> {
        self.0.0@
    }

    fn new(property_path: PropertyPath) -> Self {
        F64FieldAccessor(property_path)
    }
}

impl F64FieldAccessor {
    fn do_get(property_path: &PropertyPath, data_container: &DataContainer) -> (r: DataSetResult<u64>)
        ensures
            f64_read(data_container.resolves(property_path.0@), r),
    {
        match data_container.resolve_property(property_path.path()) {
            Ok(Value::F64(x)) => Ok(x),
            Ok(_) => Err(DataSetError::SchemaMismatch),
            Err(e) => Err(e),
        }
    }

    fn do_set(property_path: &PropertyPath, data_container: &mut DataContainer, value: u64) -> (r: DataSetResult<Option<Value>>)
        ensures
            final(data_container).same_target(old(data_container)),
            override_written(old(data_container).data_set.objects@, final(data_container).data_set.objects@,
                old(data_container).asset_id.0, split_dots(property_path.0@), old(data_container).schema_set.named_types@,
                Some(Value::F64(value)), r),
    {
        data_container.set_property_override(property_path.path(), Some(Value::F64(value)))
    }

    pub fn get(&self, data_container: &DataContainer) -> (r: DataSetResult<u64>)
        ensures
            f64_read(data_container.resolves(self.0.0@), r),
    {
        Self::do_get(&self.0, data_container)
    }

    pub fn set(&self, data_container: &mut DataContainer, value: u64) -> (r: DataSetResult<Option<Value>>)
        ensures
            final(data_container).same_target(old(data_container)),
            override_written(old(data_container).data_set.objects@, final(data_container).data_set.objects@,
                old(data_container).asset_id.0, split_dots(self.0.0@), old(data_container).schema_set.named_types@,
                Some(Value::F64(value)), r),
    {
        Self::do_set(&self.0, data_container, value)
    }
}

/// Reads an f64 (as IEEE-754 bits) property of a borrowed container.
pub struct F64FieldReader<'a>(pub PropertyPath, pub &'a DataContainer);

impl<'a> FieldReader<'a> for F64FieldReader<'a> {
    open spec fn path_of(&self) -> Seq<char> {
        self.0.0@
    }

    fn new(property_path: PropertyPath, data_container: &'a DataContainer) -> Self {
        F64FieldReader(property_path, data_container)
    }
}

impl<'a> F64FieldReader<'a> {
    pub fn get(&self) -> (r: DataSetResult<u64>)
        ensures
            f64_read(self.1.resolves(self.0.0@), r),
    {
        F64FieldAccessor::do_get(&self.0, self.1)
    }
}

/// Reads and writes an f64 (as IEEE-754 bits) property of a mutably borrowed container.
pub struct F64FieldWriter<'a>(pub PropertyPath, pub &'a mut DataContainer);

impl<'a> FieldWriter<'a> for F64FieldWriter<'a> {
    open spec fn path_of(&self) -> Seq<char> {
        self.0.0@
    }

    fn new(property_path: PropertyPath, data_container: &'a mut DataContainer) -> Self {
        F64FieldWriter(property_path, data_container)
    }
}

impl<'a> F64FieldWriter<'a> {
    pub fn get(&self) -> (r: DataSetResult<u64>)
        ensures
            f64_read(old(self.1).resolves(self.0.0@), r),
    {
        F64FieldAccessor::do_get(&self.0, &*self.1)
    }

    pub fn set(&mut self, value: u64) -> (r: DataSetResult<Option<Value>>)
        ensures
            final(self).0.0@ == old(self).0.0@,
            final(self).1.same_target(old(self).1),
            override_written(old(self).1.data_set.objects@, final(self).1.data_set.objects@,
                old(self).1.asset_id.0, split_dots(old(self).0.0@), old(self).1.schema_set.named_types@,
                Some(Value::F64(value)), r),
    {
        F64FieldAccessor::do_set(&self.0, self.1, value)
    }
}

/// Reads and writes an f64 (as IEEE-754 bits) property of a container that may have been taken.
pub struct F64Field(pub PropertyPath);

impl Field for F64Field {
    open spec fn path_of(&self) -> Seq<char> {
        self.0.0@
    }

    fn new(property_path: PropertyPath) -> Self {
        F64Field(property_path)
    }
}

impl F64Field {
    pub fn get(&self, data: &Option<DataContainer>) -> (r: DataSetResult<u64>)
        ensures
            data is None ==> r == Err::<u64, DataSetError>(DataSetError::DataTaken),
            data matches Some(d) ==> f64_read(d.resolves(self.0.0@), r),
    {
        match data {
            Some(d) => F64FieldAccessor::do_get(&self.0, d),
            None => Err(DataSetError::DataTaken),
        }
    }

    pub fn set(&self, data: &mut Option<DataContainer>, value: u64) -> (r: DataSetResult<Option<Value>>)
        ensures
            *old(data) is None ==> r == Err::<Option<Value>, DataSetError>(DataSetError::DataTaken) && *final(data) is None,
            *old(data) matches Some(d0) ==> *final(data) matches Some(d1) && d1.same_target(&d0)
                && override_written(d0.data_set.objects@, d1.data_set.objects@, d0.asset_id.0, split_dots(self.0.0@),
                    d0.schema_set.named_types@, Some(Value::F64(value)), r),
    {
        match data.take() {
            Some(mut d) => {
                let r = F64FieldAccessor::do_set(&self.0, &mut d, value);
                *data = Some(d);
                r
            },
            None => Err(DataSetError::DataTaken),
        }
    }
}

/// The view of a bytes read result.
pub open spec fn bytes_result_view(r: DataSetResult<Arc<Vec<u8>>>) -> DataSetResult<ValueView> {
    match r {
        Ok(x) => Ok(ValueView::Bytes(x@)),
        Err(e) => Err(e),
    }
}

/// True when `r` is what reading a bytes property gives when resolving gives `res`: the value,
/// `SchemaMismatch` for a value of another kind, or the resolution error.
pub open spec fn bytes_read(res: DataSetResult<ValueView>, r: DataSetResult<Arc<Vec<u8>>>) -> bool {
    match res {
        Ok(ValueView::Bytes(_)) => r is Ok && bytes_result_view(r) == res,
        Ok(_) => r == Err::<Arc<Vec<u8>>, DataSetError>(DataSetError::SchemaMismatch),
        Err(e) => r == Err::<Arc<Vec<u8>>, DataSetError>(e),
    }
}

/// Reads and writes a bytes property of any container.
pub struct BytesFieldAccessor(pub PropertyPath);

impl FieldAccessor for BytesFieldAccessor {
    open spec fn path_of(&self) -> Seq<char> {
        self.0.0@
    }

    fn new(property_path: PropertyPath) -> Self {
        BytesFieldAccessor(property_path)
    }
}

impl BytesFieldAccessor {
    fn do_get(property_path: &PropertyPath, data_container: &DataContainer) -> (r: DataSetResult<Arc<Vec<u8>>>)
        ensures
            bytes_read(data_container.resolves(property_path.0@), r),
    {
        match data_container.resolve_property(property_path.path()) {
            Ok(Value::Bytes(x)) => Ok(x),
            Ok(_) => Err(DataSetError::SchemaMismatch),
            Err(e) => Err(e),
        }
    }

    fn do_set(property_path: &PropertyPath, data_container: &mut DataContainer, value: Arc<Vec<u8>>) -> (r: DataSetResult<Option<Value>>)
        ensures
            final(data_container).same_target(old(data_container)),
            override_written(old(data_container).data_set.objects@, final(data_container).data_set.objects@,
                old(data_container).asset_id.0, split_dots(property_path.0@), old(data_container).schema_set.named_types@,
                Some(Value::Bytes(value)), r),
    {
        data_container.set_property_override(property_path.path(), Some(Value::Bytes(value)))
    }

    pub fn get(&self, data_container: &DataContainer) -> (r: DataSetResult<Arc<Vec<u8>>>)
        ensures
            bytes_read(data_container.resolves(self.0.0@), r),
    {
        Self::do_get(&self.0, data_container)
    }

    pub fn set(&self, data_container: &mut DataContainer, value: Arc<Vec<u8>>) -> (r: DataSetResult<Option<Value>>)
        ensures
            final(data_container).same_target(old(data_container)),
            override_written(old(data_container).data_set.objects@, final(data_container).data_set.objects@,
                old(data_container).asset_id.0, split_dots(self.0.0@), old(data_container).schema_set.named_types@,
                Some(Value::Bytes(value)), r),
    {
        Self::do_set(&self.0, data_container, value)
    }
}

/// Reads a bytes property of a borrowed container.
pub struct BytesFieldReader<'a>(pub PropertyPath, pub &'a DataContainer);

impl<'a> FieldReader<'a> for BytesFieldReader<'a> {
    open spec fn path_of(&self) -> Seq<char> {
        self.0.0@
    }

    fn new(property_path: PropertyPath, data_container: &'a DataContainer) -> Self {
        BytesFieldReader(property_path, data_container)
    }
}

impl<'a> BytesFieldReader<'a> {
    pub fn get(&self) -> (r: DataSetResult<Arc<Vec<u8>>>)
        ensures
            bytes_read(self.1.resolves(self.0.0@), r),
    {
        BytesFieldAccessor::do_get(&self.0, self.1)
    }
}

/// Reads and writes a bytes property of a mutably borrowed container.
pub struct BytesFieldWriter<'a>(pub PropertyPath, pub &'a mut DataContainer);

impl<'a> FieldWriter<'a> for BytesFieldWriter<'a> {
    open spec fn path_of(&self) -> Seq<char> {
        self.0.0@
    }

    fn new(property_path: PropertyPath, data_container: &'a mut DataContainer) -> Self {
        BytesFieldWriter(property_path, data_container)
    }
}

impl<'a> BytesFieldWriter<'a> {
    pub fn get(&self) -> (r: DataSetResult<Arc<Vec<u8>>>)
        ensures
            bytes_read(old(self.1).resolves(self.0.0@), r),
    {
        BytesFieldAccessor::do_get(&self.0, &*self.1)
    }

    pub fn set(&mut self, value: Arc<Vec<u8>>) -> (r: DataSetResult<Option<Value>>)
        ensures
            final(self).0.0@ == old(self).0.0@,
            final(self).1.same_target(old(self).1),
            override_written(old(self).1.data_set.objects@, final(self).1.data_set.objects@,
                old(self).1.asset_id.0, split_dots(old(self).0.0@), old(self).1.schema_set.named_types@,
                Some(Value::Bytes(value)), r),
    {
        BytesFieldAccessor::do_set(&self.0, self.1, value)
    }
}

/// Reads and writes a bytes property of a container that may have been taken.
pub struct BytesField(pub PropertyPath);

impl Field for BytesField {
    open spec fn path_of(&self) -> Seq<char> {
        self.0.0@
    }

    fn new(property_path: PropertyPath) -> Self {
        BytesField(property_path)
    }
}

impl BytesField {
    pub fn get(&self, data: &Option<DataContainer>) -> (r: DataSetResult<Arc<Vec<u8>>>)
        ensures
            data is None ==> r == Err::<Arc<Vec<u8>>, DataSetError>(DataSetError::DataTaken),
            data matches Some(d) ==> bytes_read(d.resolves(self.0.0@), r),
    {
        match data {
            Some(d) => BytesFieldAccessor::do_get(&self.0, d),
            None => Err(DataSetError::DataTaken),
        }
    }

    pub fn set(&self, data: &mut Option<DataContainer>, value: Arc<Vec<u8>>) -> (r: DataSetResult<Option<Value>>)
        ensures
            *old(data) is None ==> r == Err::<Option<Value>, DataSetError>(DataSetError::DataTaken) && *final(data) is None,
            *old(data) matches Some(d0) ==> *final(data) matches Some(d1) && d1.same_target(&d0)
                && override_written(d0.data_set.objects@, d1.data_set.objects@, d0.asset_id.0, split_dots(self.0.0@),
                    d0.schema_set.named_types@, Some(Value::Bytes(value)), r),
    {
        match data.take() {
            Some(mut d) => {
                let r = BytesFieldAccessor::do_set(&self.0, &mut d, value);
                *data = Some(d);
                r
            },
            None => Err(DataSetError::DataTaken),
        }
    }
}

/// The view of a string read result.
pub open spec fn string_result_view(r: DataSetResult<String>) -> DataSetResult<ValueView> {
    match r {
        Ok(x) => Ok(ValueView::String(x@)),
        Err(e) => Err(e),
    }
}

/// True when `r` is what reading a string property gives when resolving gives `res`: the value,
/// `SchemaMismatch` for a value of another kind, or the resolution error.
pub open spec fn string_read(res: DataSetResult<ValueView>, r: DataSetResult<String>) -> bool {
    match res {
        Ok(ValueView::String(_)) => r is Ok && string_result_view(r) == res,
        Ok(_) => r == Err::<String, DataSetError>(DataSetError::SchemaMismatch),
        Err(e) => r == Err::<String, DataSetError>(e),
    }
}

/// Reads and writes a string property of any container.
pub struct StringFieldAccessor(pub PropertyPath);

impl FieldAccessor for StringFieldAccessor {
    open spec fn path_of(&self) -> Seq<char> {
        self.0.0@
    }

    fn new(property_path: PropertyPath) -> Self {
        StringFieldAccessor(property_path)
    }
}

impl StringFieldAccessor {
    fn do_get(property_path: &PropertyPath, data_container: &DataContainer) -> (r: DataSetResult<String>)
        ensures
            string_read(data_container.resolves(property_path.0@), r),
    {
        match data_container.resolve_property(property_path.path()) {
            Ok(Value::String(x)) => Ok(x),
            Ok(_) => Err(DataSetError::SchemaMismatch),
            Err(e) => Err(e),
        }
    }

    fn do_set(property_path: &PropertyPath, data_container: &mut DataContainer, value: String) -> (r: DataSetResult<Option<Value>>)
        ensures
            final(data_container).same_target(old(data_container)),
            override_written(old(data_container).data_set.objects@, final(data_container).data_set.objects@,
                old(data_container).asset_id.0, split_dots(property_path.0@), old(data_container).schema_set.named_types@,
                Some(Value::String(value)), r),
    {
        data_container.set_property_override(property_path.path(), Some(Value::String(value)))
    }

    pub fn get(&self, data_container: &DataContainer) -> (r: DataSetResult<String>)
        ensures
            string_read(data_container.resolves(self.0.0@), r),
    {
        Self::do_get(&self.0, data_container)
    }

    pub fn set(&self, data_container: &mut DataContainer, value: String) -> (r: DataSetResult<Option<Value>>)
        ensures
            final(data_container).same_target(old(data_container)),
            override_written(old(data_container).data_set.objects@, final(data_container).data_set.objects@,
                old(data_container).asset_id.0, split_dots(self.0.0@), old(data_container).schema_set.named_types@,
                Some(Value::String(value)), r),
    {
        Self::do_set(&self.0, data_container, value)
    }
}

/// Reads a string property of a borrowed container.
pub struct StringFieldReader<'a>(pub PropertyPath, pub &'a DataContainer);

impl<'a> FieldReader<'a> for StringFieldReader<'a> {
    open spec fn path_of(&self) -> Seq<char> {
        self.0.0@
    }

    fn new(property_path: PropertyPath, data_container: &'a DataContainer) -> Self {
        StringFieldReader(property_path, data_container)
    }
}

impl<'a> StringFieldReader<'a> {
    pub fn get(&self) -> (r: DataSetResult<String>)
        ensures
            string_read(self.1.resolves(self.0.0@), r),
    {
        StringFieldAccessor::do_get(&self.0, self.1)
    }
}

/// Reads and writes a string property of a mutably borrowed container.
pub struct StringFieldWriter<'a>(pub PropertyPath, pub &'a mut DataContainer);

impl<'a> FieldWriter<'a> for StringFieldWriter<'a> {
    open spec fn path_of(&self) -> Seq<char> {
        self.0.0@
    }

    fn new(property_path: PropertyPath, data_container: &'a mut DataContainer) -> Self {
        StringFieldWriter(property_path, data_container)
    }
}

impl<'a> StringFieldWriter<'a> {
    pub fn get(&self) -> (r: DataSetResult<String>)
        ensures
            string_read(old(self.1).resolves(self.0.0@), r),
    {
        StringFieldAccessor::do_get(&self.0, &*self.1)
    }

    pub fn set(&mut self, value: String) -> (r: DataSetResult<Option<Value>>)
        ensures
            final(self).0.0@ == old(self).0.0@,
            final(self).1.same_target(old(self).1),
            override_written(old(self).1.data_set.objects@, final(self).1.data_set.objects@,
                old(self).1.asset_id.0, split_dots(old(self).0.0@), old(self).1.schema_set.named_types@,
                Some(Value::String(value)), r),
    {
        StringFieldAccessor::do_set(&self.0, self.1, value)
    }
}

/// Reads and writes a string property of a container that may have been taken.
pub struct StringField(pub PropertyPath);

impl Field for StringField {
    open spec fn path_of(&self) -> Seq<char> {
        self.0.0@
    }

    fn new(property_path: PropertyPath) -> Self {
        StringField(property_path)
    }
}

impl StringField {
    pub fn get(&self, data: &Option<DataContainer>) -> (r: DataSetResult<String>)
        ensures
            data is None ==> r == Err::<String, DataSetError>(DataSetError::DataTaken),
            data matches Some(d) ==> string_read(d.resolves(self.0.0@), r),
    {
        match data {
            Some(d) => StringFieldAccessor::do_get(&self.0, d),
            None => Err(DataSetError::DataTaken),
        }
    }

    pub fn set(&self, data: &mut Option<DataContainer>, value: String) -> (r: DataSetResult<Option<Value>>)
        ensures
            *old(data) is None ==> r == Err::<Option<Value>, DataSetError>(DataSetError::DataTaken) && *final(data) is None,
            *old(data) matches Some(d0) ==> *final(data) matches Some(d1) && d1.same_target(&d0)
                && override_written(d0.data_set.objects@, d1.data_set.objects@, d0.asset_id.0, split_dots(self.0.0@),
                    d0.schema_set.named_types@, Some(Value::String(value)), r),
    {
        match data.take() {
            Some(mut d) => {
                let r = StringFieldAccessor::do_set(&self.0, &mut d, value);
                *data = Some(d);
                r
            },
            None => Err(DataSetError::DataTaken),
        }
    }
}

/// The view of an asset-reference read result.
pub open spec fn asset_ref_result_view(r: DataSetResult<AssetId>) -> DataSetResult<ValueView> {
    match r {
        Ok(x) => Ok(ValueView::AssetRef(x.0)),
        Err(e) => Err(e),
    }
}

/// True when `r` is what reading an asset-reference property gives when resolving gives `res`: the value,
/// `SchemaMismatch` for a value of another kind, or the resolution error.
pub open spec fn asset_ref_read(res: DataSetResult<ValueView>, r: DataSetResult<AssetId>) -> bool {
    match res {
        Ok(ValueView::AssetRef(_)) => r is Ok && asset_ref_result_view(r) == res,
        Ok(_) => r == Err::<AssetId, DataSetError>(DataSetError::SchemaMismatch),
        Err(e) => r == Err::<AssetId, DataSetError>(e),
    }
}

/// Reads and writes an asset-reference property of any container.
pub struct AssetRefFieldAccessor(pub PropertyPath);

impl FieldAccessor for AssetRefFieldAccessor {
    open spec fn path_of(&self) -> Seq<char> {
        self.0.0@
    }

    fn new(property_path: PropertyPath) -> Self {
        AssetRefFieldAccessor(property_path)
    }
}

impl AssetRefFieldAccessor {
    fn do_get(property_path: &PropertyPath, data_container: &DataContainer) -> (r: DataSetResult<AssetId>)
        ensures
            asset_ref_read(data_container.resolves(property_path.0@), r),
    {
        match data_container.resolve_property(property_path.path()) {
            Ok(Value::AssetRef(x)) => Ok(AssetId(x)),
            Ok(_) => Err(DataSetError::SchemaMismatch),
            Err(e) => Err(e),
        }
    }

    fn do_set(property_path: &PropertyPath, data_container: &mut DataContainer, value: AssetId) -> (r: DataSetResult<Option<Value>>)
        ensures
            final(data_container).same_target(old(data_container)),
            override_written(old(data_container).data_set.objects@, final(data_container).data_set.objects@,
                old(data_container).asset_id.0, split_dots(property_path.0@), old(data_container).schema_set.named_types@,
                Some(Value::AssetRef(value.0)), r),
    {
        data_container.set_property_override(property_path.path(), Some(Value::AssetRef(value.0)))
    }

    pub fn get(&self, data_container: &DataContainer) -> (r: DataSetResult<AssetId>)
        ensures
            asset_ref_read(data_container.resolves(self.0.0@), r),
    {
        Self::do_get(&self.0, data_container)
    }

    pub fn set(&self, data_container: &mut DataContainer, value: AssetId) -> (r: DataSetResult<Option<Value>>)
        ensures
            final(data_container).same_target(old(data_container)),
            override_written(old(data_container).data_set.objects@, final(data_container).data_set.objects@,
                old(data_container).asset_id.0, split_dots(self.0.0@), old(data_container).schema_set.named_types@,
                Some(Value::AssetRef(value.0)), r),
    {
        Self::do_set(&self.0, data_container, value)
    }
}

/// Reads an asset-reference property of a borrowed container.
pub struct AssetRefFieldReader<'a>(pub PropertyPath, pub &'a DataContainer);

impl<'a> FieldReader<'a> for AssetRefFieldReader<'a> {
    open spec fn path_of(&self) -> Seq<char> {
        self.0.0@
    }

    fn new(property_path: PropertyPath, data_container: &'a DataContainer) -> Self {
        AssetRefFieldReader(property_path, data_container)
    }
}

impl<'a> AssetRefFieldReader<'a> {
    pub fn get(&self) -> (r: DataSetResult<AssetId>)
        ensures
            asset_ref_read(self.1.resolves(self.0.0@), r),
    {
        AssetRefFieldAccessor::do_get(&self.0, self.1)
    }
}

/// Reads and writes an asset-reference property of a mutably borrowed container.
pub struct AssetRefFieldWriter<'a>(pub PropertyPath, pub &'a mut DataContainer);

impl<'a> FieldWriter<'a> for AssetRefFieldWriter<'a> {
    open spec fn path_of(&self) -> Seq<char> {
        self.0.0@
    }

    fn new(property_path: PropertyPath, data_container: &'a mut DataContainer) -> Self {
        AssetRefFieldWriter(property_path, data_container)
    }
}

impl<'a> AssetRefFieldWriter<'a> {
    pub fn get(&self) -> (r: DataSetResult<AssetId>)
        ensures
            asset_ref_read(old(self.1).resolves(self.0.0@), r),
    {
        AssetRefFieldAccessor::do_get(&self.0, &*self.1)
    }

    pub fn set(&mut self, value: AssetId) -> (r: DataSetResult<Option<Value>>)
        ensures
            final(self).0.0@ == old(self).0.0@,
            final(self).1.same_target(old(self).1),
            override_written(old(self).1.data_set.objects@, final(self).1.data_set.objects@,
                old(self).1.asset_id.0, split_dots(old(self).0.0@), old(self).1.schema_set.named_types@,
                Some(Value::AssetRef(value.0)), r),
    {
        AssetRefFieldAccessor::do_set(&self.0, self.1, value)
    }
}

/// Reads and writes an asset-reference property of a container that may have been taken.
pub struct AssetRefField(pub PropertyPath);

impl Field for AssetRefField {
    open spec fn path_of(&self) -> Seq<char> {
        self.0.0@
    }

    fn new(property_path: PropertyPath) -> Self {
        AssetRefField(property_path)
    }
}

impl AssetRefField {
    pub fn get(&self, data: &Option<DataContainer>) -> (r: DataSetResult<AssetId>)
        ensures
            data is None ==> r == Err::<AssetId, DataSetError>(DataSetError::DataTaken),
            data matches Some(d) ==> asset_ref_read(d.resolves(self.0.0@), r),
    {
        match data {
            Some(d) => AssetRefFieldAccessor::do_get(&self.0, d),
            None => Err(DataSetError::DataTaken),
        }
    }

    pub fn set(&self, data: &mut Option<DataContainer>, value: AssetId) -> (r: DataSetResult<Option<Value>>)
        ensures
            *old(data) is None ==> r == Err::<Option<Value>, DataSetError>(DataSetError::DataTaken) && *final(data) is None,
            *old(data) matches Some(d0) ==> *final(data) matches Some(d1) && d1.same_target(&d0)
                && override_written(d0.data_set.objects@, d1.data_set.objects@, d0.asset_id.0, split_dots(self.0.0@),
                    d0.schema_set.named_types@, Some(Value::AssetRef(value.0)), r),
    {
        match data.take() {
            Some(mut d) => {
                let r = AssetRefFieldAccessor::do_set(&self.0, &mut d, value);
                *data = Some(d);
                r
            },
            None => Err(DataSetError::DataTaken),
        }
    }
}


/// True when `r` is what reading an enum property gives when resolving gives `res`.
pub open spec fn enum_read<T: Enum>(res: DataSetResult<ValueView>, r: DataSetResult<T>) -> bool {
    match res {
        Ok(ValueView::Enum(s)) => r == match T::from_symbol_spec(s) {
            Some(t) => Ok::<T, DataSetError>(t),
            None => Err::<T, DataSetError>(DataSetError::UnexpectedEnumSymbol),
        },
        Ok(_) => r == Err::<T, DataSetError>(DataSetError::SchemaMismatch),
        Err(e) => r == Err::<T, DataSetError>(e),
    }
}

/// True when `r` is what writing enum value `value` gives: the enum value naming `value`'s
/// symbol was written as by `set_property_override`.
pub open spec fn enum_written<T: Enum>(old: &DataContainer, new: &DataContainer, p: Seq<char>, value: T, r: DataSetResult<Option<Value>>) -> bool {
    &&& new.same_target(old)
    &&& exists|v: Value| v@ == ValueView::Enum(value.symbol_of()) && #[trigger] override_written(old.data_set.objects@, new.data_set.objects@,
        old.asset_id.0, split_dots(p), old.schema_set.named_types@, Some(v), r)
}

/// The path of the value inside the nullable at `p`.
pub fn value_path(p: &PropertyPath) -> (r: PropertyPath)
    ensures
        r.0@ == join_path(p.0@, crate::schema::value_segment()),
{
    proof {
        reveal_strlit("value");
        assert("value"@ =~= crate::schema::value_segment());
    }
    p.push("value")
}

/// Writing an enum value and reading the property back gives the same value: the symbol
/// written is `value`'s, and reading that symbol yields `value`.
pub proof fn lemma_enum_set_then_get<T: Enum>(value: T, stored: Value)
    requires
        stored@ == ValueView::Enum(value.symbol_of()),
    ensures
        enum_read(Ok::<ValueView, DataSetError>(stored@), Ok::<T, DataSetError>(value)),
{
    value.lemma_symbol_round_trip();
}

/// Reads and writes an enum property of any container.
pub struct EnumFieldAccessor<T: Enum>(pub PropertyPath, pub std::marker::PhantomData<T>);

impl<T: Enum> FieldAccessor for EnumFieldAccessor<T> {
    open spec fn path_of(&self) -> Seq<char> {
        self.0.0@
    }

    fn new(property_path: PropertyPath) -> Self {
        EnumFieldAccessor(property_path, std::marker::PhantomData)
    }
}

impl<T: Enum> EnumFieldAccessor<T> {
    pub fn do_get(property_path: &PropertyPath, data_container: &DataContainer) -> (r: DataSetResult<T>)
        ensures
            enum_read(data_container.resolves(property_path.0@), r),
    {
        match data_container.resolve_property(property_path.path()) {
            Ok(Value::Enum(e)) => match T::from_symbol_name(e.symbol_name()) {
                Some(t) => Ok(t),
                None => Err(DataSetError::UnexpectedEnumSymbol),
            },
            Ok(_) => Err(DataSetError::SchemaMismatch),
            Err(e) => Err(e),
        }
    }

    pub fn do_set(property_path: &PropertyPath, data_container: &mut DataContainer, value: T) -> (r: DataSetResult<Option<Value>>)
        ensures
            enum_written(old(data_container), final(data_container), property_path.0@, value, r),
    {
        let v = Value::Enum(ValueEnum::new(String::from_str(value.to_symbol_name())));
        let ghost gv = v;
        assert(gv@ == ValueView::Enum(value.symbol_of()));
        let r = data_container.set_property_override(property_path.path(), Some(v));
        assert(override_written(old(data_container).data_set.objects@, final(data_container).data_set.objects@,
            old(data_container).asset_id.0, split_dots(property_path.0@), old(data_container).schema_set.named_types@, Some(gv), r));
        r
    }

    pub fn get(&self, data_container: &DataContainer) -> (r: DataSetResult<T>)
        ensures
            enum_read(data_container.resolves(self.0.0@), r),
    {
        Self::do_get(&self.0, data_container)
    }

    pub fn set(&self, data_container: &mut DataContainer, value: T) -> (r: DataSetResult<Option<Value>>)
        ensures
            enum_written(old(data_container), final(data_container), self.0.0@, value, r),
    {
        Self::do_set(&self.0, data_container, value)
    }
}

/// Reads an enum property of a borrowed container.
pub struct EnumFieldReader<'a, T>(pub PropertyPath, pub &'a DataContainer, pub std::marker::PhantomData<T>);

impl<'a, T: Enum> FieldReader<'a> for EnumFieldReader<'a, T> {
    open spec fn path_of(&self) -> Seq<char> {
        self.0.0@
    }

    fn new(property_path: PropertyPath, data_container: &'a DataContainer) -> Self {
        EnumFieldReader(property_path, data_container, std::marker::PhantomData)
    }
}

impl<'a, T: Enum> EnumFieldReader<'a, T> {
    pub fn get(&self) -> (r: DataSetResult<T>)
        ensures
            enum_read(self.1.resolves(self.0.0@), r),
    {
        EnumFieldAccessor::<T>::do_get(&self.0, self.1)
    }
}

/// Reads and writes an enum property of a mutably borrowed container.
pub struct EnumFieldWriter<'a, T: Enum>(pub PropertyPath, pub &'a mut DataContainer, pub std::marker::PhantomData<T>);

impl<'a, T: Enum> FieldWriter<'a> for EnumFieldWriter<'a, T> {
    open spec fn path_of(&self) -> Seq<char> {
        self.0.0@
    }

    fn new(property_path: PropertyPath, data_container: &'a mut DataContainer) -> Self {
        EnumFieldWriter(property_path, data_container, std::marker::PhantomData)
    }
}

impl<'a, T: Enum> EnumFieldWriter<'a, T> {
    pub fn get(&self) -> (r: DataSetResult<T>)
        ensures
            enum_read(old(self.1).resolves(self.0.0@), r),
    {
        EnumFieldAccessor::<T>::do_get(&self.0, &*self.1)
    }

    pub fn set(&mut self, value: T) -> (r: DataSetResult<Option<Value>>)
        ensures
            final(self).0.0@ == old(self).0.0@,
            enum_written(old(self).1, final(self).1, old(self).0.0@, value, r),
    {
        EnumFieldAccessor::<T>::do_set(&self.0, self.1, value)
    }
}

/// Reads and writes an enum property of a container that may have been taken.
pub struct EnumField<T: Enum>(pub PropertyPath, pub std::marker::PhantomData<T>);

impl<T: Enum> Field for EnumField<T> {
    open spec fn path_of(&self) -> Seq<char> {
        self.0.0@
    }

    fn new(property_path: PropertyPath) -> Self {
        EnumField(property_path, std::marker::PhantomData)
    }
}

impl<T: Enum> EnumField<T> {
    pub fn get(&self, data: &Option<DataContainer>) -> (r: DataSetResult<T>)
        ensures
            data is None ==> r == Err::<T, DataSetError>(DataSetError::DataTaken),
            data matches Some(d) ==> enum_read(d.resolves(self.0.0@), r),
    {
        match data {
            Some(d) => EnumFieldAccessor::<T>::do_get(&self.0, d),
            None => Err(DataSetError::DataTaken),
        }
    }

    pub fn set(&self, data: &mut Option<DataContainer>, value: T) -> (r: DataSetResult<Option<Value>>)
        ensures
            *old(data) is None ==> r == Err::<Option<Value>, DataSetError>(DataSetError::DataTaken) && *final(data) is None,
            *old(data) matches Some(d0) ==> *final(data) matches Some(d1) && enum_written(&d0, &d1, self.0.0@, value, r),
    {
        match data.take() {
            Some(mut d) => {
                let r = EnumFieldAccessor::<T>::do_set(&self.0, &mut d, value);
                *data = Some(d);
                r
            },
            None => Err(DataSetError::DataTaken),
        }
    }
}

/// True when `r` is what resolving a nullable gives when its null state is `n`: the inner
/// accessor when non-null, `None` when null, or the error.
pub open spec fn nullable_read<T>(n: DataSetResult<NullOverride>, r: DataSetResult<Option<T>>) -> bool {
    match n {
        Ok(NullOverride::SetNonNull) => r matches Ok(Some(_)),
        Ok(NullOverride::SetNull) => r matches Ok(None),
        Err(e) => r == Err::<Option<T>, DataSetError>(e),
    }
}

/// True when `r` is what setting null override `n` at `p` and then resolving it gives.
pub open spec fn nullable_written<T>(old: &DataContainer, new: &DataContainer, p: Seq<char>, n: NullOverride, r: DataSetResult<Option<T>>) -> bool {
    &&& new.same_target(old)
    &&& exists|sr: DataSetResult<()>| #[trigger] null_override_written(old.data_set.objects@, new.data_set.objects@,
        old.asset_id.0, split_dots(p), old.schema_set.named_types@, n, sr)
        && (sr matches Err(e) ==> r == Err::<Option<T>, DataSetError>(e))
        && (sr is Ok ==> nullable_read(new.null_result(p), r))
}

/// Reads and writes a nullable property of any container; `T` reads its value.
pub struct NullableFieldAccessor<T: FieldAccessor>(pub PropertyPath, pub std::marker::PhantomData<T>);

impl<T: FieldAccessor> FieldAccessor for NullableFieldAccessor<T> {
    open spec fn path_of(&self) -> Seq<char> {
        self.0.0@
    }

    fn new(property_path: PropertyPath) -> Self {
        NullableFieldAccessor(property_path, std::marker::PhantomData)
    }
}

impl<T: FieldAccessor> NullableFieldAccessor<T> {
    /// An accessor of the value when the property is non-null.
    pub fn resolve_null(&self, data_container: &DataContainer) -> (r: DataSetResult<Option<T>>)
        ensures
            nullable_read(data_container.null_result(self.0.0@), r),
            r matches Ok(Some(t)) ==> t.path_of() == join_path(self.0.0@, crate::schema::value_segment()),
    {
        match data_container.resolve_null_override(self.0.path()) {
            Ok(NullOverride::SetNonNull) => Ok(Some(T::new(value_path(&self.0)))),
            Ok(NullOverride::SetNull) => Ok(None),
            Err(e) => Err(e),
        }
    }

    pub fn resolve_null_override(&self, data_container: &DataContainer) -> (r: DataSetResult<NullOverride>)
        ensures
            r == data_container.null_result(self.0.0@),
    {
        data_container.resolve_null_override(self.0.path())
    }

    pub fn set_null_override(&self, data_container: &mut DataContainer, null_override: NullOverride) -> (r: DataSetResult<Option<T>>)
        ensures
            nullable_written(old(data_container), final(data_container), self.0.0@, null_override, r),
            r matches Ok(Some(t)) ==> t.path_of() == join_path(self.0.0@, crate::schema::value_segment()),
    {
        let path = self.0.path();
        let sr = data_container.set_null_override(path, null_override);
        let ghost gsr = sr;
        let r = match sr {
            Err(e) => Err(e),
            Ok(()) => match data_container.resolve_null_override(path) {
                Ok(NullOverride::SetNonNull) => Ok(Some(T::new(value_path(&self.0)))),
                Ok(NullOverride::SetNull) => Ok(None),
                Err(e) => Err(e),
            },
        };
        assert(null_override_written(old(data_container).data_set.objects@, final(data_container).data_set.objects@,
            old(data_container).asset_id.0, split_dots(self.0.0@), old(data_container).schema_set.named_types@, null_override, gsr));
        r
    }
}

/// Reads a nullable property of a borrowed container.
pub struct NullableFieldReader<'a, T>(pub PropertyPath, pub &'a DataContainer, pub std::marker::PhantomData<T>);

impl<'a, T: FieldReader<'a>> FieldReader<'a> for NullableFieldReader<'a, T> {
    open spec fn path_of(&self) -> Seq<char> {
        self.0.0@
    }

    fn new(property_path: PropertyPath, data_container: &'a DataContainer) -> Self {
        NullableFieldReader(property_path, data_container, std::marker::PhantomData)
    }
}

impl<'a, T: FieldReader<'a>> NullableFieldReader<'a, T> {
    pub fn resolve_null(&self) -> (r: DataSetResult<Option<T>>)
        ensures
            nullable_read(self.1.null_result(self.0.0@), r),
            r matches Ok(Some(t)) ==> t.path_of() == join_path(self.0.0@, crate::schema::value_segment()),
    {
        match self.1.resolve_null_override(self.0.path()) {
            Ok(NullOverride::SetNonNull) => Ok(Some(T::new(value_path(&self.0), self.1))),
            Ok(NullOverride::SetNull) => Ok(None),
            Err(e) => Err(e),
        }
    }

    pub fn resolve_null_override(&self) -> (r: DataSetResult<NullOverride>)
        ensures
            r == self.1.null_result(self.0.0@),
    {
        self.1.resolve_null_override(self.0.path())
    }
}

/// Reads and writes a nullable property of a mutably borrowed container.
pub struct NullableFieldWriter<'a, T: FieldWriter<'a>>(pub PropertyPath, pub &'a mut DataContainer, pub std::marker::PhantomData<T>);

impl<'a, T: FieldWriter<'a>> FieldWriter<'a> for NullableFieldWriter<'a, T> {
    open spec fn path_of(&self) -> Seq<char> {
        self.0.0@
    }

    fn new(property_path: PropertyPath, data_container: &'a mut DataContainer) -> Self {
        NullableFieldWriter(property_path, data_container, std::marker::PhantomData)
    }
}

impl<'a, T: FieldWriter<'a>> NullableFieldWriter<'a, T> {
    /// A writer of the value when the property is non-null; it takes over the borrow.
    pub fn resolve_null(self) -> (r: DataSetResult<Option<T>>)
        ensures
            nullable_read(old(self.1).null_result(self.0.0@), r),
            r matches Ok(Some(t)) ==> t.path_of() == join_path(self.0.0@, crate::schema::value_segment()),
    {
        match self.1.resolve_null_override(self.0.path()) {
            Ok(NullOverride::SetNonNull) => Ok(Some(T::new(value_path(&self.0), self.1))),
            Ok(NullOverride::SetNull) => Ok(None),
            Err(e) => Err(e),
        }
    }

    pub fn resolve_null_override(&self) -> (r: DataSetResult<NullOverride>)
        ensures
            r == old(self.1).null_result(self.0.0@),
    {
        self.1.resolve_null_override(self.0.path())
    }

    pub fn set_null_override(&mut self, null_override: NullOverride) -> (r: DataSetResult<()>)
        ensures
            final(self).0.0@ == old(self).0.0@,
            final(self).1.same_target(old(self).1),
            null_override_written(old(self).1.data_set.objects@, final(self).1.data_set.objects@,
                old(self).1.asset_id.0, split_dots(old(self).0.0@), old(self).1.schema_set.named_types@, null_override, r),
    {
        self.1.set_null_override(self.0.path(), null_override)
    }
}

/// Reads and writes a nullable property of a container that may have been taken.
pub struct NullableField<T: Field>(pub PropertyPath, pub std::marker::PhantomData<T>);

impl<T: Field> Field for NullableField<T> {
    open spec fn path_of(&self) -> Seq<char> {
        self.0.0@
    }

    fn new(property_path: PropertyPath) -> Self {
        NullableField(property_path, std::marker::PhantomData)
    }
}

impl<T: Field> NullableField<T> {
    pub fn resolve_null(&self, data: &Option<DataContainer>) -> (r: DataSetResult<Option<T>>)
        ensures
            data is None ==> r == Err::<Option<T>, DataSetError>(DataSetError::DataTaken),
            data matches Some(d) ==> nullable_read(d.null_result(self.0.0@), r),
            r matches Ok(Some(t)) ==> t.path_of() == join_path(self.0.0@, crate::schema::value_segment()),
    {
        match data {
            Some(d) => match d.resolve_null_override(self.0.path()) {
                Ok(NullOverride::SetNonNull) => Ok(Some(T::new(value_path(&self.0)))),
                Ok(NullOverride::SetNull) => Ok(None),
                Err(e) => Err(e),
            },
            None => Err(DataSetError::DataTaken),
        }
    }

    pub fn resolve_null_override(&self, data: &Option<DataContainer>) -> (r: DataSetResult<NullOverride>)
        ensures
            data is None ==> r == Err::<NullOverride, DataSetError>(DataSetError::DataTaken),
            data matches Some(d) ==> r == d.null_result(self.0.0@),
    {
        match data {
            Some(d) => d.resolve_null_override(self.0.path()),
            None => Err(DataSetError::DataTaken),
        }
    }

    pub fn set_null_override(&self, data: &mut Option<DataContainer>, null_override: NullOverride) -> (r: DataSetResult<Option<T>>)
        ensures
            *old(data) is None ==> r == Err::<Option<T>, DataSetError>(DataSetError::DataTaken) && *final(data) is None,
            *old(data) matches Some(d0) ==> *final(data) matches Some(d1) && nullable_written(&d0, &d1, self.0.0@, null_override, r),
            r matches Ok(Some(t)) ==> t.path_of() == join_path(self.0.0@, crate::schema::value_segment()),
    {
        match data.take() {
            Some(mut d) => {
                let sr = d.set_null_override(self.0.path(), null_override);
                let ghost gsr = sr;
                let ghost d_mid = d;
                let r = match sr {
                    Err(e) => Err(e),
                    Ok(()) => match d.resolve_null_override(self.0.path()) {
                        Ok(NullOverride::SetNonNull) => Ok(Some(T::new(value_path(&self.0)))),
                        Ok(NullOverride::SetNull) => Ok(None),
                        Err(e) => Err(e),
                    },
                };
                *data = Some(d);
                r
            },
            None => Err(DataSetError::DataTaken),
        }
    }
}


/// The text form of a UUID as `uuid` prints it: 32 lowercase hexadecimal digits in groups of
/// 8, 4, 4, 4 and 12, joined by hyphens.
pub open spec fn uuid_text_of(u: u128) -> Seq<char> {
    let d = hex_digits(u as nat, 32);
    d.subrange(0, 8) + seq!['-'] + d.subrange(8, 12) + seq!['-'] + d.subrange(12, 16) + seq!['-']
        + d.subrange(16, 20) + seq!['-'] + d.subrange(20, 32)
}

/// The lowercase hexadecimal digit of `n` (below 16).
pub open spec fn hex_char(n: nat) -> char {
    seq!['0', '1', '2', '3', '4', '5', '6', '7', '8', '9', 'a', 'b', 'c', 'd', 'e', 'f'][n as int]
}

/// The lowest `k` hexadecimal digits of `u`, most significant first.
pub open spec fn hex_digits(u: nat, k: nat) -> Seq<char>
    decreases k,
{
    if k == 0 {
        Seq::empty()
    } else {
        hex_digits(u / 16, (k - 1) as nat).push(hex_char(u % 16))
    }
}

/// Relies on `uuid::Uuid`'s `Display`, which prints the hyphenated form that
/// `uuid::Uuid::parse_str` reads back to the same value.
#[verifier::external_body]
pub(crate) fn uuid_text(u: u128) -> (r: String)
    ensures
        r@ == uuid_text_of(u),
        crate::data_set::uuid_parse(r@) == Some(u),
{
    uuid::Uuid::from_u128(u).to_string()
}

/// The path of the entry `entry_uuid` of the dynamic array at `base`.
pub fn dynamic_array_entry_path(base: &PropertyPath, entry_uuid: u128) -> (r: PropertyPath)
    ensures
        r.0@ == join_path(base.0@, uuid_text_of(entry_uuid)),
{
    let t = uuid_text(entry_uuid);
    base.push(t.as_str())
}

/// Reads the entries of a dynamic-array property of any container and reaches each entry.
pub struct DynamicArrayFieldAccessor<T: FieldAccessor>(pub PropertyPath, pub std::marker::PhantomData<T>);

impl<T: FieldAccessor> FieldAccessor for DynamicArrayFieldAccessor<T> {
    open spec fn path_of(&self) -> Seq<char> {
        self.0.0@
    }

    fn new(property_path: PropertyPath) -> Self {
        DynamicArrayFieldAccessor(property_path, std::marker::PhantomData)
    }
}

impl<T: FieldAccessor> DynamicArrayFieldAccessor<T> {
    pub fn resolve_entries(&self, data_container: &DataContainer) -> (r: Vec<u128>)
        ensures
            r@ == crate::data_set::entries_of(data_container.data_set.objects@, data_container.asset_id.0,
                split_dots(self.0.0@), data_container.schema_set.named_types@),
    {
        data_container.resolve_dynamic_array(self.0.path())
    }

    /// An accessor of the entry `entry_uuid`.
    pub fn entry(&self, entry_uuid: u128) -> T {
        T::new(dynamic_array_entry_path(&self.0, entry_uuid))
    }

    pub fn add_entry(&self, data_container: &mut DataContainer) -> (r: DataSetResult<u128>)
        ensures
            final(data_container).same_target(old(data_container)),
            r is Err ==> final(data_container).data_set.objects@ == old(data_container).data_set.objects@,
            r matches Ok(u) ==> crate::data_set::local_entries(final(data_container).data_set.objects@[old(data_container).asset_id.0], split_dots(self.0.0@))
                == crate::data_set::local_entries(old(data_container).data_set.objects@[old(data_container).asset_id.0], split_dots(self.0.0@)).push(u),
    {
        data_container.add_dynamic_array_entry(self.0.path())
    }
}

/// Reads the entries of a dynamic-array property of a borrowed container.
pub struct DynamicArrayFieldReader<'a, T>(pub PropertyPath, pub &'a DataContainer, pub std::marker::PhantomData<T>);

impl<'a, T: FieldReader<'a>> FieldReader<'a> for DynamicArrayFieldReader<'a, T> {
    open spec fn path_of(&self) -> Seq<char> {
        self.0.0@
    }

    fn new(property_path: PropertyPath, data_container: &'a DataContainer) -> Self {
        DynamicArrayFieldReader(property_path, data_container, std::marker::PhantomData)
    }
}

impl<'a, T: FieldReader<'a>> DynamicArrayFieldReader<'a, T> {
    pub fn resolve_entries(&self) -> (r: Vec<u128>)
        ensures
            r@ == crate::data_set::entries_of(self.1.data_set.objects@, self.1.asset_id.0,
                split_dots(self.0.0@), self.1.schema_set.named_types@),
    {
        self.1.resolve_dynamic_array(self.0.path())
    }

    /// A reader of the entry `entry_uuid`.
    pub fn entry(&self, entry_uuid: u128) -> T {
        T::new(dynamic_array_entry_path(&self.0, entry_uuid), self.1)
    }
}

/// Reads the entries of a dynamic-array property of a mutably borrowed container and adds new ones.
pub struct DynamicArrayFieldWriter<'a, T: FieldWriter<'a>>(pub PropertyPath, pub &'a mut DataContainer, pub std::marker::PhantomData<T>);

impl<'a, T: FieldWriter<'a>> FieldWriter<'a> for DynamicArrayFieldWriter<'a, T> {
    open spec fn path_of(&self) -> Seq<char> {
        self.0.0@
    }

    fn new(property_path: PropertyPath, data_container: &'a mut DataContainer) -> Self {
        DynamicArrayFieldWriter(property_path, data_container, std::marker::PhantomData)
    }
}

impl<'a, T: FieldWriter<'a>> DynamicArrayFieldWriter<'a, T> {
    pub fn resolve_entries(&self) -> (r: Vec<u128>)
        ensures
            r@ == crate::data_set::entries_of(old(self.1).data_set.objects@, old(self.1).asset_id.0,
                split_dots(self.0.0@), old(self.1).schema_set.named_types@),
    {
        self.1.resolve_dynamic_array(self.0.path())
    }

    /// A writer of the entry `entry_uuid`; it takes over the borrow.
    pub fn entry(self, entry_uuid: u128) -> T {
        T::new(dynamic_array_entry_path(&self.0, entry_uuid), self.1)
    }

    pub fn add_entry(&mut self) -> (r: DataSetResult<u128>)
        ensures
            final(self).0.0@ == old(self).0.0@,
            final(self).1.same_target(old(self).1),
            r is Err ==> final(self).1.data_set.objects@ == old(self).1.data_set.objects@,
    {
        self.1.add_dynamic_array_entry(self.0.path())
    }
}

/// Reads the entries of a dynamic-array property of a container that may have been taken.
pub struct DynamicArrayField<T: Field>(pub PropertyPath, pub std::marker::PhantomData<T>);

impl<T: Field> Field for DynamicArrayField<T> {
    open spec fn path_of(&self) -> Seq<char> {
        self.0.0@
    }

    fn new(property_path: PropertyPath) -> Self {
        DynamicArrayField(property_path, std::marker::PhantomData)
    }
}

impl<T: Field> DynamicArrayField<T> {
    pub fn resolve_entries(&self, data: &Option<DataContainer>) -> (r: DataSetResult<Vec<u128>>)
        ensures
            data is None ==> r is Err,
            data matches Some(d) ==> r matches Ok(v) && v@ == crate::data_set::entries_of(d.data_set.objects@, d.asset_id.0,
                split_dots(self.0.0@), d.schema_set.named_types@),
    {
        match data {
            Some(d) => Ok(d.resolve_dynamic_array(self.0.path())),
            None => Err(DataSetError::DataTaken),
        }
    }

    /// A field of the entry `entry_uuid`.
    pub fn entry(&self, entry_uuid: u128) -> T {
        T::new(dynamic_array_entry_path(&self.0, entry_uuid))
    }

    pub fn add_entry(&self, data: &mut Option<DataContainer>) -> (r: DataSetResult<u128>)
        ensures
            *old(data) is None ==> r == Err::<u128, DataSetError>(DataSetError::DataTaken) && *final(data) is None,
            *old(data) matches Some(d0) ==> *final(data) matches Some(d1) && d1.same_target(&d0),
    {
        match data.take() {
            Some(mut d) => {
                let r = d.add_dynamic_array_entry(self.0.path());
                *data = Some(d);
                r
            },
            None => Err(DataSetError::DataTaken),
        }
    }
}

} // verus!
