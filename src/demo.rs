use vstd::prelude::*;
use crate::ids::AssetId;
use crate::error::{DataSetError, DataSetResult};
use crate::data_set::{DataSet, resolve_view};
use crate::path::split_dots;
use crate::schema_set::SchemaSet;
use crate::value::{Value, ValueView};

verus! {

/// A record with one field of each of three primitive kinds.
#[derive(Copy, Clone, Debug, PartialEq, Eq, Structural)]
pub struct AllFields {
    pub boolean: bool,
    pub int32: i32,
    pub int64: i64,
}

impl AllFields {
    /// Reads the record from asset `object_id`; fails when a field does not resolve to a value of
    /// its kind.
    pub fn from_data_set(object_id: AssetId, data_set: &DataSet, schema: &SchemaSet) -> (r: DataSetResult<AllFields>)
        ensures
            r matches Ok(a) ==> resolve_view(data_set.objects@, object_id.0, split_dots("boolean"@), schema.named_types@) == Ok::<ValueView, DataSetError>(ValueView::Boolean(a.boolean))
                && resolve_view(data_set.objects@, object_id.0, split_dots("int32"@), schema.named_types@) == Ok::<ValueView, DataSetError>(ValueView::I32(a.int32))
                && resolve_view(data_set.objects@, object_id.0, split_dots("int64"@), schema.named_types@) == Ok::<ValueView, DataSetError>(ValueView::I64(a.int64)),
            r is Ok <==> (resolve_view(data_set.objects@, object_id.0, split_dots("boolean"@), schema.named_types@) matches Ok(ValueView::Boolean(_)))
                && (resolve_view(data_set.objects@, object_id.0, split_dots("int32"@), schema.named_types@) matches Ok(ValueView::I32(_)))
                && (resolve_view(data_set.objects@, object_id.0, split_dots("int64"@), schema.named_types@) matches Ok(ValueView::I64(_))),
    {
        let boolean = match data_set.resolve_property(schema, object_id, "boolean") {
            Ok(Value::Boolean(b)) => b,
            _ => {
                return Err(DataSetError::SchemaMismatch);
            },
        };
        let int32 = match data_set.resolve_property(schema, object_id, "int32") {
            Ok(Value::I32(b)) => b,
            _ => {
                return Err(DataSetError::SchemaMismatch);
            },
        };
        let int64 = match data_set.resolve_property(schema, object_id, "int64") {
            Ok(Value::I64(b)) => b,
            _ => {
                return Err(DataSetError::SchemaMismatch);
            },
        };
        Ok(AllFields { boolean, int32, int64 })
    }
}

/// Importer of `.blender_mesh` files.
#[derive(Copy, Clone, Debug, Default)]
pub struct BlenderMeshImporter;

/// Its importer id (the UUID 5f2be1a1-b025-4d72-960b-24cb03ff19de).
pub const BLENDER_MESH_IMPORTER_ID: u128 = 0x5f2be1a1_b025_4d72_960b_24cb03ff19de;

impl BlenderMeshImporter {
    pub fn importer_id(&self) -> (r: u128)
        ensures r == BLENDER_MESH_IMPORTER_ID,
    {
        BLENDER_MESH_IMPORTER_ID
    }

    pub fn supported_file_extensions(&self) -> (r: Vec<String>)
        ensures
            r@.len() == 1,
            r@[0]@ == seq!['b', 'l', 'e', 'n', 'd', 'e', 'r', '_', 'm', 'e', 's', 'h'],
    {
        proof {
            reveal_strlit("blender_mesh");
        }
        let mut v: Vec<String> = Vec::new();
        v.push(String::from_str("blender_mesh"));
        v
    }
}

/// Registers the mesh importer.
#[derive(Copy, Clone, Debug, Default)]
pub struct BlenderMeshAssetPlugin;

/// Builds material artifacts from material assets; it reads no import data.
#[derive(Copy, Clone, Debug, Default)]
pub struct MeshAdvMaterialBuilder;

impl MeshAdvMaterialBuilder {
    /// The import data that building `asset_id` reads: none.
    pub fn enumerate_dependencies(&self, asset_id: AssetId) -> (r: Vec<AssetId>)
        ensures r@.len() == 0,
    {
        Vec::new()
    }
}

/// Registers the material builder.
#[derive(Copy, Clone, Debug, Default)]
pub struct MeshAdvMaterialAssetPlugin;

/// Registers builders for the simple data records.
#[derive(Copy, Clone, Debug, Default)]
pub struct SimpleDataAssetPlugin;

/// Maps file extensions to the importers that handle them.
#[derive(Debug, Default)]
pub struct ImporterRegistry {
    pub importers: Vec<(u128, Vec<String>)>,
}

/// True when importer entry `e` handles extension `ext`.
pub open spec fn handles(e: (u128, Vec<String>), ext: Seq<char>) -> bool {
    exists|j: int| 0 <= j < e.1@.len() && #[trigger] e.1@[j]@ == ext
}

/// The ids of the importers in `s` that handle `ext`, in order.
pub open spec fn ids_handling(s: Seq<(u128, Vec<String>)>, ext: Seq<char>) -> Seq<u128>
    decreases s.len(),
{
    if s.len() == 0 {
        Seq::empty()
    } else {
        let prev = ids_handling(s.drop_last(), ext);
        if handles(s.last(), ext) {
            prev.push(s.last().0)
        } else {
            prev
        }
    }
}

impl ImporterRegistry {
    pub fn new() -> (r: Self)
        ensures r.importers@.len() == 0,
    {
        ImporterRegistry { importers: Vec::new() }
    }

    /// Adds an importer for the given extensions.
    pub fn register(&mut self, importer_id: u128, extensions: Vec<String>)
        ensures
            final(self).importers@ == old(self).importers@.push((importer_id, extensions)),
    {
        self.importers.push((importer_id, extensions));
    }

    /// The importers that handle extension `ext`, in registration order.
    pub fn importers_for_file_extension(&self, ext: &str) -> (r: Vec<u128>)
        ensures
            r@ == ids_handling(self.importers@, ext@),
    {
        let mut r: Vec<u128> = Vec::new();
        let mut i: usize = 0;
        while i < self.importers.len()
            invariant
                0 <= i <= self.importers@.len(),
                r@ == ids_handling(self.importers@.take(i as int), ext@),
            decreases self.importers@.len() - i,
        {
            let entry = &self.importers[i];
            let mut found = false;
            let mut j: usize = 0;
            while j < entry.1.len()
                invariant
                    0 <= j <= entry.1@.len(),
                    found == exists|m: int| 0 <= m < j && #[trigger] entry.1@[m]@ == ext@,
                decreases entry.1@.len() - j,
            {
                if crate::schema::str_eq(entry.1[j].as_str(), ext) {
                    found = true;
                }
                j = j + 1;
            }
            proof {
                let s = self.importers@;
                assert(s.take(i as int + 1).drop_last() =~= s.take(i as int));
                assert(s.take(i as int + 1).last() == s[i as int]);
                assert(found == handles(s[i as int], ext@));
            }
            if found {
                r.push(entry.0);
            }
            i = i + 1;
        }
        assert(self.importers@.take(self.importers@.len() as int) =~= self.importers@);
        r
    }
}


/// Reads the `F32` property at `path` as its IEEE-754 bits.
pub fn resolve_f32_bits(data_set: &DataSet, schema: &SchemaSet, object_id: AssetId, path: &str) -> (r: DataSetResult<u32>)
    ensures
        r matches Ok(b) ==> resolve_view(data_set.objects@, object_id.0, split_dots(path@), schema.named_types@) == Ok::<ValueView, DataSetError>(ValueView::F32(b)),
        r is Ok <==> (resolve_view(data_set.objects@, object_id.0, split_dots(path@), schema.named_types@) matches Ok(ValueView::F32(_))),
{
    match data_set.resolve_property(schema, object_id, path) {
        Ok(Value::F32(b)) => Ok(b),
        Ok(_) => Err(DataSetError::SchemaMismatch),
        Err(e) => Err(e),
    }
}

/// A transform with its floats held as IEEE-754 bits: position, rotation quaternion, scale.
#[derive(Copy, Clone, Debug, PartialEq, Eq)]
pub struct TransformBits {
    pub position: [u32; 3],
    pub rotation: [u32; 4],
    pub scale: [u32; 3],
}

impl TransformBits {
    /// Reads `position.{x,y,z}`, `rotation.{x,y,z,w}` and `scale.{x,y,z}` of asset `object_id`.
    pub fn from_data_set(object_id: AssetId, data_set: &DataSet, schema: &SchemaSet) -> (r: DataSetResult<TransformBits>)
        ensures
            r matches Ok(t) ==> resolve_view(data_set.objects@, object_id.0, split_dots("position.x"@), schema.named_types@) == Ok::<ValueView, DataSetError>(ValueView::F32(t.position[0])),
            r matches Ok(t) ==> resolve_view(data_set.objects@, object_id.0, split_dots("position.y"@), schema.named_types@) == Ok::<ValueView, DataSetError>(ValueView::F32(t.position[1])),
            r matches Ok(t) ==> resolve_view(data_set.objects@, object_id.0, split_dots("position.z"@), schema.named_types@) == Ok::<ValueView, DataSetError>(ValueView::F32(t.position[2])),
            r matches Ok(t) ==> resolve_view(data_set.objects@, object_id.0, split_dots("rotation.x"@), schema.named_types@) == Ok::<ValueView, DataSetError>(ValueView::F32(t.rotation[0])),
            r matches Ok(t) ==> resolve_view(data_set.objects@, object_id.0, split_dots("rotation.y"@), schema.named_types@) == Ok::<ValueView, DataSetError>(ValueView::F32(t.rotation[1])),
            r matches Ok(t) ==> resolve_view(data_set.objects@, object_id.0, split_dots("rotation.z"@), schema.named_types@) == Ok::<ValueView, DataSetError>(ValueView::F32(t.rotation[2])),
            r matches Ok(t) ==> resolve_view(data_set.objects@, object_id.0, split_dots("rotation.w"@), schema.named_types@) == Ok::<ValueView, DataSetError>(ValueView::F32(t.rotation[3])),
            r matches Ok(t) ==> resolve_view(data_set.objects@, object_id.0, split_dots("scale.x"@), schema.named_types@) == Ok::<ValueView, DataSetError>(ValueView::F32(t.scale[0])),
            r matches Ok(t) ==> resolve_view(data_set.objects@, object_id.0, split_dots("scale.y"@), schema.named_types@) == Ok::<ValueView, DataSetError>(ValueView::F32(t.scale[1])),
            r matches Ok(t) ==> resolve_view(data_set.objects@, object_id.0, split_dots("scale.z"@), schema.named_types@) == Ok::<ValueView, DataSetError>(ValueView::F32(t.scale[2])),
            r is Ok <==> (resolve_view(data_set.objects@, object_id.0, split_dots("position.x"@), schema.named_types@) matches Ok(ValueView::F32(_))) && (resolve_view(data_set.objects@, object_id.0, split_dots("position.y"@), schema.named_types@) matches Ok(ValueView::F32(_))) && (resolve_view(data_set.objects@, object_id.0, split_dots("position.z"@), schema.named_types@) matches Ok(ValueView::F32(_))) && (resolve_view(data_set.objects@, object_id.0, split_dots("rotation.x"@), schema.named_types@) matches Ok(ValueView::F32(_))) && (resolve_view(data_set.objects@, object_id.0, split_dots("rotation.y"@), schema.named_types@) matches Ok(ValueView::F32(_))) && (resolve_view(data_set.objects@, object_id.0, split_dots("rotation.z"@), schema.named_types@) matches Ok(ValueView::F32(_))) && (resolve_view(data_set.objects@, object_id.0, split_dots("rotation.w"@), schema.named_types@) matches Ok(ValueView::F32(_))) && (resolve_view(data_set.objects@, object_id.0, split_dots("scale.x"@), schema.named_types@) matches Ok(ValueView::F32(_))) && (resolve_view(data_set.objects@, object_id.0, split_dots("scale.y"@), schema.named_types@) matches Ok(ValueView::F32(_))) && (resolve_view(data_set.objects@, object_id.0, split_dots("scale.z"@), schema.named_types@) matches Ok(ValueView::F32(_))),
    {
        let px = resolve_f32_bits(data_set, schema, object_id, "position.x")?;
        let py = resolve_f32_bits(data_set, schema, object_id, "position.y")?;
        let pz = resolve_f32_bits(data_set, schema, object_id, "position.z")?;
        let rx = resolve_f32_bits(data_set, schema, object_id, "rotation.x")?;
        let ry = resolve_f32_bits(data_set, schema, object_id, "rotation.y")?;
        let rz = resolve_f32_bits(data_set, schema, object_id, "rotation.z")?;
        let rw = resolve_f32_bits(data_set, schema, object_id, "rotation.w")?;
        let sx = resolve_f32_bits(data_set, schema, object_id, "scale.x")?;
        let sy = resolve_f32_bits(data_set, schema, object_id, "scale.y")?;
        let sz = resolve_f32_bits(data_set, schema, object_id, "scale.z")?;
        Ok(TransformBits { position: [px, py, pz], rotation: [rx, ry, rz, rw], scale: [sx, sy, sz] })
    }
}

/// A record that refers to a transform asset.
#[derive(Copy, Clone, Debug, PartialEq, Eq, Structural)]
pub struct TransformRef {
    pub transform: crate::ids::ArtifactRef,
}

impl TransformRef {
    /// Reads the `transform` asset reference of asset `object_id`; the reference names the
    /// referred asset's default artifact.
    pub fn from_data_set(object_id: AssetId, data_set: &DataSet, schema: &SchemaSet) -> (r: DataSetResult<TransformRef>)
        ensures
            r matches Ok(t) ==> resolve_view(data_set.objects@, object_id.0, split_dots("transform"@), schema.named_types@)
                == Ok::<ValueView, DataSetError>(ValueView::AssetRef(t.transform.0.0)),
            r is Ok <==> (resolve_view(data_set.objects@, object_id.0, split_dots("transform"@), schema.named_types@) matches Ok(ValueView::AssetRef(_))),
    {
        match data_set.resolve_property(schema, object_id, "transform") {
            Ok(Value::AssetRef(a)) => Ok(TransformRef { transform: crate::ids::ArtifactRef(crate::ids::ArtifactId(a)) }),
            Ok(_) => Err(DataSetError::SchemaMismatch),
            Err(e) => Err(e),
        }
    }
}


/// How a material blends with what is behind it.
#[derive(Copy, Clone, Debug, PartialEq, Eq, Structural)]
pub enum MeshAdvBlendMethodEnum {
    Opaque,
    AlphaClip,
    AlphaBlend,
}

impl crate::field_wrappers::Enum for MeshAdvBlendMethodEnum {
    open spec fn symbol_of(&self) -> Seq<char> {
        match self {
            MeshAdvBlendMethodEnum::Opaque => seq!['O', 'p', 'a', 'q', 'u', 'e'],
            MeshAdvBlendMethodEnum::AlphaClip => seq!['A', 'l', 'p', 'h', 'a', 'C', 'l', 'i', 'p'],
            MeshAdvBlendMethodEnum::AlphaBlend => seq!['A', 'l', 'p', 'h', 'a', 'B', 'l', 'e', 'n', 'd'],
        }
    }

    open spec fn from_symbol_spec(s: Seq<char>) -> Option<Self> {
        if s == seq!['O', 'p', 'a', 'q', 'u', 'e'] {
            Some(MeshAdvBlendMethodEnum::Opaque)
        } else if s == seq!['A', 'l', 'p', 'h', 'a', 'C', 'l', 'i', 'p'] {
            Some(MeshAdvBlendMethodEnum::AlphaClip)
        } else if s == seq!['A', 'l', 'p', 'h', 'a', 'B', 'l', 'e', 'n', 'd'] {
            Some(MeshAdvBlendMethodEnum::AlphaBlend)
        } else {
            None
        }
    }

    fn to_symbol_name(&self) -> (r: &'static str) {
        proof {
            reveal_strlit("Opaque");
            reveal_strlit("AlphaClip");
            reveal_strlit("AlphaBlend");
        }
        match self {
            MeshAdvBlendMethodEnum::Opaque => {
                assert("Opaque"@ == seq!['O', 'p', 'a', 'q', 'u', 'e']);
                "Opaque"
            },
            MeshAdvBlendMethodEnum::AlphaClip => {
                assert("AlphaClip"@ == seq!['A', 'l', 'p', 'h', 'a', 'C', 'l', 'i', 'p']);
                "AlphaClip"
            },
            MeshAdvBlendMethodEnum::AlphaBlend => {
                assert("AlphaBlend"@ == seq!['A', 'l', 'p', 'h', 'a', 'B', 'l', 'e', 'n', 'd']);
                "AlphaBlend"
            },
        }
    }

    proof fn lemma_symbol_round_trip(&self) {
    }

    fn from_symbol_name(str: &str) -> (r: Option<Self>) {
        proof {
            reveal_strlit("Opaque");
            reveal_strlit("AlphaClip");
            reveal_strlit("AlphaBlend");
            assert("Opaque"@ == seq!['O', 'p', 'a', 'q', 'u', 'e']);
            assert("AlphaClip"@ == seq!['A', 'l', 'p', 'h', 'a', 'C', 'l', 'i', 'p']);
            assert("AlphaBlend"@ == seq!['A', 'l', 'p', 'h', 'a', 'B', 'l', 'e', 'n', 'd']);
        }
        if crate::schema::str_eq(str, "Opaque") {
            Some(MeshAdvBlendMethodEnum::Opaque)
        } else if crate::schema::str_eq(str, "AlphaClip") {
            Some(MeshAdvBlendMethodEnum::AlphaClip)
        } else if crate::schema::str_eq(str, "AlphaBlend") {
            Some(MeshAdvBlendMethodEnum::AlphaBlend)
        } else {
            None
        }
    }
}


/// The fields of an `AllFields` record, reached from the record's path.
pub struct AllFieldsRecord(pub crate::field_wrappers::PropertyPath);

impl crate::field_wrappers::Field for AllFieldsRecord {
    open spec fn path_of(&self) -> Seq<char> {
        self.0.0@
    }

    fn new(property_path: crate::field_wrappers::PropertyPath) -> Self {
        AllFieldsRecord(property_path)
    }
}

impl crate::field_wrappers::Record for AllFieldsRecord {
    open spec fn schema_name_spec() -> Seq<char> {
        seq!['A', 'l', 'l', 'F', 'i', 'e', 'l', 'd', 's']
    }

    fn schema_name() -> (r: &'static str) {
        proof {
            reveal_strlit("AllFields");
        }
        "AllFields"
    }
}

impl AllFieldsRecord {
    pub fn boolean(&self) -> (r: crate::field_wrappers::BooleanField)
        ensures r.0.0@ == crate::field_wrappers::join_path(self.0.0@, "boolean"@),
    {
        crate::field_wrappers::BooleanField(self.0.push("boolean"))
    }

    pub fn int32(&self) -> (r: crate::field_wrappers::I32Field)
        ensures r.0.0@ == crate::field_wrappers::join_path(self.0.0@, "int32"@),
    {
        crate::field_wrappers::I32Field(self.0.push("int32"))
    }

    pub fn int64(&self) -> (r: crate::field_wrappers::I64Field)
        ensures r.0.0@ == crate::field_wrappers::join_path(self.0.0@, "int64"@),
    {
        crate::field_wrappers::I64Field(self.0.push("int64"))
    }
}

} // verus!
