use vstd::prelude::*;
use vstd::multiset::Multiset;
use std::sync::Arc;
use crate::ids::SchemaFingerprint;
use crate::schema_set::{SchemaSet, SchemaNamedType, find_named_from};

verus! {

/// Identifies a schema by number.
#[derive(Copy, Clone, Debug, PartialEq, Eq, Hash, Structural)]
pub struct SchemaId(pub u128);

/// Fixed-size array of values of one item type.
#[derive(Debug)]
pub struct SchemaStaticArray {
    pub item_type: Box<Schema>,
    pub length: usize,
}

/// Variable-length array whose entries are keyed by UUID.
#[derive(Debug)]
pub struct SchemaDynamicArray {
    pub item_type: Box<Schema>,
}

/// Map keyed by a primitive.
#[derive(Debug)]
pub struct SchemaMap {
    pub key_type: Box<Schema>,
    pub value_type: Box<Schema>,
}

/// Describes the format of data: one primitive value, or a layout of many values.
#[derive(Debug)]
pub enum Schema {
    /// The value may be null; its content is reached through the segment `value`.
    Nullable(Box<Schema>),
    Boolean,
    I32,
    I64,
    U32,
    U64,
    F32,
    F64,
    /// Small byte string stored inside the asset.
    Bytes,
    /// Large shared byte buffer.
    Buffer,
    /// UTF-8 string.
    String,
    StaticArray(SchemaStaticArray),
    DynamicArray(SchemaDynamicArray),
    KeyedMap(SchemaMap),
    /// Reference to an asset whose record type has the given fingerprint.
    RecordRef(SchemaFingerprint),
    /// A named type (record, enum or fixed) of the schema set.
    NamedType(SchemaFingerprint),
}

impl Schema {
    pub fn is_nullable(&self) -> (r: bool)
        ensures r == (self is Nullable),
    {
        match self { Schema::Nullable(_) => true, _ => false }
    }

    pub fn is_boolean(&self) -> (r: bool)
        ensures r == (self is Boolean),
    {
        match self { Schema::Boolean => true, _ => false }
    }

    pub fn is_i32(&self) -> (r: bool)
        ensures r == (self is I32),
    {
        match self { Schema::I32 => true, _ => false }
    }

    pub fn is_u32(&self) -> (r: bool)
        ensures r == (self is U32),
    {
        match self { Schema::U32 => true, _ => false }
    }

    pub fn is_i64(&self) -> (r: bool)
        ensures r == (self is I64),
    {
        match self { Schema::I64 => true, _ => false }
    }

    pub fn is_u64(&self) -> (r: bool)
        ensures r == (self is U64),
    {
        match self { Schema::U64 => true, _ => false }
    }

    pub fn is_f32(&self) -> (r: bool)
        ensures r == (self is F32),
    {
        match self { Schema::F32 => true, _ => false }
    }

    pub fn is_f64(&self) -> (r: bool)
        ensures r == (self is F64),
    {
        match self { Schema::F64 => true, _ => false }
    }

    pub fn is_bytes(&self) -> (r: bool)
        ensures r == (self is Bytes),
    {
        match self { Schema::Bytes => true, _ => false }
    }

    pub fn is_buffer(&self) -> (r: bool)
        ensures r == (self is Buffer),
    {
        match self { Schema::Buffer => true, _ => false }
    }

    pub fn is_string(&self) -> (r: bool)
        ensures r == (self is String),
    {
        match self { Schema::String => true, _ => false }
    }

    pub fn is_static_array(&self) -> (r: bool)
        ensures r == (self is StaticArray),
    {
        match self { Schema::StaticArray(_) => true, _ => false }
    }

    pub fn is_dynamic_array(&self) -> (r: bool)
        ensures r == (self is DynamicArray),
    {
        match self { Schema::DynamicArray(_) => true, _ => false }
    }

    /// The schema one path segment below this one, looked up in `named_types` for named types.
    pub fn find_property_schema<'a>(&'a self, name: &str, named_types: &'a SchemaSet) -> (r: Option<&'a Schema>)
        ensures
            deref_opt(r) == child_schema(*self, name@, named_types.named_types@),
    {
        match self {
            Schema::Nullable(x) => {
                let v = "value";
                proof {
                    reveal_strlit("value");
                    assert(v@ =~= value_segment());
                }
                if str_eq(name, v) {
                    Some(&**x)
                } else {
                    None
                }
            },
            Schema::NamedType(fp) => {
                match named_types.find_by_fingerprint(*fp) {
                    Some(SchemaNamedType::Record(rec)) => rec.field_schema(name),
                    _ => None,
                }
            },
            Schema::StaticArray(x) => {
                match parse_decimal_u32(name) {
                    Some(_) => Some(&*x.item_type),
                    None => None,
                }
            },
            Schema::DynamicArray(x) => Some(&*x.item_type),
            Schema::KeyedMap(x) => Some(&*x.value_type),
            _ => None,
        }
    }
}

/// The referenced value of an optional reference.
pub open spec fn deref_opt<T>(o: Option<&T>) -> Option<T> {
    match o {
        Some(x) => Some(*x),
        None => None,
    }
}

/// `"value"` as characters: the segment that descends into a nullable.
pub open spec fn value_segment() -> Seq<char> {
    seq!['v', 'a', 'l', 'u', 'e']
}

/// The schema that the segment `seg` leads to from `s`.
pub open spec fn child_schema(s: Schema, seg: Seq<char>, types: Seq<SchemaNamedType>) -> Option<Schema> {
    match s {
        Schema::Nullable(x) => if seg == value_segment() { Some(*x) } else { None },
        Schema::NamedType(fp) => match find_named_from(types, fp, 0) {
            Some(SchemaNamedType::Record(rec)) => record_field_schema(rec.inner.fields@, seg, 0),
            _ => None,
        },
        Schema::StaticArray(x) => if is_decimal_u32(seg) { Some(*x.item_type) } else { None },
        Schema::DynamicArray(x) => Some(*x.item_type),
        Schema::KeyedMap(x) => Some(*x.value_type),
        _ => None,
    }
}

/// Value of a string of decimal digits.
pub open spec fn decimal_value(s: Seq<char>) -> int
    decreases s.len(),
{
    if s.len() == 0 {
        0
    } else {
        decimal_value(s.drop_last()) * 10 + (s.last() as int - '0' as int)
    }
}

pub open spec fn is_digit(c: char) -> bool {
    '0' <= c && c <= '9'
}

/// A non-empty string of decimal digits whose value fits in a `u32`.
pub open spec fn is_decimal_u32(s: Seq<char>) -> bool {
    &&& s.len() > 0
    &&& forall|i: int| 0 <= i < s.len() ==> is_digit(#[trigger] s[i])
    &&& decimal_value(s) <= u32::MAX
}

proof fn lemma_decimal_value_nonneg(s: Seq<char>)
    requires
        forall|i: int| 0 <= i < s.len() ==> is_digit(#[trigger] s[i]),
    ensures
        decimal_value(s) >= 0,
    decreases s.len(),
{
    if s.len() > 0 {
        assert forall|i: int| 0 <= i < s.drop_last().len() implies is_digit(#[trigger] s.drop_last()[i]) by {
            assert(s.drop_last()[i] == s[i]);
        }
        lemma_decimal_value_nonneg(s.drop_last());
    }
}

/// Reads a static-array index: a non-empty run of decimal digits that fits in a `u32`.
pub fn parse_decimal_u32(s: &str) -> (r: Option<u32>)
    ensures
        r is Some <==> is_decimal_u32(s@),
        r matches Some(v) ==> v as int == decimal_value(s@),
{
    let n = s.unicode_len();
    if n == 0 {
        return None;
    }
    let mut acc: u64 = 0;
    let mut i: usize = 0;
    while i < n
        invariant
            n == s@.len(),
            0 <= i <= n,
            acc as int == decimal_value(s@.subrange(0, i as int)),
            acc <= u32::MAX,
            forall|j: int| 0 <= j < i ==> is_digit(#[trigger] s@[j]),
        decreases n - i,
    {
        let c = s.get_char(i);
        assert(s@.subrange(0, i as int + 1).drop_last() == s@.subrange(0, i as int));
        if !('0' <= c && c <= '9') {
            return None;
        }
        let d = (c as u32 - '0' as u32) as u64;
        let next: u64 = acc * 10 + d;
        if next > 0xFFFF_FFFFu64 {
            proof {
                let t = s@.subrange(0, i as int + 1);
                assert forall|j: int| 0 <= j < t.len() implies is_digit(#[trigger] t[j]) by {}
                lemma_decimal_value_nonneg(t.drop_last());
                if forall|j: int| 0 <= j < s@.len() ==> is_digit(#[trigger] s@[j]) {
                    lemma_prefix_bound(s@, i as int + 1);
                }
            }
            return None;
        }
        acc = next;
        i = i + 1;
    }
    assert(s@.subrange(0, n as int) == s@);
    Some(acc as u32)
}

/// A digit string's value is at least the value of any of its prefixes.
proof fn lemma_prefix_bound(s: Seq<char>, k: int)
    requires
        0 <= k <= s.len(),
        forall|i: int| 0 <= i < s.len() ==> is_digit(#[trigger] s[i]) ,
    ensures
        decimal_value(s) >= decimal_value(s.subrange(0, k)),
    decreases s.len() - k,
{
    if k < s.len() {
        lemma_prefix_bound(s, k + 1);
        let t = s.subrange(0, k + 1);
        assert(t.drop_last() == s.subrange(0, k));
        assert forall|i: int| 0 <= i < s.subrange(0, k).len() implies is_digit(#[trigger] s.subrange(0, k)[i]) by {
            assert(s.subrange(0, k)[i] == s[i]);
        }
        lemma_decimal_value_nonneg(s.subrange(0, k));
        assert(is_digit(t.last()));
    } else {
        assert(s.subrange(0, k) == s);
    }
}

/// Compares two strings by their characters.
pub fn str_eq(a: &str, b: &str) -> (r: bool)
    ensures
        r == (a@ == b@),
{
    let n = a.unicode_len();
    if n != b.unicode_len() {
        return false;
    }
    let mut i: usize = 0;
    while i < n
        invariant
            n == a@.len(),
            n == b@.len(),
            0 <= i <= n,
            forall|j: int| 0 <= j < i ==> a@[j] == b@[j],
        decreases n - i,
    {
        if a.get_char(i) != b.get_char(i) {
            return false;
        }
        i = i + 1;
    }
    assert(a@ =~= b@);
    true
}

/// One field of a record: its name, other names it answers to, and its schema.
#[derive(Debug)]
pub struct SchemaRecordField {
    pub name: String,
    pub aliases: Vec<String>,
    pub field_schema: Schema,
    pub markup: SchemaDefRecordFieldMarkup,
}

/// Editor hints for a record field.
#[derive(Clone, Debug, Default)]
pub struct SchemaDefRecordFieldMarkup {
    pub display_name: Option<String>,
    pub category: Option<String>,
    pub description: Option<String>,
}

/// Editor hints for a record.
#[derive(Clone, Debug, Default)]
pub struct SchemaDefRecordMarkup {
    pub display_name: Option<String>,
    pub tags: Vec<String>,
}

impl SchemaRecordField {
    pub fn new(
        name: String,
        aliases: Vec<String>,
        field_schema: Schema,
        markup: SchemaDefRecordFieldMarkup,
    ) -> (r: Self)
        ensures
            r.name == name,
            r.aliases == aliases,
            r.field_schema == field_schema,
            r.markup == markup,
    {
        SchemaRecordField { name, aliases, field_schema, markup }
    }

    pub fn name(&self) -> (r: &str)
        ensures r@ == self.name@,
    {
        self.name.as_str()
    }

    pub fn aliases(&self) -> (r: &[String])
        ensures r@ == self.aliases@,
    {
        self.aliases.as_slice()
    }

    pub fn field_schema(&self) -> (r: &Schema)
        ensures *r == self.field_schema,
    {
        &self.field_schema
    }

    pub fn markup(&self) -> (r: &SchemaDefRecordFieldMarkup)
        ensures *r == self.markup,
    {
        &self.markup
    }
}

/// What a record holds; shared between clones of the record.
#[derive(Debug)]
pub struct SchemaRecordInner {
    pub name: String,
    pub fingerprint: SchemaFingerprint,
    pub aliases: Vec<String>,
    pub fields: Vec<SchemaRecordField>,
    pub markup: SchemaDefRecordMarkup,
}

/// A named record type: an ordered list of uniquely named fields.
#[derive(Clone, Debug)]
pub struct SchemaRecord {
    pub inner: Arc<SchemaRecordInner>,
}

/// No two fields share a name.
pub open spec fn field_names_unique(fields: Seq<SchemaRecordField>) -> bool {
    forall|i: int, j: int| 0 <= i < fields.len() && 0 <= j < fields.len() && i != j
        ==> #[trigger] fields[i].name@ != #[trigger] fields[j].name@
}

/// Lexicographic order of `a` and `b` from index `i` on: true when `a` comes first or they are equal.
pub open spec fn text_le_from(a: Seq<char>, b: Seq<char>, i: int) -> bool
    decreases a.len() - i,
{
    if i < 0 || i >= a.len() {
        true
    } else if i >= b.len() {
        false
    } else if a[i] != b[i] {
        a[i] < b[i]
    } else {
        text_le_from(a, b, i + 1)
    }
}

/// Lexicographic order of texts by character, as `String`'s `Ord` orders them.
pub open spec fn text_le(a: Seq<char>, b: Seq<char>) -> bool {
    text_le_from(a, b, 0)
}

proof fn lemma_text_le_total(a: Seq<char>, b: Seq<char>, i: int)
    requires
        0 <= i,
    ensures
        text_le_from(a, b, i) || text_le_from(b, a, i),
    decreases a.len() - i,
{
    if i < a.len() && i < b.len() && a[i] == b[i] {
        lemma_text_le_total(a, b, i + 1);
    }
}

proof fn lemma_text_le_trans(a: Seq<char>, b: Seq<char>, c: Seq<char>, i: int)
    requires
        0 <= i,
        text_le_from(a, b, i),
        text_le_from(b, c, i),
    ensures
        text_le_from(a, c, i),
    decreases a.len() - i,
{
    if i < a.len() && i < b.len() && i < c.len() && a[i] == b[i] && b[i] == c[i] {
        lemma_text_le_trans(a, b, c, i + 1);
    }
}

/// Compares two texts in lexicographic order.
pub fn text_le_exec(a: &str, b: &str) -> (r: bool)
    ensures
        r == text_le(a@, b@),
{
    let n = a.unicode_len();
    let m = b.unicode_len();
    let mut i: usize = 0;
    while i < n
        invariant
            n == a@.len(),
            m == b@.len(),
            0 <= i <= n,
            text_le(a@, b@) == text_le_from(a@, b@, i as int),
        decreases n - i,
    {
        if i >= m {
            return false;
        }
        let x = a.get_char(i);
        let y = b.get_char(i);
        if x != y {
            return x < y;
        }
        i = i + 1;
    }
    true
}

/// Fields come in order of their names.
pub open spec fn fields_sorted(f: Seq<SchemaRecordField>) -> bool {
    forall|i: int, j: int| 0 <= i < j < f.len() ==> text_le(#[trigger] f[i].name@, #[trigger] f[j].name@)
}

/// The fields in order of their names.
fn sort_fields_by_name(fields: Vec<SchemaRecordField>) -> (r: Vec<SchemaRecordField>)
    ensures
        r@.to_multiset() == fields@.to_multiset(),
        fields_sorted(r@),
{
    broadcast use vstd::seq_lib::group_to_multiset_ensures;
    let ghost g = fields@;
    let mut rest = fields;
    let mut out: Vec<SchemaRecordField> = Vec::new();
    proof {
        assert(out@.to_multiset() =~= Multiset::<SchemaRecordField>::empty());
        assert(out@.to_multiset().add(rest@.to_multiset()) =~= g.to_multiset());
    }
    while rest.len() > 0
        invariant
            out@.to_multiset().add(rest@.to_multiset()) == g.to_multiset(),
            fields_sorted(out@),
            forall|i: int, j: int| 0 <= i < out@.len() && 0 <= j < rest@.len()
                ==> text_le(#[trigger] out@[i].name@, #[trigger] rest@[j].name@),
        decreases rest@.len(),
    {
        let mut best: usize = 0;
        let mut k: usize = 1;
        proof {
            lemma_text_le_total(rest@[0].name@, rest@[0].name@, 0);
        }
        while k < rest.len()
            invariant
                1 <= k <= rest@.len(),
                0 <= best < rest@.len(),
                forall|j: int| 0 <= j < k ==> text_le(rest@[best as int].name@, #[trigger] rest@[j].name@),
            decreases rest@.len() - k,
        {
            proof {
                lemma_text_le_total(rest@[best as int].name@, rest@[k as int].name@, 0);
            }
            if !text_le_exec(rest[best].name.as_str(), rest[k].name.as_str()) {
                proof {
                    let c = rest@[k as int].name@;
                    let bn = rest@[best as int].name@;
                    assert forall|j: int| 0 <= j < k + 1 implies text_le(c, #[trigger] rest@[j].name@) by {
                        if j < k {
                            lemma_text_le_trans(c, bn, rest@[j].name@, 0);
                        } else {
                            lemma_text_le_total(c, c, 0);
                        }
                    }
                }
                best = k;
            }
            k = k + 1;
        }
        proof {
            lemma_text_le_total(rest@[best as int].name@, rest@[best as int].name@, 0);
        }
        let ghost r0 = rest@;
        let ghost o0 = out@;
        let f = rest.remove(best);
        proof {
            r0.to_multiset_ensures();
            o0.to_multiset_ensures();
            assert(r0.remove(best as int).to_multiset() =~= r0.to_multiset().remove(f));
            assert(r0.to_multiset().contains(f)) by {
                assert(r0[best as int] == f);
            }
        }
        out.push(f);
        proof {
            assert(out@.to_multiset() =~= o0.to_multiset().insert(f));
            assert(out@.to_multiset().add(rest@.to_multiset()) =~= g.to_multiset());
            assert forall|i: int, j: int| 0 <= i < j < out@.len() implies text_le(#[trigger] out@[i].name@, #[trigger] out@[j].name@) by {
                if j < o0.len() {
                    assert(out@[i] == o0[i] && out@[j] == o0[j]);
                } else {
                    assert(out@[i] == o0[i]);
                    assert(text_le(o0[i].name@, r0[best as int].name@));
                }
            }
            assert forall|i: int, j: int| 0 <= i < out@.len() && 0 <= j < rest@.len()
                implies text_le(#[trigger] out@[i].name@, #[trigger] rest@[j].name@) by {
                let jj = if j < best { j } else { j + 1 };
                assert(rest@[j] == r0[jj]);
                if i < o0.len() {
                    assert(out@[i] == o0[i]);
                } else {
                    assert(out@[i] == f);
                }
            }
        }
    }
    proof {
        assert(rest@.to_multiset() =~= Multiset::<SchemaRecordField>::empty());
        assert(out@.to_multiset() =~= g.to_multiset());
    }
    out
}

/// The schema of the first field named `name`, searching from index `i`.
pub open spec fn record_field_schema(fields: Seq<SchemaRecordField>, name: Seq<char>, i: int) -> Option<Schema>
    decreases fields.len() - i,
{
    if i < 0 || i >= fields.len() {
        None
    } else if fields[i].name@ == name {
        Some(fields[i].field_schema)
    } else {
        record_field_schema(fields, name, i + 1)
    }
}

impl SchemaRecord {
    pub fn new(
        name: String,
        fingerprint: SchemaFingerprint,
        aliases: Vec<String>,
        fields: Vec<SchemaRecordField>,
        markup: SchemaDefRecordMarkup,
    ) -> (r: Self)
        requires
            field_names_unique(fields@),
        ensures
            r.inner.name == name,
            r.inner.fingerprint == fingerprint,
            r.inner.aliases == aliases,
            r.inner.fields@.to_multiset() == fields@.to_multiset(),
            fields_sorted(r.inner.fields@),
            r.inner.markup == markup,
    {
        let sorted = sort_fields_by_name(fields);
        SchemaRecord { inner: Arc::new(SchemaRecordInner { name, fingerprint, aliases, fields: sorted, markup }) }
    }

    /// A copy of this record that shares its contents.
    pub fn duplicate(&self) -> (r: Self)
        ensures r == *self,
    {
        SchemaRecord { inner: self.inner.clone() }
    }

    pub fn name(&self) -> (r: &str)
        ensures r@ == self.inner.name@,
    {
        self.inner.name.as_str()
    }

    pub fn fingerprint(&self) -> (r: SchemaFingerprint)
        ensures r == self.inner.fingerprint,
    {
        self.inner.fingerprint
    }

    pub fn aliases(&self) -> (r: &[String])
        ensures r@ == self.inner.aliases@,
    {
        self.inner.aliases.as_slice()
    }

    pub fn fields(&self) -> (r: &[SchemaRecordField])
        ensures r@ == self.inner.fields@,
    {
        self.inner.fields.as_slice()
    }

    pub fn markup(&self) -> (r: &SchemaDefRecordMarkup)
        ensures *r == self.inner.markup,
    {
        &self.inner.markup
    }

    /// The schema of the field called `field_name`, if there is one.
    pub fn field_schema<'a>(&'a self, field_name: &str) -> (r: Option<&'a Schema>)
        ensures
            deref_opt(r) == record_field_schema(self.inner.fields@, field_name@, 0),
    {
        let fields = &self.inner.fields;
        let mut i: usize = 0;
        while i < fields.len()
            invariant
                0 <= i <= fields@.len(),
                fields@ == self.inner.fields@,
                record_field_schema(fields@, field_name@, 0) == record_field_schema(fields@, field_name@, i as int),
            decreases fields@.len() - i,
        {
            if str_eq(fields[i].name.as_str(), field_name) {
                assert(fields@[i as int].name@ == field_name@);
                return Some(&fields[i].field_schema);
            }
            i = i + 1;
        }
        None
    }

    /// The schema at a dotted property path below this record.
    pub fn find_property_schema<'a>(&'a self, path: &str, named_types: &'a SchemaSet) -> (r: Option<&'a Schema>)
        ensures
            deref_opt(r) == crate::schema_set::path_schema(
                Schema::NamedType(self.inner.fingerprint), path@, named_types.named_types@),
    {
        named_types.find_property_schema_at(self.inner.fingerprint, path)
    }
}

} // verus!
