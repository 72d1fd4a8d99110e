use vstd::prelude::*;
use std::sync::Arc;
use crate::ids::SchemaFingerprint;
use crate::error::{DataSetError, DataSetResult};
use crate::path::{split_path, split_dots, segs_view};
use crate::schema::{Schema, SchemaRecord, child_schema, str_eq, deref_opt};
use crate::value::{Value, ValueEnum};

verus! {

/// One symbol of an enum: its name, other names, and its number.
#[derive(Debug)]
pub struct SchemaEnumSymbol {
    pub name: String,
    pub aliases: Vec<String>,
    pub value: i32,
}

impl SchemaEnumSymbol {
    pub fn new(name: String, aliases: Vec<String>, value: i32) -> (r: Self)
        ensures
            r.name == name,
            r.aliases == aliases,
            r.value == value,
    {
        SchemaEnumSymbol { name, aliases, value }
    }

    pub fn name(&self) -> (r: &str)
        ensures r@ == self.name@,
    {
        self.name.as_str()
    }

    pub fn aliases(&self) -> (r: &[String])
        ensures r@ == self.aliases@,
    {
        self.aliases.as_slice()
    }

    pub fn value(&self) -> (r: i32)
        ensures r == self.value,
    {
        self.value
    }
}

/// What an enum type holds; shared between clones.
#[derive(Debug)]
pub struct SchemaEnumInner {
    pub name: String,
    pub fingerprint: SchemaFingerprint,
    pub aliases: Vec<String>,
    pub symbols: Vec<SchemaEnumSymbol>,
}

/// A named enum type whose symbols are ordered by strictly increasing number.
#[derive(Clone, Debug)]
pub struct SchemaEnum {
    pub inner: Arc<SchemaEnumInner>,
}

/// Symbols are sorted by number and their names are distinct.
pub open spec fn enum_symbols_valid(symbols: Seq<SchemaEnumSymbol>) -> bool {
    &&& forall|i: int| 0 <= i < symbols.len() - 1 ==> #[trigger] symbols[i].value < symbols[i + 1].value
    &&& forall|i: int, j: int| 0 <= i < symbols.len() && 0 <= j < symbols.len() && i != j
        ==> #[trigger] symbols[i].name@ != #[trigger] symbols[j].name@
}

/// True when `name` is the symbol's name or one of its aliases.
pub open spec fn symbol_answers_to(sym: SchemaEnumSymbol, name: Seq<char>) -> bool {
    sym.name@ == name || exists|j: int| 0 <= j < sym.aliases@.len() && #[trigger] sym.aliases@[j]@ == name
}

/// True when `name` is the name or an alias of some symbol.
pub open spec fn enum_knows(symbols: Seq<SchemaEnumSymbol>, name: Seq<char>) -> bool {
    exists|i: int| 0 <= i < symbols.len() && #[trigger] symbol_answers_to(symbols[i], name)
}

impl SchemaEnum {
    pub fn new(
        name: String,
        fingerprint: SchemaFingerprint,
        aliases: Vec<String>,
        symbols: Vec<SchemaEnumSymbol>,
    ) -> (r: Self)
        requires
            symbols@.len() > 0,
            enum_symbols_valid(symbols@),
        ensures
            r.inner.name == name,
            r.inner.fingerprint == fingerprint,
            r.inner.aliases == aliases,
            r.inner.symbols == symbols,
    {
        SchemaEnum { inner: Arc::new(SchemaEnumInner { name, fingerprint, aliases, symbols }) }
    }

    pub fn name(&self) -> (r: &str)
        ensures r@ == self.inner.name@,
    {
        self.inner.name.as_str()
    }

    pub fn aliases(&self) -> (r: &[String])
        ensures r@ == self.inner.aliases@,
    {
        self.inner.aliases.as_slice()
    }

    pub fn symbols(&self) -> (r: &[SchemaEnumSymbol])
        ensures r@ == self.inner.symbols@,
    {
        self.inner.symbols.as_slice()
    }

    pub fn fingerprint(&self) -> (r: SchemaFingerprint)
        ensures r == self.inner.fingerprint,
    {
        self.inner.fingerprint
    }

    /// The enum value named `name`, when `name` is a symbol's name or alias.
    pub fn value_from_string(&self, name: &str) -> (r: Option<Value>)
        ensures
            r is Some <==> enum_knows(self.inner.symbols@, name@),
            r matches Some(v) ==> v == Value::Enum(ValueEnum { symbol_name: v->Enum_0.symbol_name })
                && v->Enum_0.symbol_name@ == name@,
    {
        let symbols = &self.inner.symbols;
        let mut i: usize = 0;
        while i < symbols.len()
            invariant
                0 <= i <= symbols@.len(),
                symbols@ == self.inner.symbols@,
                forall|k: int| 0 <= k < i ==> !#[trigger] symbol_answers_to(symbols@[k], name@),
            decreases symbols@.len() - i,
        {
            let sym = &symbols[i];
            if str_eq(sym.name.as_str(), name) {
                assert(symbol_answers_to(symbols@[i as int], name@));
                return Some(Value::Enum(ValueEnum::new(String::from_str(name))));
            }
            let mut j: usize = 0;
            while j < sym.aliases.len()
                invariant
                    0 <= j <= sym.aliases@.len(),
                    i < symbols@.len(),
                    *sym == symbols@[i as int],
                    symbols@ == self.inner.symbols@,
                    sym.name@ != name@,
                    forall|m: int| 0 <= m < j ==> #[trigger] sym.aliases@[m]@ != name@,
                decreases sym.aliases@.len() - j,
            {
                if str_eq(sym.aliases[j].as_str(), name) {
                    assert(sym.aliases@[j as int]@ == name@);
                    assert(symbol_answers_to(symbols@[i as int], name@));
                    return Some(Value::Enum(ValueEnum::new(String::from_str(name))));
                }
                j = j + 1;
            }
            assert(!symbol_answers_to(*sym, name@));
            i = i + 1;
        }
        None
    }
}

/// A named fixed-size byte blob type.
#[derive(Clone, Debug)]
pub struct SchemaFixed {
    pub name: String,
    pub fingerprint: SchemaFingerprint,
    pub length: usize,
}

impl SchemaFixed {
    pub fn fingerprint(&self) -> (r: SchemaFingerprint)
        ensures r == self.fingerprint,
    {
        self.fingerprint
    }
}

/// A type of the schema set that has a name and a fingerprint.
#[derive(Clone, Debug)]
pub enum SchemaNamedType {
    Record(SchemaRecord),
    Enum(SchemaEnum),
    Fixed(SchemaFixed),
}

impl SchemaNamedType {
    pub open spec fn fingerprint_of(&self) -> SchemaFingerprint {
        match self {
            SchemaNamedType::Record(x) => x.inner.fingerprint,
            SchemaNamedType::Enum(x) => x.inner.fingerprint,
            SchemaNamedType::Fixed(x) => x.fingerprint,
        }
    }

    pub open spec fn name_of(&self) -> Seq<char> {
        match self {
            SchemaNamedType::Record(x) => x.inner.name@,
            SchemaNamedType::Enum(x) => x.inner.name@,
            SchemaNamedType::Fixed(x) => x.name@,
        }
    }

    pub fn fingerprint(&self) -> (r: SchemaFingerprint)
        ensures r == self.fingerprint_of(),
    {
        match self {
            SchemaNamedType::Record(x) => x.fingerprint(),
            SchemaNamedType::Enum(x) => x.fingerprint(),
            SchemaNamedType::Fixed(x) => x.fingerprint(),
        }
    }

    pub fn name(&self) -> (r: &str)
        ensures r@ == self.name_of(),
    {
        match self {
            SchemaNamedType::Record(x) => x.name(),
            SchemaNamedType::Enum(x) => x.name(),
            SchemaNamedType::Fixed(x) => x.name.as_str(),
        }
    }

    pub fn as_record(&self) -> (r: Option<&SchemaRecord>)
        ensures
            self is Record <==> r is Some,
            r matches Some(x) ==> self == &SchemaNamedType::Record(*x),
    {
        match self {
            SchemaNamedType::Record(x) => Some(x),
            _ => None,
        }
    }

    pub fn as_enum(&self) -> (r: Option<&SchemaEnum>)
        ensures
            self is Enum <==> r is Some,
            r matches Some(x) ==> self == &SchemaNamedType::Enum(*x),
    {
        match self {
            SchemaNamedType::Enum(x) => Some(x),
            _ => None,
        }
    }

    pub fn as_fixed(&self) -> (r: Option<&SchemaFixed>)
        ensures
            self is Fixed <==> r is Some,
            r matches Some(x) ==> self == &SchemaNamedType::Fixed(*x),
    {
        match self {
            SchemaNamedType::Fixed(x) => Some(x),
            _ => None,
        }
    }
}

/// The first named type at or after index `i` with fingerprint `fp`.
pub open spec fn find_named_from(types: Seq<SchemaNamedType>, fp: SchemaFingerprint, i: int) -> Option<SchemaNamedType>
    decreases types.len() - i,
{
    if i < 0 || i >= types.len() {
        None
    } else if types[i].fingerprint_of() == fp {
        Some(types[i])
    } else {
        find_named_from(types, fp, i + 1)
    }
}

/// The first named type at or after index `i` called `name`.
pub open spec fn find_name_from(types: Seq<SchemaNamedType>, name: Seq<char>, i: int) -> Option<SchemaNamedType>
    decreases types.len() - i,
{
    if i < 0 || i >= types.len() {
        None
    } else if types[i].name_of() == name {
        Some(types[i])
    } else {
        find_name_from(types, name, i + 1)
    }
}

/// The schema reached from `start` after the first `k` segments, if every step exists.
pub open spec fn schema_at(start: Schema, segs: Seq<Seq<char>>, types: Seq<SchemaNamedType>, k: int) -> Option<Schema>
    decreases k,
{
    if k <= 0 {
        Some(start)
    } else {
        match schema_at(start, segs, types, k - 1) {
            Some(s) => child_schema(s, segs[k - 1], types),
            None => None,
        }
    }
}

/// The schema at the end of the dotted path `p`, starting from `start`.
pub open spec fn path_schema(start: Schema, p: Seq<char>, types: Seq<SchemaNamedType>) -> Option<Schema> {
    schema_at(start, split_dots(p), types, split_dots(p).len() as int)
}

/// Registry of named types. Immutable once built.
#[derive(Clone, Debug)]
pub struct SchemaSet {
    pub named_types: Arc<Vec<SchemaNamedType>>,
}

impl SchemaSet {
    pub fn new(named_types: Vec<SchemaNamedType>) -> (r: Self)
        ensures r.named_types@ == named_types@,
    {
        SchemaSet { named_types: Arc::new(named_types) }
    }

    /// A copy that shares the named types.
    pub fn duplicate(&self) -> (r: Self)
        ensures r == *self,
    {
        SchemaSet { named_types: self.named_types.clone() }
    }

    /// The named type with fingerprint `fp`.
    pub fn find_by_fingerprint(&self, fp: SchemaFingerprint) -> (r: Option<&SchemaNamedType>)
        ensures
            deref_opt(r) == find_named_from(self.named_types@, fp, 0),
    {
        let types = &*self.named_types;
        let mut i: usize = 0;
        while i < types.len()
            invariant
                0 <= i <= types@.len(),
                find_named_from(types@, fp, 0) == find_named_from(types@, fp, i as int),
                types@ == self.named_types@,
            decreases types@.len() - i,
        {
            if types[i].fingerprint() == fp {
                return Some(&types[i]);
            }
            i = i + 1;
        }
        None
    }

    /// The named type called `name`.
    pub fn find_named_type(&self, name: &str) -> (r: DataSetResult<&SchemaNamedType>)
        ensures
            r matches Ok(t) ==> find_name_from(self.named_types@, name@, 0) == Some(*t),
            r is Err <==> find_name_from(self.named_types@, name@, 0) is None,
            r matches Err(e) ==> e == DataSetError::UnknownType,
    {
        let types = &*self.named_types;
        let mut i: usize = 0;
        while i < types.len()
            invariant
                0 <= i <= types@.len(),
                types@ == self.named_types@,
                find_name_from(types@, name@, 0) == find_name_from(types@, name@, i as int),
            decreases types@.len() - i,
        {
            if str_eq(types[i].name(), name) {
                assert(types@[i as int].name_of() == name@);
                return Ok(&types[i]);
            }
            i = i + 1;
        }
        Err(DataSetError::UnknownType)
    }

    /// Walks the segments `segs` from the record with fingerprint `fp`.
    pub fn walk_segments<'a>(&'a self, fp: SchemaFingerprint, segs: &[String]) -> (r: Option<&'a Schema>)
        requires
            segs@.len() >= 1,
        ensures
            deref_opt(r) == schema_at(Schema::NamedType(fp), segs_view(segs@), self.named_types@, segs@.len() as int),
    {
        let ghost sv = segs_view(segs@);
        let ghost types = self.named_types@;
        assert(schema_at(Schema::NamedType(fp), sv, types, 0) == Some(Schema::NamedType(fp)));
        let first = match self.find_by_fingerprint(fp) {
            Some(SchemaNamedType::Record(rec)) => rec.field_schema(segs[0].as_str()),
            _ => None,
        };
        assert(deref_opt(first) == schema_at(Schema::NamedType(fp), sv, types, 1));
        let mut cur = first;
        let mut k: usize = 1;
        while k < segs.len()
            invariant
                1 <= k <= segs@.len(),
                sv == segs_view(segs@),
                types == self.named_types@,
                deref_opt(cur) == schema_at(Schema::NamedType(fp), sv, types, k as int),
            decreases segs@.len() - k,
        {
            match cur {
                Some(s) => {
                    cur = s.find_property_schema(segs[k].as_str(), self);
                },
                None => {},
            }
            k = k + 1;
        }
        cur
    }

    /// The schema at the dotted `path` below the record with fingerprint `fp`.
    pub fn find_property_schema_at<'a>(&'a self, fp: SchemaFingerprint, path: &str) -> (r: Option<&'a Schema>)
        ensures
            deref_opt(r) == path_schema(Schema::NamedType(fp), path@, self.named_types@),
    {
        let segs = split_path(path);
        proof {
            assert(segs_view(segs@).len() == segs@.len());
            crate::path::lemma_split_dots_nonempty(path@);
        }
        self.walk_segments(fp, segs.as_slice())
    }
}

} // verus!
