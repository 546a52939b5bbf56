//! Type descriptors, the table of built-in types, and the per-connection
//! type cache.
use vstd::prelude::*;
use vstd::string::*;
use std::collections::HashMap;
use std::sync::Arc;
use crate::Oid;

verus! {

/// What kind of type a descriptor names.
#[derive(Debug, Clone)]
pub enum Kind {
    /// A base type.
    Simple,
    /// A pseudo-type such as `void` or `record`.
    Pseudo,
    /// An enum, with its labels in sort order.
    Enum(Vec<String>),
    /// An array of the element type.
    Array(Type),
    /// A domain over the base type.
    Domain(Type),
    /// A range over the subtype.
    Range(Type),
    /// A composite type, with its fields in column order.
    Composite(Vec<Field>),
}

/// A field of a composite type.
#[derive(Debug, Clone)]
pub struct Field {
    pub name: String,
    pub type_: Type,
}

/// What a type descriptor holds.
#[derive(Debug)]
pub struct TypeInner {
    pub name: String,
    pub oid: Oid,
    pub kind: Kind,
    pub schema: String,
}

/// A shared, immutable type descriptor.
#[derive(Debug, Clone)]
pub struct Type {
    pub inner: Arc<TypeInner>,
}

impl Type {
    pub open spec fn spec_oid(&self) -> Oid {
        self.inner.oid
    }

    pub fn new(name: String, oid: Oid, kind: Kind, schema: String) -> (r: Type)
        ensures
            r.inner.name == name,
            r.inner.oid == oid,
            r.inner.kind == kind,
            r.inner.schema == schema,
    {
        Type { inner: Arc::new(TypeInner { name, oid, kind, schema }) }
    }

    /// Another handle to the same descriptor.
    pub fn share(&self) -> (r: Type)
        ensures
            r == *self,
    {
        Type { inner: Arc::clone(&self.inner) }
    }

    pub fn name(&self) -> (r: &str)
        ensures
            r@ == self.inner.name@,
    {
        self.inner.name.as_str()
    }

    pub fn oid(&self) -> (r: Oid)
        ensures
            r == self.inner.oid,
    {
        self.inner.oid
    }

    pub fn kind(&self) -> (r: &Kind)
        ensures
            *r == self.inner.kind,
    {
        &self.inner.kind
    }

    pub fn schema(&self) -> (r: &str)
        ensures
            r@ == self.inner.schema@,
    {
        self.inner.schema.as_str()
    }
}

/// The built-in types that need no catalog query: their name, and whether
/// they are pseudo-types.
pub open spec fn builtin(oid: Oid) -> Option<(Seq<char>, bool)> {
    if oid == 16 { Some(("bool"@, false)) }
    else if oid == 17 { Some(("bytea"@, false)) }
    else if oid == 18 { Some(("char"@, false)) }
    else if oid == 19 { Some(("name"@, false)) }
    else if oid == 20 { Some(("int8"@, false)) }
    else if oid == 21 { Some(("int2"@, false)) }
    else if oid == 23 { Some(("int4"@, false)) }
    else if oid == 25 { Some(("text"@, false)) }
    else if oid == 26 { Some(("oid"@, false)) }
    else if oid == 114 { Some(("json"@, false)) }
    else if oid == 700 { Some(("float4"@, false)) }
    else if oid == 701 { Some(("float8"@, false)) }
    else if oid == 1043 { Some(("varchar"@, false)) }
    else if oid == 1082 { Some(("date"@, false)) }
    else if oid == 1114 { Some(("timestamp"@, false)) }
    else if oid == 1184 { Some(("timestamptz"@, false)) }
    else if oid == 1700 { Some(("numeric"@, false)) }
    else if oid == 2950 { Some(("uuid"@, false)) }
    else if oid == 3802 { Some(("jsonb"@, false)) }
    else if oid == 2249 { Some(("record"@, true)) }
    else if oid == 2278 { Some(("void"@, true)) }
    else { None }
}

/// Whether `t` is the descriptor of the built-in type `oid`.
pub open spec fn is_builtin_type(t: Type, oid: Oid) -> bool {
    &&& builtin(oid) matches Some((name, pseudo))
    &&& t.inner.oid == oid
    &&& t.inner.name@ == name
    &&& t.inner.schema@ == "pg_catalog"@
    &&& t.inner.kind == (if pseudo { Kind::Pseudo } else { Kind::Simple })
}

fn builtin_entry(oid: Oid) -> (r: Option<(&'static str, bool)>)
    ensures
        match (r, builtin(oid)) {
            (Some((n, p)), Some((sn, sp))) => n@ == sn && p == sp,
            (None, None) => true,
            _ => false,
        },
{
    match oid {
        16 => Some(("bool", false)),
        17 => Some(("bytea", false)),
        18 => Some(("char", false)),
        19 => Some(("name", false)),
        20 => Some(("int8", false)),
        21 => Some(("int2", false)),
        23 => Some(("int4", false)),
        25 => Some(("text", false)),
        26 => Some(("oid", false)),
        114 => Some(("json", false)),
        700 => Some(("float4", false)),
        701 => Some(("float8", false)),
        1043 => Some(("varchar", false)),
        1082 => Some(("date", false)),
        1114 => Some(("timestamp", false)),
        1184 => Some(("timestamptz", false)),
        1700 => Some(("numeric", false)),
        2950 => Some(("uuid", false)),
        3802 => Some(("jsonb", false)),
        2249 => Some(("record", true)),
        2278 => Some(("void", true)),
        _ => None,
    }
}

/// The descriptor of a built-in type, or `None` where `oid` is not one.
pub fn from_oid(oid: Oid) -> (r: Option<Type>)
    ensures
        r is Some <==> builtin(oid) is Some,
        r matches Some(t) ==> is_builtin_type(t, oid),
{
    match builtin_entry(oid) {
        Some((name, pseudo)) => {
            let kind = if pseudo { Kind::Pseudo } else { Kind::Simple };
            Some(Type::new(String::from_str(name), oid, kind, String::from_str("pg_catalog")))
        },
        None => None,
    }
}

/// The per-connection cache of resolved types, keyed by OID. An entry, once
/// written, is never replaced.
pub struct TypeCache {
    map: HashMap<Oid, Type>,
}

impl TypeCache {
    /// What the cache holds for `oid`.
    pub closed spec fn lookup(&self, oid: Oid) -> Option<Type> {
        if self.map@.contains_key(oid) {
            Some(self.map@[oid])
        } else {
            None
        }
    }

    pub fn new() -> (r: TypeCache)
        ensures
            forall|o: Oid| r.lookup(o) is None,
    {
        TypeCache { map: HashMap::new() }
    }

    /// The cached descriptor for `oid`.
    pub fn get(&self, oid: Oid) -> (r: Option<Type>)
        ensures
            r == self.lookup(oid),
    {
        broadcast use vstd::std_specs::hash::group_hash_axioms;

        match self.map.get(&oid) {
            Some(t) => Some(t.share()),
            None => None,
        }
    }

    /// Records `ty` under its OID unless that OID is already cached.
    pub fn insert(&mut self, ty: Type)
        ensures
            final(self).lookup(ty.spec_oid()) == (match old(self).lookup(ty.spec_oid()) {
                Some(t) => Some(t),
                None => Some(ty),
            }),
            forall|o: Oid| o != ty.spec_oid() ==> #[trigger] final(self).lookup(o) == old(self).lookup(o),
    {
        broadcast use vstd::std_specs::hash::group_hash_axioms;

        let oid = ty.oid();
        if !self.map.contains_key(&oid) {
            self.map.insert(oid, ty);
        }
    }
}

} // verus!
