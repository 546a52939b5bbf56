//! Resolving a type OID into a descriptor: built-in table, then the
//! connection's cache, then the catalog, recursing into the types that a
//! domain, array, range or composite is made of.
use vstd::prelude::*;
use crate::client::Client;
use crate::error::{error_has_code, has_code, Error, UNDEFINED_TABLE};
use crate::row::{
    char_field, get_char, get_oid, get_opt_oid, get_text, oid_field, opt_oid_field, text_field,
};
use crate::simple_query::Row;
use crate::statement::Statement;
use crate::types::{builtin, from_oid, is_builtin_type, Field, Kind, Type};
use crate::Oid;

verus! {

/// The catalog query that describes a type.
pub const TYPEINFO_QUERY: &'static str = "
SELECT t.typname, t.typtype, t.typelem, r.rngsubtype, t.typbasetype, n.nspname, t.typrelid
FROM pg_catalog.pg_type t
LEFT OUTER JOIN pg_catalog.pg_range r ON r.rngtypid = t.oid
INNER JOIN pg_catalog.pg_namespace n ON t.typnamespace = n.oid
WHERE t.oid = $1
";

/// The same query for servers that predate range types, and so `pg_range`.
pub const TYPEINFO_FALLBACK_QUERY: &'static str = "
SELECT t.typname, t.typtype, t.typelem, NULL::OID, t.typbasetype, n.nspname, t.typrelid
FROM pg_catalog.pg_type t
INNER JOIN pg_catalog.pg_namespace n ON t.typnamespace = n.oid
WHERE t.oid = $1
";

/// The row that the catalog query returns for a type.
pub struct TypeinfoRow {
    pub name: String,
    pub typtype: i8,
    pub elem: Oid,
    pub rngsubtype: Option<Oid>,
    pub basetype: Oid,
    pub schema: String,
    pub relid: Oid,
}

/// The first field of a catalog row that fails to read, if one does.
pub open spec fn typeinfo_row_error(row: Seq<Option<Vec<u8>>>) -> Option<Error> {
    if text_field(row, 0) is Err {
        Some(text_field(row, 0)->Err_0)
    } else if char_field(row, 1) is Err {
        Some(char_field(row, 1)->Err_0)
    } else if oid_field(row, 2) is Err {
        Some(oid_field(row, 2)->Err_0)
    } else if opt_oid_field(row, 3) is Err {
        Some(opt_oid_field(row, 3)->Err_0)
    } else if oid_field(row, 4) is Err {
        Some(oid_field(row, 4)->Err_0)
    } else if text_field(row, 5) is Err {
        Some(text_field(row, 5)->Err_0)
    } else if oid_field(row, 6) is Err {
        Some(oid_field(row, 6)->Err_0)
    } else {
        None
    }
}

/// Whether `t` holds what the fields of `row` read as.
pub open spec fn typeinfo_row_of(row: Seq<Option<Vec<u8>>>, t: TypeinfoRow) -> bool {
    &&& text_field(row, 0) == Result::<Seq<char>, Error>::Ok(t.name@)
    &&& char_field(row, 1) == Result::<i8, Error>::Ok(t.typtype)
    &&& oid_field(row, 2) == Result::<Oid, Error>::Ok(t.elem)
    &&& opt_oid_field(row, 3) == Result::<Option<Oid>, Error>::Ok(t.rngsubtype)
    &&& oid_field(row, 4) == Result::<Oid, Error>::Ok(t.basetype)
    &&& text_field(row, 5) == Result::<Seq<char>, Error>::Ok(t.schema@)
    &&& oid_field(row, 6) == Result::<Oid, Error>::Ok(t.relid)
}

/// Reads a row of the catalog query.
pub fn decode_typeinfo_row(row: &Row) -> (r: Result<TypeinfoRow, Error>)
    ensures
        match typeinfo_row_error(row@) {
            Some(e) => r == Result::<TypeinfoRow, Error>::Err(e),
            None => r matches Ok(t) && typeinfo_row_of(row@, t),
        },
{
    let name = match get_text(row, 0) {
        Ok(v) => v,
        Err(e) => return Err(e),
    };
    let typtype = match get_char(row, 1) {
        Ok(v) => v,
        Err(e) => return Err(e),
    };
    let elem = match get_oid(row, 2) {
        Ok(v) => v,
        Err(e) => return Err(e),
    };
    let rngsubtype = match get_opt_oid(row, 3) {
        Ok(v) => v,
        Err(e) => return Err(e),
    };
    let basetype = match get_oid(row, 4) {
        Ok(v) => v,
        Err(e) => return Err(e),
    };
    let schema = match get_text(row, 5) {
        Ok(v) => v,
        Err(e) => return Err(e),
    };
    let relid = match get_oid(row, 6) {
        Ok(v) => v,
        Err(e) => return Err(e),
    };
    Ok(TypeinfoRow { name, typtype, elem, rngsubtype, basetype, schema, relid })
}

/// What a catalog row says a type is made of.
#[derive(Debug, Clone, Copy, PartialEq, Eq, Structural)]
pub enum Resolution {
    /// An enum: its labels are fetched next.
    Enum,
    Pseudo,
    /// A domain over this base type.
    Domain(Oid),
    /// An array of this element type.
    Array(Oid),
    /// A composite type whose fields are the columns of this relation.
    Composite(Oid),
    /// A range over this subtype.
    Range(Oid),
    Simple,
}

/// How a catalog row is classified, the first rule that applies winning:
/// `typtype` `e` is an enum and `p` a pseudo-type; then a base type makes a
/// domain, an element type an array, a relation a composite, a range subtype
/// a range; anything else is simple.
pub open spec fn classify(typtype: i8, elem: Oid, rngsubtype: Option<Oid>, basetype: Oid, relid: Oid) -> Resolution {
    if typtype == 0x65 {
        Resolution::Enum
    } else if typtype == 0x70 {
        Resolution::Pseudo
    } else if basetype != 0 {
        Resolution::Domain(basetype)
    } else if elem != 0 {
        Resolution::Array(elem)
    } else if relid != 0 {
        Resolution::Composite(relid)
    } else if rngsubtype is Some {
        Resolution::Range(rngsubtype->Some_0)
    } else {
        Resolution::Simple
    }
}

/// Classifies a catalog row.
pub fn classify_row(t: &TypeinfoRow) -> (r: Resolution)
    ensures
        r == classify(t.typtype, t.elem, t.rngsubtype, t.basetype, t.relid),
{
    if t.typtype == 0x65 {
        Resolution::Enum
    } else if t.typtype == 0x70 {
        Resolution::Pseudo
    } else if t.basetype != 0 {
        Resolution::Domain(t.basetype)
    } else if t.elem != 0 {
        Resolution::Array(t.elem)
    } else if t.relid != 0 {
        Resolution::Composite(t.relid)
    } else {
        match t.rngsubtype {
            Some(s) => Resolution::Range(s),
            None => Resolution::Simple,
        }
    }
}

/// The states of a type resolution.
pub enum Typeinfo {
    Start { oid: Oid },
    /// The catalog query (or, with `fallback`, its older form) is being prepared.
    PreparingTypeinfo { oid: Oid, fallback: bool },
    /// The catalog query runs.
    QueryingTypeinfo { oid: Oid },
    /// The type is known but for what it is made of, which is being resolved.
    Resolving { oid: Oid, name: String, schema: String, waiting: Resolution },
    Done,
}

/// What the caller does next for a type resolution.
pub enum TypeinfoStep {
    /// The type is resolved.
    Finished(Type),
    /// Prepare this catalog query and hand the outcome to `prepared`.
    Prepare(&'static str),
    /// Run the statement with `$1` the OID and hand the rows to `rows`.
    Query(Statement, Oid),
    /// Fetch the labels of this enum and hand them to `enum_resolved`.
    ResolveEnum(Oid),
    /// Resolve this OID and hand the type to `type_resolved`.
    Resolve(Oid),
    /// Resolve the fields of this relation and hand them to `composite_resolved`.
    ResolveComposite(Oid),
}

/// Whether `t` is a fresh descriptor with these parts.
pub open spec fn described(t: Type, oid: Oid, name: Seq<char>, schema: Seq<char>, kind: Kind) -> bool {
    &&& t.inner.oid == oid
    &&& t.inner.name@ == name
    &&& t.inner.schema@ == schema
    &&& t.inner.kind == kind
}

/// Whether `c2` differs from `c1` at most in that `t` is now cached under
/// `oid` (or was already).
pub open spec fn cached_after(c1: Client, c2: Client, oid: Oid, t: Type) -> bool {
    &&& c2.types.lookup(oid) == Some(t)
    &&& c1.types.lookup(oid) matches Some(old_t) ==> old_t == t
    &&& forall|o: Oid| o != oid ==> #[trigger] c2.types.lookup(o) == c1.types.lookup(o)
    &&& c2.typeinfo == c1.typeinfo
    &&& c2.typeinfo_enum == c1.typeinfo_enum
    &&& c2.typeinfo_composite == c1.typeinfo_composite
    &&& c2.closed == c1.closed
}

/// What `start` does for `oid`: built-in types and cached types are
/// answered at once, without a catalog query.
pub open spec fn start_step(c: Client, oid: Oid, r: TypeinfoStep) -> bool {
    if builtin(oid) is Some {
        r matches TypeinfoStep::Finished(t) && is_builtin_type(t, oid)
    } else if c.types.lookup(oid) is Some {
        r == TypeinfoStep::Finished(c.types.lookup(oid)->Some_0)
    } else if c.typeinfo is Some {
        r == TypeinfoStep::Query(c.typeinfo->Some_0, oid)
    } else {
        r matches TypeinfoStep::Prepare(q) && q@ == TYPEINFO_QUERY@
    }
}

/// What the fields of a well-formed catalog row say the type is made of.
pub open spec fn row_resolution(row: Seq<Option<Vec<u8>>>) -> Resolution {
    classify(
        char_field(row, 1)->Ok_0,
        oid_field(row, 2)->Ok_0,
        opt_oid_field(row, 3)->Ok_0,
        oid_field(row, 4)->Ok_0,
        oid_field(row, 6)->Ok_0,
    )
}

/// The step that asks for what a type of resolution `res` is made of.
pub open spec fn nested_step(res: Resolution, oid: Oid) -> TypeinfoStep {
    match res {
        Resolution::Enum => TypeinfoStep::ResolveEnum(oid),
        Resolution::Domain(b) => TypeinfoStep::Resolve(b),
        Resolution::Array(e) => TypeinfoStep::Resolve(e),
        Resolution::Range(s) => TypeinfoStep::Resolve(s),
        Resolution::Composite(r) => TypeinfoStep::ResolveComposite(r),
        _ => TypeinfoStep::ResolveEnum(oid),
    }
}

/// Whether a resolution ended with `t` for a type with these parts, the
/// cache going from `c1` to `c2`: an entry cached earlier wins, and the
/// outcome is cached.
pub open spec fn finished_with(
    c1: Client,
    c2: Client,
    oid: Oid,
    name: Seq<char>,
    schema: Seq<char>,
    kind: Kind,
    t: Type,
) -> bool {
    &&& match c1.types.lookup(oid) {
        Some(ct) => t == ct,
        None => described(t, oid, name, schema, kind),
    }
    &&& cached_after(c1, c2, oid, t)
}

/// The kind of a type whose resolution waited on `waiting`, once the type it
/// is made of is `inner`.
pub open spec fn kind_over(waiting: Resolution, inner: Type) -> Kind {
    match waiting {
        Resolution::Domain(_) => Kind::Domain(inner),
        Resolution::Array(_) => Kind::Array(inner),
        _ => Kind::Range(inner),
    }
}

/// A resolution of one type OID, driven by the outcomes of the catalog
/// queries and nested resolutions it asks for. A failure of a nested
/// resolution is the failure of this one.
pub struct TypeinfoFuture {
    pub state: Typeinfo,
}

impl TypeinfoFuture {
    pub fn new(oid: Oid) -> (r: TypeinfoFuture)
        ensures
            r.state == (Typeinfo::Start { oid }),
    {
        TypeinfoFuture { state: Typeinfo::Start { oid } }
    }

    pub fn start(&mut self, client: &Client) -> (r: TypeinfoStep)
        requires
            old(self).state is Start,
        ensures
            start_step(*client, old(self).state->Start_oid, r),
            r is Finished ==> final(self).state is Done,
            r is Query ==> final(self).state == (Typeinfo::QueryingTypeinfo {
                oid: old(self).state->Start_oid,
            }),
            r is Prepare ==> final(self).state == (Typeinfo::PreparingTypeinfo {
                oid: old(self).state->Start_oid,
                fallback: false,
            }),
    {
        let oid = match &self.state {
            Typeinfo::Start { oid } => *oid,
            _ => 0,
        };
        if let Some(ty) = from_oid(oid) {
            self.state = Typeinfo::Done;
            return TypeinfoStep::Finished(ty);
        }
        if let Some(ty) = client.cached_type(oid) {
            self.state = Typeinfo::Done;
            return TypeinfoStep::Finished(ty);
        }
        match &client.typeinfo {
            Some(statement) => {
                self.state = Typeinfo::QueryingTypeinfo { oid };
                TypeinfoStep::Query(statement.share(), oid)
            },
            None => {
                self.state = Typeinfo::PreparingTypeinfo { oid, fallback: false };
                TypeinfoStep::Prepare(TYPEINFO_QUERY)
            },
        }
    }

    /// Takes the outcome of preparing the catalog query. A server without
    /// `pg_range` (SQLSTATE `42P01`) gets the older form of the query; the
    /// prepared statement is cached on the client.
    pub fn prepared(&mut self, client: &mut Client, prepared: Result<Statement, Error>) -> (r: Result<
        TypeinfoStep,
        Error,
    >)
        requires
            old(self).state is PreparingTypeinfo,
        ensures
            ({
                let oid = old(self).state->PreparingTypeinfo_oid;
                let fallback = old(self).state->fallback;
                match prepared {
                    Ok(s) => r == Result::<TypeinfoStep, Error>::Ok(TypeinfoStep::Query(s, oid))
                        && final(client).typeinfo == Some(s) && final(self).state == (
                        Typeinfo::QueryingTypeinfo { oid }),
                    Err(e) => if !fallback && has_code(e, UNDEFINED_TABLE@) {
                        (r matches Ok(TypeinfoStep::Prepare(q)) && q@ == TYPEINFO_FALLBACK_QUERY@)
                            && final(self).state == (Typeinfo::PreparingTypeinfo {
                            oid,
                            fallback: true,
                        }) && final(client).typeinfo == old(client).typeinfo
                    } else {
                        r == Result::<TypeinfoStep, Error>::Err(e) && final(self).state is Done
                            && final(client).typeinfo == old(client).typeinfo
                    },
                }
            }),
            final(client).types == old(client).types,
            final(client).closed == old(client).closed,
            final(client).typeinfo_enum == old(client).typeinfo_enum,
            final(client).typeinfo_composite == old(client).typeinfo_composite,
    {
        let (oid, fallback) = match &self.state {
            Typeinfo::PreparingTypeinfo { oid, fallback } => (*oid, *fallback),
            _ => (0, true),
        };
        match prepared {
            Ok(statement) => {
                client.typeinfo = Some(statement.share());
                self.state = Typeinfo::QueryingTypeinfo { oid };
                Ok(TypeinfoStep::Query(statement, oid))
            },
            Err(e) => {
                if !fallback && error_has_code(&e, UNDEFINED_TABLE) {
                    self.state = Typeinfo::PreparingTypeinfo { oid, fallback: true };
                    Ok(TypeinfoStep::Prepare(TYPEINFO_FALLBACK_QUERY))
                } else {
                    self.state = Typeinfo::Done;
                    Err(e)
                }
            },
        }
    }
    /// Records the type, or keeps the one cached earlier, and returns the
    /// cached descriptor.
    fn finish(&mut self, client: &mut Client, oid: Oid, name: String, schema: String, kind: Kind) -> (r: Type)
        ensures
            finished_with(*old(client), *final(client), oid, name@, schema@, kind, r),
            final(self).state is Done,
    {
        let ty = Type::new(name, oid, kind, schema);
        client.cache_type(ty.share());
        self.state = Typeinfo::Done;
        match client.cached_type(oid) {
            Some(t) => t,
            None => ty,
        }
    }

    /// Takes the rows of the catalog query: the first one describes the type.
    pub fn rows(&mut self, client: &mut Client, rows: Result<Vec<Row>, Error>) -> (r: Result<
        TypeinfoStep,
        Error,
    >)
        requires
            old(self).state is QueryingTypeinfo,
        ensures
            ({
                let oid = old(self).state->QueryingTypeinfo_oid;
                match rows {
                    Err(e) => r == Result::<TypeinfoStep, Error>::Err(e) && final(self).state is Done
                        && *final(client) == *old(client),
                    Ok(rs) => if rs@.len() == 0 {
                        r == Result::<TypeinfoStep, Error>::Err(Error::UnexpectedMessage) && final(self).state is Done && *final(client) == *old(client)
                    } else {
                        let row = rs@[0]@;
                        match typeinfo_row_error(row) {
                            Some(e) => r == Result::<TypeinfoStep, Error>::Err(e) && final(self).state is Done && *final(client) == *old(client),
                            None => {
                                let name = text_field(row, 0)->Ok_0;
                                let schema = text_field(row, 5)->Ok_0;
                                let res = row_resolution(row);
                                if res == Resolution::Pseudo || res == Resolution::Simple {
                                    let kind = if res == Resolution::Pseudo {
                                        Kind::Pseudo
                                    } else {
                                        Kind::Simple
                                    };
                                    (r matches Ok(TypeinfoStep::Finished(t)) && finished_with(
                                        *old(client),
                                        *final(client),
                                        oid,
                                        name,
                                        schema,
                                        kind,
                                        t,
                                    )) && final(self).state is Done
                                } else {
                                    r == Result::<TypeinfoStep, Error>::Ok(nested_step(res, oid))
                                        && *final(client) == *old(client) && (final(self).state matches Typeinfo::Resolving { oid: o, name: n, schema: sc, waiting }
                                        && o == oid && n@ == name && sc@ == schema && waiting
                                        == res)
                                }
                            },
                        }
                    },
                }
            }),
    {
        let oid = match &self.state {
            Typeinfo::QueryingTypeinfo { oid } => *oid,
            _ => 0,
        };
        let rows = match rows {
            Ok(rows) => rows,
            Err(e) => {
                self.state = Typeinfo::Done;
                return Err(e);
            },
        };
        if rows.len() == 0 {
            self.state = Typeinfo::Done;
            return Err(Error::UnexpectedMessage);
        }
        let info = match decode_typeinfo_row(&rows[0]) {
            Ok(info) => info,
            Err(e) => {
                self.state = Typeinfo::Done;
                return Err(e);
            },
        };
        let res = classify_row(&info);
        let TypeinfoRow { name, typtype: _, elem: _, rngsubtype: _, basetype: _, schema, relid: _ } =
            info;
        match res {
            Resolution::Pseudo => Ok(TypeinfoStep::Finished(self.finish(client, oid, name, schema, Kind::Pseudo))),
            Resolution::Simple => Ok(TypeinfoStep::Finished(self.finish(client, oid, name, schema, Kind::Simple))),
            Resolution::Enum => {
                self.state = Typeinfo::Resolving { oid, name, schema, waiting: res };
                Ok(TypeinfoStep::ResolveEnum(oid))
            },
            Resolution::Domain(b) => {
                self.state = Typeinfo::Resolving { oid, name, schema, waiting: res };
                Ok(TypeinfoStep::Resolve(b))
            },
            Resolution::Array(e) => {
                self.state = Typeinfo::Resolving { oid, name, schema, waiting: res };
                Ok(TypeinfoStep::Resolve(e))
            },
            Resolution::Range(sub) => {
                self.state = Typeinfo::Resolving { oid, name, schema, waiting: res };
                Ok(TypeinfoStep::Resolve(sub))
            },
            Resolution::Composite(rel) => {
                self.state = Typeinfo::Resolving { oid, name, schema, waiting: res };
                Ok(TypeinfoStep::ResolveComposite(rel))
            },
        }
    }

    /// Takes the labels of the enum being resolved.
    pub fn enum_resolved(&mut self, client: &mut Client, variants: Vec<String>) -> (r: Type)
        requires
            old(self).state matches Typeinfo::Resolving { waiting, .. } && waiting == Resolution::Enum,
        ensures
            finished_with(
                *old(client),
                *final(client),
                old(self).state->Resolving_oid,
                old(self).state->name@,
                old(self).state->schema@,
                Kind::Enum(variants),
                r,
            ),
            final(self).state is Done,
    {
        let mut st = Typeinfo::Done;
        std::mem::swap(&mut self.state, &mut st);
        match st {
            Typeinfo::Resolving { oid, name, schema, waiting: _ } => self.finish(
                client,
                oid,
                name,
                schema,
                Kind::Enum(variants),
            ),
            _ => Type::new(String::new(), 0, Kind::Simple, String::new()),
        }
    }

    /// Takes the type that the domain, array or range being resolved is
    /// made of.
    pub fn type_resolved(&mut self, client: &mut Client, inner: Type) -> (r: Type)
        requires
            old(self).state matches Typeinfo::Resolving { waiting, .. } && (waiting is Domain
                || waiting is Array || waiting is Range),
        ensures
            finished_with(
                *old(client),
                *final(client),
                old(self).state->Resolving_oid,
                old(self).state->name@,
                old(self).state->schema@,
                kind_over(old(self).state->waiting, inner),
                r,
            ),
            final(self).state is Done,
    {
        let mut st = Typeinfo::Done;
        std::mem::swap(&mut self.state, &mut st);
        match st {
            Typeinfo::Resolving { oid, name, schema, waiting } => {
                let kind = match waiting {
                    Resolution::Domain(_) => Kind::Domain(inner),
                    Resolution::Array(_) => Kind::Array(inner),
                    _ => Kind::Range(inner),
                };
                self.finish(client, oid, name, schema, kind)
            },
            _ => Type::new(String::new(), 0, Kind::Simple, String::new()),
        }
    }

    /// Takes the fields of the composite type being resolved.
    pub fn composite_resolved(&mut self, client: &mut Client, fields: Vec<Field>) -> (r: Type)
        requires
            old(self).state matches Typeinfo::Resolving { waiting, .. } && waiting is Composite,
        ensures
            finished_with(
                *old(client),
                *final(client),
                old(self).state->Resolving_oid,
                old(self).state->name@,
                old(self).state->schema@,
                Kind::Composite(fields),
                r,
            ),
            final(self).state is Done,
    {
        let mut st = Typeinfo::Done;
        std::mem::swap(&mut self.state, &mut st);
        match st {
            Typeinfo::Resolving { oid, name, schema, waiting: _ } => self.finish(
                client,
                oid,
                name,
                schema,
                Kind::Composite(fields),
            ),
            _ => Type::new(String::new(), 0, Kind::Simple, String::new()),
        }
    }
}

/// Whether `oid` is among the OIDs whose resolution is under way.
pub fn in_progress(resolving: &[Oid], oid: Oid) -> (r: bool)
    ensures
        r == resolving@.contains(oid),
{
    let mut i: usize = 0;
    while i < resolving.len()
        invariant
            i <= resolving@.len(),
            forall|j: int| 0 <= j < i ==> resolving@[j] != oid,
        decreases resolving@.len() - i,
    {
        if resolving[i] == oid {
            return true;
        }
        i = i + 1;
    }
    false
}

/// The descriptor given to an OID met again while it is being resolved,
/// which only a malformed catalog produces: a simple type known by its OID
/// alone, so that resolution ends instead of recursing for ever.
pub fn cycle_placeholder(oid: Oid) -> (r: Type)
    ensures
        described(r, oid, Seq::empty(), Seq::empty(), Kind::Simple),
{
    Type::new(String::new(), oid, Kind::Simple, String::new())
}

/// Whether every type cached in `a` is cached, unchanged, in `b`.
pub open spec fn cache_grows(a: Client, b: Client) -> bool {
    forall|o: Oid| #[trigger] a.types.lookup(o) is Some ==> b.types.lookup(o) == a.types.lookup(o)
}

/// A resolution that ends in one of its finishing steps leaves its type
/// cached, and keeps every type cached before.
pub proof fn lemma_finish_caches(
    c1: Client,
    c2: Client,
    oid: Oid,
    name: Seq<char>,
    schema: Seq<char>,
    kind: Kind,
    t: Type,
)
    requires
        finished_with(c1, c2, oid, name, schema, kind, t),
    ensures
        c2.types.lookup(oid) == Some(t),
        cache_grows(c1, c2),
{
}

/// A resolution that `start` answers from the cache answers with the
/// cached descriptor.
pub proof fn lemma_start_from_cache(c: Client, oid: Oid, t: Type)
    requires
        builtin(oid) is None,
        start_step(c, oid, TypeinfoStep::Finished(t)),
    ensures
        c.types.lookup(oid) == Some(t),
{
}

/// Once a resolution of `oid` has ended with `t`, which leaves `t` cached
/// (see the two lemmas above), every later resolution of `oid` on the same
/// client, whatever else was cached meanwhile, answers `t` itself at once
/// from `start`, asking for no catalog query and changing no cache. Built-in
/// types are answered from the table each time, with the same name, schema
/// and kind.
pub proof fn lemma_type_cache_monotonic(
    c_end: Client,
    c_later: Client,
    oid: Oid,
    t: Type,
    first: TypeinfoStep,
    second: TypeinfoStep,
)
    requires
        builtin(oid) is None ==> c_end.types.lookup(oid) == Some(t),
        cache_grows(c_end, c_later),
        builtin(oid) is Some ==> start_step(c_end, oid, first),
        start_step(c_later, oid, second),
    ensures
        builtin(oid) is None ==> second == TypeinfoStep::Finished(t),
        builtin(oid) is Some ==> (first matches TypeinfoStep::Finished(a) && second matches TypeinfoStep::Finished(b)
            && a.inner.oid == b.inner.oid && a.inner.name@ == b.inner.name@ && a.inner.schema@
            == b.inner.schema@ && a.inner.kind == b.inner.kind),
{
    if builtin(oid) is None {
        assert(c_end.types.lookup(oid) is Some);
    }
}

} // verus!
